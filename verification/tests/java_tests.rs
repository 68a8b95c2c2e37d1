use generator::java_cli::{
    get_java_cli_jar_path, java_cli_args, parse_generated_files, parse_java_version, split_lines,
    JavaProjectOptions,
};
use generator::error::GeneratorError;

#[test]
fn jar_path_under_exe_dir() {
    assert_eq!(get_java_cli_jar_path("/opt/app"), "/opt/app/assets/java-cli.jar");
}

#[test]
fn cli_args_with_all_options() {
    let options = JavaProjectOptions {
        name: "demo".to_string(),
        package_name: Some("com.example.demo".to_string()),
        group_id: Some("com.example".to_string()),
        artifact_id: Some("demo".to_string()),
        version: Some("0.1.0".to_string()),
        output_path: Some("./out".to_string()),
    };
    assert_eq!(
        java_cli_args(&options),
        vec![
            "generate",
            "--type",
            "java",
            "--name",
            "demo",
            "--package",
            "com.example.demo",
            "--group-id",
            "com.example",
            "--artifact-id",
            "demo",
            "--version",
            "0.1.0",
            "--output",
            "./out",
        ]
    );
}

#[test]
fn cli_args_with_name_only() {
    let options = JavaProjectOptions {
        name: "demo".to_string(),
        package_name: None,
        group_id: None,
        artifact_id: None,
        version: None,
        output_path: None,
    };
    assert_eq!(java_cli_args(&options), vec!["generate", "--type", "java", "--name", "demo"]);
}

#[test]
fn generated_files_are_extracted() {
    let output = "Generated: src/Main.java\nBuilding...\nGenerated: pom.xml\n";
    assert_eq!(parse_generated_files(output), vec!["src/Main.java", "pom.xml"]);
}

#[test]
fn generated_files_empty_output() {
    assert_eq!(parse_generated_files(""), Vec::<String>::new());
    assert_eq!(parse_generated_files("nothing here"), Vec::<String>::new());
}

#[test]
fn java_version_is_first_line() {
    let v = parse_java_version("openjdk version \"17.0.2\"\nOpenJDK Runtime\n").unwrap();
    assert_eq!(v, "openjdk version \"17.0.2\"");
}

#[test]
fn java_version_empty_output_fails() {
    let err = parse_java_version("").expect_err("no output");
    assert!(matches!(err, GeneratorError::JavaEnvironment(_)));
}

#[test]
fn lines_split_like_the_standard_library() {
    assert_eq!(split_lines("a\nb\nc"), vec!["a", "b", "c"]);
    assert_eq!(split_lines("a\nb\n"), vec!["a", "b"]);
    assert_eq!(split_lines("a\r\nb"), vec!["a", "b"]);
    assert_eq!(split_lines("a\n\nb"), vec!["a", "", "b"]);
    assert_eq!(split_lines(""), Vec::<String>::new());
    // agreement with the standard library on the same inputs
    for s in ["a\nb\nc", "a\nb\n", "a\r\nb", "a\n\nb", "", "x"] {
        let expected: Vec<String> = s.lines().map(|l| l.to_string()).collect();
        assert_eq!(split_lines(s), expected, "disagreement on {:?}", s);
    }
}
