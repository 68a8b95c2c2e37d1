use generator::templates::{
    generate_project_from_template, get_template_info, list_templates_by_type, render_template,
};
use generator::error::GeneratorError;
use generator::{GenerateOptions, GenerateResult};

#[test]
fn test_get_template_info() {
    // To show test output, use:
    // cargo test -- --nocapture
    println!("This will be shown when running with --nocapture");
    // Or use env var:
    // RUST_TEST_NOCAPTURE=1 cargo test
    println!("This will also be shown with RUST_TEST_NOCAPTURE=1");
}

#[test]
fn template_info_known_pairs() {
    assert_eq!(
        get_template_info("vue", "basic").unwrap(),
        "模板信息: basic - Vue 3 + Vite 基础模板"
    );
    assert_eq!(
        get_template_info("java", "spring-boot").unwrap(),
        "模板信息: spring-boot - Spring Boot 企业级模板"
    );
    assert_eq!(
        get_template_info("react", "nextjs").unwrap(),
        "模板信息: nextjs - Next.js 全栈模板"
    );
}

#[test]
fn template_info_unknown_pair() {
    let err = get_template_info("vue", "nextjs").expect_err("unknown pair");
    match err {
        GeneratorError::TemplateNotFound(msg) => {
            assert_eq!(msg, "Template not found: vue:nextjs");
        },
        other => panic!("unexpected error: {:?}", other),
    }
}

#[test]
fn list_templates_by_type_known_types() {
    assert_eq!(list_templates_by_type("java").unwrap(), vec!["basic", "spring-boot"]);
    assert_eq!(list_templates_by_type("vue").unwrap(), vec!["basic", "typescript"]);
    assert_eq!(list_templates_by_type("react").unwrap(), vec!["basic", "nextjs"]);
}

#[test]
fn list_templates_by_type_unknown_type() {
    let err = list_templates_by_type("fortran").expect_err("unsupported type");
    match err {
        GeneratorError::TemplateNotFound(msg) => {
            assert_eq!(msg, "Unsupported project type: fortran");
        },
        other => panic!("unexpected error: {:?}", other),
    }
}

#[test]
fn render_template_substitutes_placeholders() {
    let vars = vec![
        ("name".to_string(), "World".to_string()),
        ("greeting".to_string(), "Hello".to_string()),
    ];
    let out = render_template("{{greeting}}, {{name}}! Again: {{name}}.", &vars).unwrap();
    assert_eq!(out, "Hello, World! Again: World.");
}

#[test]
fn render_template_leaves_unknown_placeholders() {
    let vars = vec![("name".to_string(), "World".to_string())];
    let out = render_template("{{name}} and {{other}}", &vars).unwrap();
    assert_eq!(out, "World and {{other}}");
}

#[test]
fn render_template_applies_variables_in_order() {
    // the first substitution introduces text the second one then rewrites
    let vars = vec![
        ("a".to_string(), "{{b}}".to_string()),
        ("b".to_string(), "x".to_string()),
    ];
    let out = render_template("{{a}}", &vars).unwrap();
    assert_eq!(out, "x");
}

#[test]
fn generate_project_reports_readme_and_message() {
    let options = GenerateOptions {
        name: "demo".to_string(),
        project_type: "vue".to_string(),
        template: Some("typescript".to_string()),
        output_path: None,
        variables: None,
    };
    let result: GenerateResult = generate_project_from_template(options).unwrap();
    assert!(result.success);
    assert_eq!(result.files, vec!["demo/README.md"]);
    assert_eq!(
        result.message.as_deref(),
        Some("项目 demo 生成成功 (使用模板: typescript)")
    );
}

#[test]
fn generate_project_defaults_to_basic_template() {
    let options = GenerateOptions {
        name: "demo".to_string(),
        project_type: "vue".to_string(),
        template: None,
        output_path: None,
        variables: None,
    };
    let result = generate_project_from_template(options).unwrap();
    assert_eq!(result.message.as_deref(), Some("项目 demo 生成成功 (使用模板: basic)"));
}

#[test]
fn default_template_choices() {
    assert_eq!(generator::cli::default_template_for("java"), "spring-boot");
    assert_eq!(generator::cli::default_template_for("vue"), "basic");
    assert_eq!(generator::cli::default_template_for("react"), "basic");
    assert_eq!(generator::cli::default_template_for("other"), "basic");
}

#[test]
fn affirmative_answers() {
    assert!(generator::cli::is_affirmative(""));
    assert!(generator::cli::is_affirmative("y"));
    assert!(generator::cli::is_affirmative("yes"));
    assert!(!generator::cli::is_affirmative("n"));
    assert!(!generator::cli::is_affirmative("nope"));
}

#[test]
fn test_normalize_path() {
    let path = "src/lib.rs";
    let normalized = generator::utils::normalize_path(path);
    assert_eq!(normalized, "src/lib.rs".to_string());
    let windows_style = "src\\lib.rs";
    assert_eq!(generator::utils::normalize_path(windows_style), "src/lib.rs".to_string());
}
