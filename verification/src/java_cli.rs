//! Java toolchain integration: jar location, command-line assembly for
//! the Java generator, and parsing of its output. Process execution and
//! environment probing live outside the library.

use vstd::prelude::*;
use vstd::string::StrSliceExecFns;
use crate::error::GeneratorError;
use crate::text::{
    concat2, lemma_push_deep_view, replace_all, spec_replace, spec_starts_with, str_starts_with,
};

verus! {

/// A detected Java installation.
#[derive(Debug, Clone)]
pub struct JavaEnvironment {
    /// Path of the `java` executable.
    pub java_path: String,
    /// First line of `java -version`'s report.
    pub version: String,
}

/// Options for generating a Java project.
#[derive(Debug, Clone)]
pub struct JavaProjectOptions {
    pub name: String,
    pub package_name: Option<String>,
    pub group_id: Option<String>,
    pub artifact_id: Option<String>,
    pub version: Option<String>,
    pub output_path: Option<String>,
}

/// Mathematical model of a [`JavaProjectOptions`].
pub struct JavaProjectOptionsV {
    pub name: Seq<char>,
    pub package_name: Option<Seq<char>>,
    pub group_id: Option<Seq<char>>,
    pub artifact_id: Option<Seq<char>>,
    pub version: Option<Seq<char>>,
    pub output_path: Option<Seq<char>>,
}

impl View for JavaProjectOptions {
    type V = JavaProjectOptionsV;

    open spec fn view(&self) -> JavaProjectOptionsV {
        JavaProjectOptionsV {
            name: self.name@,
            package_name: self.package_name.deep_view(),
            group_id: self.group_id.deep_view(),
            artifact_id: self.artifact_id.deep_view(),
            version: self.version.deep_view(),
            output_path: self.output_path.deep_view(),
        }
    }
}

/// Where the Java generator jar is expected, under the executable's
/// directory. Whether it actually exists is for the caller to test.
pub fn get_java_cli_jar_path(exe_dir: &str) -> (r: String)
    ensures
        r@ == exe_dir@ + "/assets/java-cli.jar"@,
{
    concat2(exe_dir, "/assets/java-cli.jar")
}

/// A flag and its value, or nothing when the value is absent.
pub open spec fn spec_opt_arg(flag: Seq<char>, v: Option<Seq<char>>) -> Seq<Seq<char>> {
    match v {
        Some(s) => seq![flag, s],
        None => Seq::empty(),
    }
}

/// The command line handed to the Java generator for these options.
pub open spec fn spec_java_cli_args(o: JavaProjectOptionsV) -> Seq<Seq<char>> {
    seq!["generate"@, "--type"@, "java"@, "--name"@, o.name] + spec_opt_arg(
        "--package"@,
        o.package_name,
    ) + spec_opt_arg("--group-id"@, o.group_id) + spec_opt_arg("--artifact-id"@, o.artifact_id)
        + spec_opt_arg("--version"@, o.version) + spec_opt_arg("--output"@, o.output_path)
}

/// Appends a flag and its value when the value is present.
fn push_opt_arg(args: &mut Vec<String>, flag: &str, v: &Option<String>)
    ensures
        final(args).deep_view() == old(args).deep_view() + spec_opt_arg(flag@, v.deep_view()),
{
    match v {
        Some(s) => {
            let ghost p0 = args.deep_view();
            let f = flag.to_owned();
            let ghost gf = f;
            args.push(f);
            proof {
                lemma_push_deep_view(*old(args), *args, gf);
            }
            let ghost p1 = args.deep_view();
            let c = s.clone();
            let ghost gc = c;
            let ghost prev = *args;
            args.push(c);
            proof {
                lemma_push_deep_view(prev, *args, gc);
                assert(args.deep_view() =~= p0 + seq![flag@, s@]);
            }
        },
        None => {
            proof {
                assert(args.deep_view() =~= args.deep_view() + Seq::<Seq<char>>::empty());
            }
        },
    }
}

/// Assembles the command line for the Java generator: the fixed
/// `generate --type java --name <name>` prefix followed by each optional
/// flag whose value is present, in a fixed order.
pub fn java_cli_args(options: &JavaProjectOptions) -> (r: Vec<String>)
    ensures
        r.deep_view() == spec_java_cli_args(options@),
{
    let mut args: Vec<String> = Vec::new();
    args.push("generate".to_owned());
    args.push("--type".to_owned());
    args.push("java".to_owned());
    args.push("--name".to_owned());
    args.push(options.name.clone());
    proof {
        assert(args.deep_view() =~= seq![
            "generate"@,
            "--type"@,
            "java"@,
            "--name"@,
            options.name@,
        ]);
    }
    push_opt_arg(&mut args, "--package", &options.package_name);
    push_opt_arg(&mut args, "--group-id", &options.group_id);
    push_opt_arg(&mut args, "--artifact-id", &options.artifact_id);
    push_opt_arg(&mut args, "--version", &options.version);
    push_opt_arg(&mut args, "--output", &options.output_path);
    args
}

/// A trailing carriage return is not part of the line.
pub open spec fn spec_strip_cr(l: Seq<char>) -> Seq<char> {
    if l.len() > 0 && l.last() == '\r' {
        l.drop_last()
    } else {
        l
    }
}

/// The lines of `s` after the partial line `cur`: each newline ends a
/// line, a trailing carriage return is stripped, and a non-empty final
/// segment counts as a line of its own.
pub open spec fn spec_lines_acc(s: Seq<char>, cur: Seq<char>) -> Seq<Seq<char>>
    decreases s.len(),
{
    if s.len() == 0 {
        if cur.len() == 0 {
            Seq::empty()
        } else {
            seq![spec_strip_cr(cur)]
        }
    } else if s[0] == '\n' {
        seq![spec_strip_cr(cur)] + spec_lines_acc(s.skip(1), Seq::empty())
    } else {
        spec_lines_acc(s.skip(1), cur.push(s[0]))
    }
}

/// The lines of `s`.
pub open spec fn spec_lines(s: Seq<char>) -> Seq<Seq<char>> {
    spec_lines_acc(s, Seq::empty())
}

/// Splits `s` into lines: each newline ends a line, a trailing carriage
/// return is stripped, and a non-empty final segment is a line.
pub fn split_lines(s: &str) -> (r: Vec<String>)
    ensures
        r.deep_view() == spec_lines(s@),
{
    let n = s.unicode_len();
    let mut out: Vec<String> = Vec::new();
    let mut start: usize = 0;
    let mut i: usize = 0;
    proof {
        assert(s@.skip(0) =~= s@);
        assert(s@.subrange(0, 0) =~= Seq::<char>::empty());
        assert(out.deep_view() =~= Seq::<Seq<char>>::empty());
    }
    while i < n
        invariant
            n == s@.len(),
            start <= i <= n,
            spec_lines(s@) == out.deep_view() + spec_lines_acc(
                s@.skip(i as int),
                s@.subrange(start as int, i as int),
            ),
        decreases n - i,
    {
        proof {
            assert(s@.skip(i as int)[0] == s@[i as int]);
            assert(s@.skip(i as int).skip(1) =~= s@.skip(i + 1));
        }
        let c = s.get_char(i);
        if c == '\n' {
            let line_end = if i > start && s.get_char(i - 1) == '\r' {
                i - 1
            } else {
                i
            };
            proof {
                let cur = s@.subrange(start as int, i as int);
                if i > start && s@[i - 1] == '\r' {
                    assert(cur.last() == s@[i - 1]);
                    assert(spec_strip_cr(cur) =~= s@.subrange(start as int, line_end as int));
                } else {
                    if cur.len() > 0 {
                        assert(cur.last() == s@[i - 1]);
                    }
                    assert(spec_strip_cr(cur) =~= s@.subrange(start as int, line_end as int));
                }
            }
            let piece = s.substring_char(start, line_end);
            let line = piece.to_owned();
            let ghost gline = line;
            let ghost prev = out;
            out.push(line);
            proof {
                lemma_push_deep_view(prev, out, gline);
                assert(out.deep_view() + spec_lines_acc(s@.skip(i + 1), Seq::empty())
                    =~= prev.deep_view() + (seq![gline@] + spec_lines_acc(
                    s@.skip(i + 1),
                    Seq::empty(),
                )));
                assert(s@.subrange((i + 1) as int, (i + 1) as int) =~= Seq::<char>::empty());
            }
            i = i + 1;
            start = i;
        } else {
            proof {
                assert(s@.subrange(start as int, i as int).push(s@[i as int]) =~= s@.subrange(
                    start as int,
                    i + 1,
                ));
            }
            i = i + 1;
        }
    }
    proof {
        assert(s@.skip(n as int).len() == 0);
    }
    if start < n {
        let line_end = if s.get_char(n - 1) == '\r' {
            n - 1
        } else {
            n
        };
        proof {
            let cur = s@.subrange(start as int, n as int);
            assert(cur.last() == s@[n - 1]);
            assert(spec_strip_cr(cur) =~= s@.subrange(start as int, line_end as int));
        }
        let piece = s.substring_char(start, line_end);
        let line = piece.to_owned();
        let ghost gline = line;
        let ghost prev = out;
        out.push(line);
        proof {
            lemma_push_deep_view(prev, out, gline);
            assert(out.deep_view() =~= prev.deep_view() + seq![gline@]);
        }
    } else {
        proof {
            assert(s@.subrange(start as int, n as int).len() == 0);
            assert(out.deep_view() + Seq::<Seq<char>>::empty() =~= out.deep_view());
        }
    }
    out
}

/// The version report is the first line of the tool's output.
pub fn parse_java_version(version_output: &str) -> (r: Result<String, GeneratorError>)
    ensures
        (match r {
            Ok(v) => spec_lines(version_output@).len() > 0 && v@ == spec_lines(version_output@)[0],
            Err(e) => spec_lines(version_output@).len() == 0 && e matches
                GeneratorError::JavaEnvironment(_),
        }),
{
    let lines = split_lines(version_output);
    if lines.len() > 0 {
        let first = lines[0].clone();
        Ok(first)
    } else {
        Err(GeneratorError::JavaEnvironment("Failed to parse Java version".to_owned()))
    }
}

/// The files the Java generator reports: every line starting with
/// `Generated:`, with the `Generated: ` marker removed.
pub open spec fn spec_generated_files(lines: Seq<Seq<char>>) -> Seq<Seq<char>>
    decreases lines.len(),
{
    if lines.len() == 0 {
        Seq::empty()
    } else {
        let rest = spec_generated_files(lines.skip(1));
        if spec_starts_with(lines[0], "Generated:"@) {
            seq![spec_replace(lines[0], "Generated: "@, ""@)] + rest
        } else {
            rest
        }
    }
}

/// Extracts the generated files from the Java generator's output:
/// the lines starting with `Generated:`, their `Generated: ` marker
/// removed.
pub fn parse_generated_files(output: &str) -> (r: Vec<String>)
    ensures
        r.deep_view() == spec_generated_files(spec_lines(output@)),
{
    let lines = split_lines(output);
    let ghost all = lines.deep_view();
    let mut out: Vec<String> = Vec::new();
    let mut i: usize = 0;
    proof {
        reveal_strlit("Generated: ");
        assert(all.skip(0) =~= all);
        assert(out.deep_view() =~= Seq::<Seq<char>>::empty());
    }
    while i < lines.len()
        invariant
            all == lines.deep_view(),
            i <= lines.len(),
            "Generated: "@.len() > 0,
            spec_generated_files(all) == out.deep_view() + spec_generated_files(
                all.skip(i as int),
            ),
        decreases lines.len() - i,
    {
        proof {
            assert(all.skip(i as int)[0] == lines@[i as int]@);
            assert(all.skip(i as int).skip(1) =~= all.skip(i + 1));
        }
        if str_starts_with(lines[i].as_str(), "Generated:") {
            let stripped = replace_all(lines[i].as_str(), "Generated: ", "");
            let ghost gs = stripped;
            let ghost prev = out;
            out.push(stripped);
            proof {
                lemma_push_deep_view(prev, out, gs);
                assert(out.deep_view() + spec_generated_files(all.skip(i + 1)) =~= prev.deep_view()
                    + (seq![gs@] + spec_generated_files(all.skip(i + 1))));
            }
        }
        i = i + 1;
    }
    proof {
        assert(all.skip(lines.len() as int).len() == 0);
    }
    out
}

} // verus!
