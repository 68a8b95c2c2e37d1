//! Simplified template operations: canned listings and descriptions per
//! project type, and placeholder rendering.

use vstd::prelude::*;
use crate::error::GeneratorError;
use crate::text::{concat2, concat3, replace_all, spec_replace, str_eq};
use crate::{GenerateOptions, GenerateResult};

verus! {

/// The template name generation falls back to when none was chosen.
pub open spec fn spec_chosen_template(t: Option<Seq<char>>) -> Seq<char> {
    match t {
        Some(s) => s,
        None => "basic"@,
    }
}

/// Generates a project skeleton from the chosen template.
///
/// Reports one generated file, `<name>/README.md`, and a message naming
/// the project and the template that was used.
pub fn generate_project_from_template(options: GenerateOptions) -> (r: Result<
    GenerateResult,
    GeneratorError,
>)
    ensures
        r matches Ok(g) && g.success && g.files.deep_view() == seq![options.name@ + "/README.md"@]
            && (g.message matches Some(m) && m@ == "项目 "@ + options.name@
            + " 生成成功 (使用模板: "@ + spec_chosen_template(options.template.deep_view())
            + ")"@),
{
    let file = concat2(options.name.as_str(), "/README.md");
    let head = concat3("项目 ", options.name.as_str(), " 生成成功 (使用模板: ");
    let template = match &options.template {
        Some(t) => t.as_str(),
        None => "basic",
    };
    let message = concat3(head.as_str(), template, ")");
    let mut files: Vec<String> = Vec::new();
    files.push(file);
    proof {
        assert(files.deep_view() =~= seq![options.name@ + "/README.md"@]);
    }
    Ok(GenerateResult { success: true, files, message: Some(message) })
}

/// Lists the template names offered for a project type.
///
/// Exactly the types "java", "vue" and "react" are supported; any other
/// type is reported as not found.
pub fn list_templates_by_type(project_type: &str) -> (r: Result<Vec<String>, GeneratorError>)
    ensures
        project_type@ == "java"@ ==> (r matches Ok(v) && v.deep_view() == seq![
            "basic"@,
            "spring-boot"@,
        ]),
        project_type@ == "vue"@ ==> (r matches Ok(v) && v.deep_view() == seq![
            "basic"@,
            "typescript"@,
        ]),
        project_type@ == "react"@ ==> (r matches Ok(v) && v.deep_view() == seq![
            "basic"@,
            "nextjs"@,
        ]),
        project_type@ != "java"@ && project_type@ != "vue"@ && project_type@ != "react"@ ==> (
        r matches Err(GeneratorError::TemplateNotFound(m)) && m@ == "Unsupported project type: "@
            + project_type@),
{
    proof {
        reveal_strlit("java");
        reveal_strlit("vue");
        reveal_strlit("react");
        assert("java"@.len() == 4);
        assert("vue"@.len() == 3);
        assert("react"@.len() == 5);
        assert("java"@ != "vue"@);
        assert("java"@ != "react"@);
        assert("vue"@ != "react"@);
    }
    if str_eq(project_type, "java") {
        let mut v: Vec<String> = Vec::new();
        v.push("basic".to_owned());
        v.push("spring-boot".to_owned());
        proof {
            assert(v.deep_view() =~= seq!["basic"@, "spring-boot"@]);
        }
        Ok(v)
    } else if str_eq(project_type, "vue") {
        let mut v: Vec<String> = Vec::new();
        v.push("basic".to_owned());
        v.push("typescript".to_owned());
        proof {
            assert(v.deep_view() =~= seq!["basic"@, "typescript"@]);
        }
        Ok(v)
    } else if str_eq(project_type, "react") {
        let mut v: Vec<String> = Vec::new();
        v.push("basic".to_owned());
        v.push("nextjs".to_owned());
        proof {
            assert(v.deep_view() =~= seq!["basic"@, "nextjs"@]);
        }
        Ok(v)
    } else {
        Err(
            GeneratorError::TemplateNotFound(
                concat2("Unsupported project type: ", project_type),
            ),
        )
    }
}

/// The description of a known `(project type, template)` pair.
pub open spec fn spec_template_info(project_type: Seq<char>, template: Seq<char>) -> Option<
    Seq<char>,
> {
    if project_type == "vue"@ && template == "basic"@ {
        Some("Vue 3 + Vite 基础模板"@)
    } else if project_type == "vue"@ && template == "typescript"@ {
        Some("Vue 3 + Vite + TypeScript 模板"@)
    } else if project_type == "react"@ && template == "basic"@ {
        Some("React + Vite 基础模板"@)
    } else if project_type == "react"@ && template == "nextjs"@ {
        Some("Next.js 全栈模板"@)
    } else if project_type == "java"@ && template == "basic"@ {
        Some("Java Maven 基础模板"@)
    } else if project_type == "java"@ && template == "spring-boot"@ {
        Some("Spring Boot 企业级模板"@)
    } else {
        None
    }
}

/// Describes a template of a project type, or reports it not found.
pub fn get_template_info(project_type: &str, template: &str) -> (r: Result<String, GeneratorError>)
    ensures
        (match spec_template_info(project_type@, template@) {
            Some(info) => r matches Ok(s) && s@ == "模板信息: "@ + template@ + " - "@ + info,
            None => r matches Err(GeneratorError::TemplateNotFound(m)) && m@
                == "Template not found: "@ + project_type@ + ":"@ + template@,
        }),
{
    let info = if str_eq(project_type, "vue") && str_eq(template, "basic") {
        "Vue 3 + Vite 基础模板"
    } else if str_eq(project_type, "vue") && str_eq(template, "typescript") {
        "Vue 3 + Vite + TypeScript 模板"
    } else if str_eq(project_type, "react") && str_eq(template, "basic") {
        "React + Vite 基础模板"
    } else if str_eq(project_type, "react") && str_eq(template, "nextjs") {
        "Next.js 全栈模板"
    } else if str_eq(project_type, "java") && str_eq(template, "basic") {
        "Java Maven 基础模板"
    } else if str_eq(project_type, "java") && str_eq(template, "spring-boot") {
        "Spring Boot 企业级模板"
    } else {
        let head = concat3("Template not found: ", project_type, ":");
        return Err(GeneratorError::TemplateNotFound(concat2(head.as_str(), template)));
    };
    let head = concat3("模板信息: ", template, " - ");
    Ok(concat2(head.as_str(), info))
}

/// The result of substituting, for each variable in order, every
/// `{{key}}` placeholder by its value.
pub open spec fn spec_placeholder(key: Seq<char>) -> Seq<char> {
    "{{"@ + key + "}}"@
}

/// Renders `content` by folding the substitutions left to right.
pub open spec fn spec_render(content: Seq<char>, vars: Seq<(Seq<char>, Seq<char>)>) -> Seq<char>
    decreases vars.len(),
{
    if vars.len() == 0 {
        content
    } else {
        spec_render(
            spec_replace(content, spec_placeholder(vars[0].0), vars[0].1),
            vars.skip(1),
        )
    }
}

/// Substitutes every `{{key}}` placeholder in `template_content` by the
/// paired value, one variable at a time, in the given order.
pub fn render_template(template_content: &str, variables: &Vec<(String, String)>) -> (r: Result<
    String,
    GeneratorError,
>)
    ensures
        r matches Ok(s) && s@ == spec_render(template_content@, variables.deep_view()),
{
    let mut cur = template_content.to_owned();
    let mut i: usize = 0;
    proof {
        assert(variables.deep_view().skip(0) =~= variables.deep_view());
    }
    while i < variables.len()
        invariant
            i <= variables.len(),
            spec_render(template_content@, variables.deep_view()) == spec_render(
                cur@,
                variables.deep_view().skip(i as int),
            ),
        decreases variables.len() - i,
    {
        let placeholder = concat3("{{", variables[i].0.as_str(), "}}");
        proof {
            reveal_strlit("{{");
            assert(placeholder@.len() > 0);
            assert(variables.deep_view().skip(i as int)[0] == variables.deep_view()[i as int]);
            assert(variables.deep_view()[i as int] == variables@[i as int].deep_view());
            assert(variables.deep_view().skip(i as int).skip(1) =~= variables.deep_view().skip(
                i + 1,
            ));
        }
        cur = replace_all(cur.as_str(), placeholder.as_str(), variables[i].1.as_str());
        i = i + 1;
    }
    proof {
        assert(variables.deep_view().skip(variables.len() as int).len() == 0);
    }
    Ok(cur)
}

} // verus!
