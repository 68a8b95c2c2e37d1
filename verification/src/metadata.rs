//! Template metadata: the descriptor a source adapter produces for each
//! template, used for listing and for variable-prompt generation.

use vstd::prelude::*;

verus! {

/// The type of a template variable.
#[derive(Debug)]
pub enum VariableType {
    String,
    Boolean,
    Number,
    Choice { options: Vec<String> },
}

/// Mathematical model of a [`VariableType`].
pub enum VariableTypeV {
    String,
    Boolean,
    Number,
    Choice { options: Seq<Seq<char>> },
}

impl VariableTypeV {
    /// A `Choice` type must offer at least one option.
    pub open spec fn wf(self) -> bool {
        match self {
            VariableTypeV::Choice { options } => options.len() > 0,
            _ => true,
        }
    }
}

impl View for VariableType {
    type V = VariableTypeV;

    open spec fn view(&self) -> VariableTypeV {
        match self {
            VariableType::String => VariableTypeV::String,
            VariableType::Boolean => VariableTypeV::Boolean,
            VariableType::Number => VariableTypeV::Number,
            VariableType::Choice { options } => VariableTypeV::Choice {
                options: options.deep_view(),
            },
        }
    }
}

impl DeepView for VariableType {
    type V = VariableTypeV;

    open spec fn deep_view(&self) -> VariableTypeV {
        self.view()
    }
}

/// Clones a vector of strings, keeping its contents.
fn clone_string_vec(v: &Vec<String>) -> (r: Vec<String>)
    ensures
        r@ == v@,
{
    let mut r: Vec<String> = Vec::new();
    let mut i: usize = 0;
    while i < v.len()
        invariant
            i <= v.len(),
            r@ =~= v@.subrange(0, i as int),
        decreases v.len() - i,
    {
        r.push(v[i].clone());
        i = i + 1;
    }
    proof {
        assert(r@ =~= v@);
    }
    r
}

impl Clone for VariableType {
    /// Clones the variable type, keeping its model.
    fn clone(&self) -> (res: Self)
        ensures
            res@ == self@,
    {
        match self {
            VariableType::String => VariableType::String,
            VariableType::Boolean => VariableType::Boolean,
            VariableType::Number => VariableType::Number,
            VariableType::Choice { options } => VariableType::Choice {
                options: clone_string_vec(options),
            },
        }
    }
}

/// A variable a template asks its consumer to supply.
#[derive(Debug)]
pub struct TemplateVariable {
    pub name: String,
    pub description: String,
    pub default: Option<String>,
    pub required: bool,
    pub var_type: VariableType,
}

/// Mathematical model of a [`TemplateVariable`].
pub struct TemplateVariableV {
    pub name: Seq<char>,
    pub description: Seq<char>,
    pub default: Option<Seq<char>>,
    pub required: bool,
    pub var_type: VariableTypeV,
}

impl TemplateVariableV {
    pub open spec fn wf(self) -> bool {
        self.var_type.wf()
    }
}

impl View for TemplateVariable {
    type V = TemplateVariableV;

    open spec fn view(&self) -> TemplateVariableV {
        TemplateVariableV {
            name: self.name@,
            description: self.description@,
            default: self.default.deep_view(),
            required: self.required,
            var_type: self.var_type@,
        }
    }
}

impl DeepView for TemplateVariable {
    type V = TemplateVariableV;

    open spec fn deep_view(&self) -> TemplateVariableV {
        self.view()
    }
}

/// Clones an optional string, keeping its contents.
fn clone_opt_string(v: &Option<String>) -> (r: Option<String>)
    ensures
        r == *v,
{
    match v {
        Some(s) => Some(s.clone()),
        None => None,
    }
}

impl Clone for TemplateVariable {
    /// Clones the variable, keeping its model.
    fn clone(&self) -> (res: Self)
        ensures
            res@ == self@,
    {
        TemplateVariable {
            name: self.name.clone(),
            description: self.description.clone(),
            default: clone_opt_string(&self.default),
            required: self.required,
            var_type: self.var_type.clone(),
        }
    }
}

/// Clones a vector of template variables, keeping its model.
fn clone_variables(v: &Vec<TemplateVariable>) -> (r: Vec<TemplateVariable>)
    ensures
        r.deep_view() == v.deep_view(),
{
    let mut r: Vec<TemplateVariable> = Vec::new();
    let mut i: usize = 0;
    while i < v.len()
        invariant
            i <= v.len(),
            r.len() == i,
            r.deep_view() =~= v.deep_view().subrange(0, i as int),
        decreases v.len() - i,
    {
        r.push(v[i].clone());
        proof {
            assert forall|k: int| 0 <= k < i + 1 implies r.deep_view()[k] == v.deep_view().subrange(
                0,
                i + 1,
            )[k] by {
                assert(r.deep_view()[k] == r@[k].deep_view());
                assert(v.deep_view()[k] == v@[k].deep_view());
            }
            assert(r.deep_view() =~= v.deep_view().subrange(0, i + 1));
        }
        i = i + 1;
    }
    proof {
        assert(r.deep_view() =~= v.deep_view());
    }
    r
}

/// Metadata describing one template, as read from its descriptor.
#[derive(Debug)]
pub struct TemplateMetadata {
    pub name: String,
    pub version: String,
    pub description: String,
    pub author: String,
    pub project_type: String,
    pub variables: Vec<TemplateVariable>,
    pub dependencies: Vec<String>,
    pub tags: Vec<String>,
}

/// Mathematical model of a [`TemplateMetadata`].
pub struct TemplateMetadataV {
    pub name: Seq<char>,
    pub version: Seq<char>,
    pub description: Seq<char>,
    pub author: Seq<char>,
    pub project_type: Seq<char>,
    pub variables: Seq<TemplateVariableV>,
    pub dependencies: Seq<Seq<char>>,
    pub tags: Seq<Seq<char>>,
}

impl TemplateMetadataV {
    /// Every declared variable is well-formed.
    pub open spec fn wf(self) -> bool {
        forall|i: int| 0 <= i < self.variables.len() ==> (#[trigger] self.variables[i]).wf()
    }
}

impl View for TemplateMetadata {
    type V = TemplateMetadataV;

    open spec fn view(&self) -> TemplateMetadataV {
        TemplateMetadataV {
            name: self.name@,
            version: self.version@,
            description: self.description@,
            author: self.author@,
            project_type: self.project_type@,
            variables: self.variables.deep_view(),
            dependencies: self.dependencies.deep_view(),
            tags: self.tags.deep_view(),
        }
    }
}

impl DeepView for TemplateMetadata {
    type V = TemplateMetadataV;

    open spec fn deep_view(&self) -> TemplateMetadataV {
        self.view()
    }
}

impl Clone for TemplateMetadata {
    /// Clones the metadata, keeping its model.
    fn clone(&self) -> (res: Self)
        ensures
            res@ == self@,
    {
        TemplateMetadata {
            name: self.name.clone(),
            version: self.version.clone(),
            description: self.description.clone(),
            author: self.author.clone(),
            project_type: self.project_type.clone(),
            variables: clone_variables(&self.variables),
            dependencies: clone_string_vec(&self.dependencies),
            tags: clone_string_vec(&self.tags),
        }
    }
}

} // verus!
