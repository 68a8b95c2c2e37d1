//! Template registry and resolution engine for a project-scaffolding
//! generator.
//!
//! The library locates a named template across heterogeneous sources
//! (local directory, Git repository, HTTP archive, package registry),
//! caches resolved templates with time-based invalidation, and presents
//! uniform metadata to the rendering stage.

pub mod adapter;
pub mod cache;
pub mod cli;
pub mod error;
pub mod java_cli;
pub mod laws;
pub mod manager;
pub mod metadata;
pub mod registry;
pub mod templates;
pub mod text;
pub mod utils;

use vstd::prelude::*;

verus! {

/// Options handed to project generation.
#[derive(Debug, Clone)]
pub struct GenerateOptions {
    /// Project name.
    pub name: String,
    /// Project type (for example "java", "vue", "react").
    pub project_type: String,
    /// Template name, if one was chosen.
    pub template: Option<String>,
    /// Output path, if one was chosen.
    pub output_path: Option<String>,
    /// Extra substitution variables, as key/value pairs.
    pub variables: Option<Vec<(String, String)>>,
}

/// Result of a project generation.
#[derive(Debug, Clone)]
pub struct GenerateResult {
    /// Whether generation succeeded.
    pub success: bool,
    /// The files that were generated.
    pub files: Vec<String>,
    /// A human-readable message.
    pub message: Option<String>,
}

} // verus!
