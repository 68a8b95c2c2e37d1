//! Source adapters: the capability interface a template source is
//! accessed through, and a deterministic in-memory adapter.
//!
//! The registry's resolution logic is verified against the adapter
//! contract alone, so an adapter backed by real transports (filesystem
//! scan, Git, HTTP) can be substituted without touching the verified
//! orchestration.

use vstd::prelude::*;
use crate::error::{ErrorKind, GeneratorError};
use crate::metadata::{TemplateMetadata, TemplateMetadataV};
use crate::registry::{TemplateSource, TemplateSourceV};
use crate::text::{concat2, str_eq};

verus! {

/// A template materialized on disk: its location plus its metadata.
#[derive(Debug)]
pub struct ResolvedTemplate {
    /// Filesystem location of the template tree.
    pub path: String,
    pub metadata: TemplateMetadata,
}

/// Mathematical model of a [`ResolvedTemplate`].
pub struct ResolvedTemplateV {
    pub path: Seq<char>,
    pub metadata: TemplateMetadataV,
}

impl View for ResolvedTemplate {
    type V = ResolvedTemplateV;

    open spec fn view(&self) -> ResolvedTemplateV {
        ResolvedTemplateV { path: self.path@, metadata: self.metadata@ }
    }
}

impl DeepView for ResolvedTemplate {
    type V = ResolvedTemplateV;

    open spec fn deep_view(&self) -> ResolvedTemplateV {
        self.view()
    }
}

impl Clone for ResolvedTemplate {
    /// Clones the resolved template, keeping its model.
    fn clone(&self) -> (res: Self)
        ensures
            res@ == self@,
    {
        ResolvedTemplate { path: self.path.clone(), metadata: self.metadata.clone() }
    }
}

/// Materializes templates from a source descriptor.
///
/// `spec_fetch` and `spec_list` model what the adapter would hand back
/// for a given descriptor; the executable methods must agree with the
/// model and may only update bookkeeping that the model ignores (such
/// as call counters).
pub trait SourceAdapter: Sized {
    /// What fetching `name` of `project_type` from `source` yields.
    spec fn spec_fetch(
        &self,
        source: TemplateSourceV,
        project_type: Seq<char>,
        name: Seq<char>,
    ) -> Result<ResolvedTemplateV, ErrorKind>;

    /// What listing `source` yields.
    spec fn spec_list(&self, source: TemplateSourceV) -> Result<Seq<TemplateMetadataV>, ErrorKind>;

    /// Materializes one template.
    fn fetch_one(&mut self, source: &TemplateSource, project_type: &str, name: &str) -> (r: Result<
        ResolvedTemplate,
        GeneratorError,
    >)
        ensures
            forall|s: TemplateSourceV, t: Seq<char>, n: Seq<char>| #[trigger]
                final(self).spec_fetch(s, t, n) == old(self).spec_fetch(s, t, n),
            forall|s: TemplateSourceV| #[trigger]
                final(self).spec_list(s) == old(self).spec_list(s),
            (match r {
                Ok(v) => old(self).spec_fetch(source@, project_type@, name@) == Ok::<
                    ResolvedTemplateV,
                    ErrorKind,
                >(v@),
                Err(e) => old(self).spec_fetch(source@, project_type@, name@) == Err::<
                    ResolvedTemplateV,
                    ErrorKind,
                >(e.kind()),
            }),
    ;

    /// Lists every template the source offers.
    fn fetch_list(&mut self, source: &TemplateSource) -> (r: Result<
        Vec<TemplateMetadata>,
        GeneratorError,
    >)
        ensures
            forall|s: TemplateSourceV, t: Seq<char>, n: Seq<char>| #[trigger]
                final(self).spec_fetch(s, t, n) == old(self).spec_fetch(s, t, n),
            forall|s: TemplateSourceV| #[trigger]
                final(self).spec_list(s) == old(self).spec_list(s),
            (match r {
                Ok(v) => old(self).spec_list(source@) == Ok::<Seq<TemplateMetadataV>, ErrorKind>(
                    v.deep_view(),
                ),
                Err(e) => old(self).spec_list(source@) == Err::<Seq<TemplateMetadataV>, ErrorKind>(
                    e.kind(),
                ),
            }),
    ;
}

/// One mounted local directory of the in-memory adapter.
#[derive(Debug)]
pub struct InMemoryRoot {
    /// The directory path a `Local` descriptor must name.
    pub path: String,
    pub templates: Vec<ResolvedTemplate>,
}

/// Mathematical model of an [`InMemoryRoot`].
pub struct InMemoryRootV {
    pub path: Seq<char>,
    pub templates: Seq<ResolvedTemplateV>,
}

impl View for InMemoryRoot {
    type V = InMemoryRootV;

    open spec fn view(&self) -> InMemoryRootV {
        InMemoryRootV { path: self.path@, templates: self.templates.deep_view() }
    }
}

impl DeepView for InMemoryRoot {
    type V = InMemoryRootV;

    open spec fn deep_view(&self) -> InMemoryRootV {
        self.view()
    }
}

/// One downloadable archive of the in-memory adapter.
#[derive(Debug)]
pub struct InMemoryPackage {
    /// The URL an `Http` descriptor must name.
    pub url: String,
    /// The checksum of the archive's actual content.
    pub checksum: String,
    pub templates: Vec<ResolvedTemplate>,
}

/// Mathematical model of an [`InMemoryPackage`].
pub struct InMemoryPackageV {
    pub url: Seq<char>,
    pub checksum: Seq<char>,
    pub templates: Seq<ResolvedTemplateV>,
}

impl View for InMemoryPackage {
    type V = InMemoryPackageV;

    open spec fn view(&self) -> InMemoryPackageV {
        InMemoryPackageV {
            url: self.url@,
            checksum: self.checksum@,
            templates: self.templates.deep_view(),
        }
    }
}

impl DeepView for InMemoryPackage {
    type V = InMemoryPackageV;

    open spec fn deep_view(&self) -> InMemoryPackageV {
        self.view()
    }
}

/// The first root whose path is `path`.
pub open spec fn spec_find_root(roots: Seq<InMemoryRootV>, path: Seq<char>) -> Option<InMemoryRootV>
    decreases roots.len(),
{
    if roots.len() == 0 {
        None
    } else if roots[0].path == path {
        Some(roots[0])
    } else {
        spec_find_root(roots.skip(1), path)
    }
}

/// The first package whose URL is `url`.
pub open spec fn spec_find_package(
    packages: Seq<InMemoryPackageV>,
    url: Seq<char>,
) -> Option<InMemoryPackageV>
    decreases packages.len(),
{
    if packages.len() == 0 {
        None
    } else if packages[0].url == url {
        Some(packages[0])
    } else {
        spec_find_package(packages.skip(1), url)
    }
}

/// The first template named `name` with project type `project_type`.
pub open spec fn spec_find_template(
    templates: Seq<ResolvedTemplateV>,
    project_type: Seq<char>,
    name: Seq<char>,
) -> Option<ResolvedTemplateV>
    decreases templates.len(),
{
    if templates.len() == 0 {
        None
    } else if templates[0].metadata.name == name && templates[0].metadata.project_type
        == project_type {
        Some(templates[0])
    } else {
        spec_find_template(templates.skip(1), project_type, name)
    }
}

/// The metadata records of a template sequence, in order.
pub open spec fn spec_metadata_of(templates: Seq<ResolvedTemplateV>) -> Seq<TemplateMetadataV> {
    templates.map_values(|t: ResolvedTemplateV| t.metadata)
}

/// A deterministic adapter over in-memory content.
///
/// `Local` descriptors are served from mounted roots and `Http`
/// descriptors from stored packages (verifying a configured checksum
/// against the package's actual one); `Git` and `Npm` descriptors need
/// a real transport and are reported unavailable. Call counters record
/// how often the source was consulted.
#[derive(Debug)]
pub struct InMemoryAdapter {
    pub roots: Vec<InMemoryRoot>,
    pub packages: Vec<InMemoryPackage>,
    /// How many times `fetch_one` was invoked.
    pub fetch_calls: u64,
    /// How many times `fetch_list` was invoked.
    pub list_calls: u64,
}

impl InMemoryAdapter {
    /// An adapter with no content.
    pub fn new() -> (r: Self)
        ensures
            r.roots@.len() == 0,
            r.packages@.len() == 0,
            r.fetch_calls == 0,
            r.list_calls == 0,
    {
        InMemoryAdapter { roots: Vec::new(), packages: Vec::new(), fetch_calls: 0, list_calls: 0 }
    }

    /// What this adapter yields for `source`, before checking for a
    /// particular template: the template sequence behind the source.
    pub open spec fn spec_source_content(&self, source: TemplateSourceV) -> Result<
        Seq<ResolvedTemplateV>,
        ErrorKind,
    > {
        match source {
            TemplateSourceV::Local { path } => match spec_find_root(self.roots.deep_view(), path) {
                Some(root) => Ok(root.templates),
                None => Err(ErrorKind::SourceUnavailable),
            },
            TemplateSourceV::Http { url, checksum, auth } => {
                match spec_find_package(self.packages.deep_view(), url) {
                    Some(pkg) => match checksum {
                        Some(expected) => if expected == pkg.checksum {
                            Ok(pkg.templates)
                        } else {
                            Err(ErrorKind::IntegrityError)
                        },
                        None => Ok(pkg.templates),
                    },
                    None => Err(ErrorKind::SourceUnavailable),
                }
            },
            _ => Err(ErrorKind::SourceUnavailable),
        }
    }

    /// Finds the first root with the given path.
    fn find_root(&self, path: &str) -> (r: Option<&InMemoryRoot>)
        ensures
            (match r {
                Some(root) => spec_find_root(self.roots.deep_view(), path@) == Some(root@),
                None => spec_find_root(self.roots.deep_view(), path@) is None,
            }),
    {
        let n = self.roots.len();
        let mut i: usize = 0;
        proof {
            assert(self.roots.deep_view().skip(0) =~= self.roots.deep_view());
        }
        while i < n
            invariant
                n == self.roots.len(),
                i <= n,
                spec_find_root(self.roots.deep_view(), path@) == spec_find_root(
                    self.roots.deep_view().skip(i as int),
                    path@,
                ),
            decreases n - i,
        {
            proof {
                assert(self.roots.deep_view().skip(i as int)[0] == self.roots@[i as int]@);
            }
            if str_eq(self.roots[i].path.as_str(), path) {
                return Some(&self.roots[i]);
            }
            proof {
                assert(self.roots.deep_view().skip(i as int).skip(1) =~= self.roots.deep_view()
                    .skip(i + 1));
            }
            i = i + 1;
        }
        proof {
            assert(self.roots.deep_view().skip(n as int).len() == 0);
        }
        None
    }

    /// Finds the first package with the given URL.
    fn find_package(&self, url: &str) -> (r: Option<&InMemoryPackage>)
        ensures
            (match r {
                Some(pkg) => spec_find_package(self.packages.deep_view(), url@) == Some(pkg@),
                None => spec_find_package(self.packages.deep_view(), url@) is None,
            }),
    {
        let n = self.packages.len();
        let mut i: usize = 0;
        proof {
            assert(self.packages.deep_view().skip(0) =~= self.packages.deep_view());
        }
        while i < n
            invariant
                n == self.packages.len(),
                i <= n,
                spec_find_package(self.packages.deep_view(), url@) == spec_find_package(
                    self.packages.deep_view().skip(i as int),
                    url@,
                ),
            decreases n - i,
        {
            proof {
                assert(self.packages.deep_view().skip(i as int)[0] == self.packages@[i as int]@);
            }
            if str_eq(self.packages[i].url.as_str(), url) {
                return Some(&self.packages[i]);
            }
            proof {
                assert(self.packages.deep_view().skip(i as int).skip(1)
                    =~= self.packages.deep_view().skip(i + 1));
            }
            i = i + 1;
        }
        proof {
            assert(self.packages.deep_view().skip(n as int).len() == 0);
        }
        None
    }

    /// Finds the first template matching type and name.
    fn find_template<'a>(
        templates: &'a Vec<ResolvedTemplate>,
        project_type: &str,
        name: &str,
    ) -> (r: Option<&'a ResolvedTemplate>)
        ensures
            (match r {
                Some(t) => spec_find_template(templates.deep_view(), project_type@, name@) == Some(
                    t@,
                ),
                None => spec_find_template(templates.deep_view(), project_type@, name@) is None,
            }),
    {
        let n = templates.len();
        let mut i: usize = 0;
        proof {
            assert(templates.deep_view().skip(0) =~= templates.deep_view());
        }
        while i < n
            invariant
                n == templates.len(),
                i <= n,
                spec_find_template(templates.deep_view(), project_type@, name@)
                    == spec_find_template(
                    templates.deep_view().skip(i as int),
                    project_type@,
                    name@,
                ),
            decreases n - i,
        {
            proof {
                assert(templates.deep_view().skip(i as int)[0] == templates@[i as int]@);
            }
            if str_eq(templates[i].metadata.name.as_str(), name) && str_eq(
                templates[i].metadata.project_type.as_str(),
                project_type,
            ) {
                return Some(&templates[i]);
            }
            proof {
                assert(templates.deep_view().skip(i as int).skip(1) =~= templates.deep_view().skip(
                    i + 1,
                ));
            }
            i = i + 1;
        }
        proof {
            assert(templates.deep_view().skip(n as int).len() == 0);
        }
        None
    }

    /// The content behind `source`, or the failure the source reports.
    fn source_content(&self, source: &TemplateSource) -> (r: Result<
        &Vec<ResolvedTemplate>,
        GeneratorError,
    >)
        ensures
            (match r {
                Ok(v) => self.spec_source_content(source@) == Ok::<
                    Seq<ResolvedTemplateV>,
                    ErrorKind,
                >(v.deep_view()),
                Err(e) => self.spec_source_content(source@) == Err::<
                    Seq<ResolvedTemplateV>,
                    ErrorKind,
                >(e.kind()),
            }),
    {
        match source {
            TemplateSource::Local { path } => match self.find_root(path.as_str()) {
                Some(root) => Ok(&root.templates),
                None => Err(
                    GeneratorError::SourceUnavailable(
                        concat2("local template directory not found: ", path.as_str()),
                    ),
                ),
            },
            TemplateSource::Http { url, checksum, auth: _ } => {
                match self.find_package(url.as_str()) {
                    Some(pkg) => match checksum {
                        Some(expected) => {
                            if str_eq(expected.as_str(), pkg.checksum.as_str()) {
                                Ok(&pkg.templates)
                            } else {
                                Err(
                                    GeneratorError::IntegrityError(
                                        concat2("checksum mismatch for archive: ", url.as_str()),
                                    ),
                                )
                            }
                        },
                        None => Ok(&pkg.templates),
                    },
                    None => Err(
                        GeneratorError::SourceUnavailable(
                            concat2("archive not found: ", url.as_str()),
                        ),
                    ),
                }
            },
            TemplateSource::Git { url, branch: _, subfolder: _, auth: _ } => Err(
                GeneratorError::SourceUnavailable(
                    concat2("git transport not available for: ", url.as_str()),
                ),
            ),
            TemplateSource::Npm { package, version: _, registry: _ } => Err(
                GeneratorError::SourceUnavailable(
                    concat2("package registry transport not available for: ", package.as_str()),
                ),
            ),
        }
    }
}

impl SourceAdapter for InMemoryAdapter {
    open spec fn spec_fetch(
        &self,
        source: TemplateSourceV,
        project_type: Seq<char>,
        name: Seq<char>,
    ) -> Result<ResolvedTemplateV, ErrorKind> {
        match self.spec_source_content(source) {
            Ok(templates) => match spec_find_template(templates, project_type, name) {
                Some(t) => Ok(t),
                None => Err(ErrorKind::TemplateNotFound),
            },
            Err(k) => Err(k),
        }
    }

    open spec fn spec_list(&self, source: TemplateSourceV) -> Result<
        Seq<TemplateMetadataV>,
        ErrorKind,
    > {
        match self.spec_source_content(source) {
            Ok(templates) => Ok(spec_metadata_of(templates)),
            Err(k) => Err(k),
        }
    }

    fn fetch_one(&mut self, source: &TemplateSource, project_type: &str, name: &str) -> (r: Result<
        ResolvedTemplate,
        GeneratorError,
    >) {
        self.fetch_calls = if self.fetch_calls < u64::MAX {
            self.fetch_calls + 1
        } else {
            self.fetch_calls
        };
        let content = match self.source_content(source) {
            Ok(v) => v,
            Err(e) => {
                return Err(e);
            },
        };
        match Self::find_template(content, project_type, name) {
            Some(t) => Ok(t.clone()),
            None => Err(
                GeneratorError::TemplateNotFound(
                    crate::text::concat3(project_type, ":", name),
                ),
            ),
        }
    }

    fn fetch_list(&mut self, source: &TemplateSource) -> (r: Result<
        Vec<TemplateMetadata>,
        GeneratorError,
    >) {
        self.list_calls = if self.list_calls < u64::MAX {
            self.list_calls + 1
        } else {
            self.list_calls
        };
        let content = match self.source_content(source) {
            Ok(v) => v,
            Err(e) => {
                return Err(e);
            },
        };
        let mut out: Vec<TemplateMetadata> = Vec::new();
        let mut i: usize = 0;
        while i < content.len()
            invariant
                i <= content.len(),
                out.len() == i,
                forall|k: int|
                    0 <= k < i ==> (#[trigger] out.deep_view()[k]) == content.deep_view()[k].metadata,
            decreases content.len() - i,
        {
            let ghost prev = out.deep_view();
            out.push(content[i].metadata.clone());
            proof {
                assert forall|k: int| 0 <= k < i + 1 implies (#[trigger] out.deep_view()[k])
                    == content.deep_view()[k].metadata by {
                    assert(out.deep_view()[k] == out@[k].deep_view());
                    assert(content.deep_view()[k] == content@[k]@);
                    if k < i {
                        assert(prev[k] == out@[k].deep_view());
                        assert(prev[k] == content.deep_view()[k].metadata);
                    }
                }
            }
            i = i + 1;
        }
        proof {
            assert(out.deep_view() =~= spec_metadata_of(content.deep_view()));
        }
        Ok(out)
    }
}

} // verus!
