//! Registry configuration: named, prioritized bindings from a name to a
//! template source, plus cache settings.

use vstd::prelude::*;
use crate::error::GeneratorError;
use crate::text::str_eq;

verus! {

/// Credentials for a Git source.
#[derive(Debug)]
pub struct GitAuth {
    pub username: Option<String>,
    pub token: Option<String>,
}

/// Mathematical model of a [`GitAuth`].
pub struct GitAuthV {
    pub username: Option<Seq<char>>,
    pub token: Option<Seq<char>>,
}

impl View for GitAuth {
    type V = GitAuthV;

    open spec fn view(&self) -> GitAuthV {
        GitAuthV { username: self.username.deep_view(), token: self.token.deep_view() }
    }
}

impl DeepView for GitAuth {
    type V = GitAuthV;

    open spec fn deep_view(&self) -> GitAuthV {
        self.view()
    }
}

/// Credentials for an HTTP source.
#[derive(Debug)]
pub struct HttpAuth {
    pub bearer_token: Option<String>,
    pub basic_auth: Option<(String, String)>,
}

/// Mathematical model of an [`HttpAuth`].
pub struct HttpAuthV {
    pub bearer_token: Option<Seq<char>>,
    pub basic_auth: Option<(Seq<char>, Seq<char>)>,
}

impl View for HttpAuth {
    type V = HttpAuthV;

    open spec fn view(&self) -> HttpAuthV {
        HttpAuthV {
            bearer_token: self.bearer_token.deep_view(),
            basic_auth: self.basic_auth.deep_view(),
        }
    }
}

impl DeepView for HttpAuth {
    type V = HttpAuthV;

    open spec fn deep_view(&self) -> HttpAuthV {
        self.view()
    }
}

/// Where a template comes from. Exactly one variant is active per
/// instance; the variant determines which adapter handles it.
#[derive(Debug)]
pub enum TemplateSource {
    /// A directory on the local filesystem.
    Local { path: String },
    /// A Git repository, optionally a branch and a subfolder within it.
    Git { url: String, branch: Option<String>, subfolder: Option<String>, auth: Option<GitAuth> },
    /// An archive downloaded over HTTP, optionally checked against a
    /// checksum.
    Http { url: String, checksum: Option<String>, auth: Option<HttpAuth> },
    /// A package artifact resolved against a package registry.
    Npm { package: String, version: String, registry: Option<String> },
}

/// Mathematical model of a [`TemplateSource`].
pub enum TemplateSourceV {
    Local { path: Seq<char> },
    Git {
        url: Seq<char>,
        branch: Option<Seq<char>>,
        subfolder: Option<Seq<char>>,
        auth: Option<GitAuthV>,
    },
    Http { url: Seq<char>, checksum: Option<Seq<char>>, auth: Option<HttpAuthV> },
    Npm { package: Seq<char>, version: Seq<char>, registry: Option<Seq<char>> },
}

impl View for TemplateSource {
    type V = TemplateSourceV;

    open spec fn view(&self) -> TemplateSourceV {
        match self {
            TemplateSource::Local { path } => TemplateSourceV::Local { path: path@ },
            TemplateSource::Git { url, branch, subfolder, auth } => TemplateSourceV::Git {
                url: url@,
                branch: branch.deep_view(),
                subfolder: subfolder.deep_view(),
                auth: auth.deep_view(),
            },
            TemplateSource::Http { url, checksum, auth } => TemplateSourceV::Http {
                url: url@,
                checksum: checksum.deep_view(),
                auth: auth.deep_view(),
            },
            TemplateSource::Npm { package, version, registry } => TemplateSourceV::Npm {
                package: package@,
                version: version@,
                registry: registry.deep_view(),
            },
        }
    }
}

impl DeepView for TemplateSource {
    type V = TemplateSourceV;

    open spec fn deep_view(&self) -> TemplateSourceV {
        self.view()
    }
}

/// One configured, prioritized binding between a name and a template
/// source. A lower priority number is tried first.
#[derive(Debug)]
pub struct TemplateRegistry {
    pub name: String,
    pub source: TemplateSource,
    pub enabled: bool,
    pub priority: u32,
}

/// Mathematical model of a [`TemplateRegistry`].
pub struct TemplateRegistryV {
    pub name: Seq<char>,
    pub source: TemplateSourceV,
    pub enabled: bool,
    pub priority: u32,
}

impl View for TemplateRegistry {
    type V = TemplateRegistryV;

    open spec fn view(&self) -> TemplateRegistryV {
        TemplateRegistryV {
            name: self.name@,
            source: self.source@,
            enabled: self.enabled,
            priority: self.priority,
        }
    }
}

impl DeepView for TemplateRegistry {
    type V = TemplateRegistryV;

    open spec fn deep_view(&self) -> TemplateRegistryV {
        self.view()
    }
}

/// The registry configuration: an ordered list of entries plus cache
/// settings. Loaded once, read-only thereafter.
#[derive(Debug)]
pub struct TemplateRegistryConfig {
    pub registries: Vec<TemplateRegistry>,
    /// Directory where resolved templates are unpacked.
    pub cache_dir: String,
    /// Cache time-to-live in seconds.
    pub cache_ttl: u64,
}

impl TemplateRegistryConfig {
    /// Entry names are pairwise distinct.
    pub open spec fn spec_names_unique(entries: Seq<TemplateRegistryV>) -> bool {
        forall|i: int, j: int|
            0 <= i < j < entries.len() ==> (#[trigger] entries[i].name) != (
            #[trigger] entries[j].name)
    }

    /// Checks the configuration: entry names must be unique.
    ///
    /// Returns a `Configuration` error exactly when two entries share a
    /// name.
    pub fn validate(&self) -> (r: Result<(), GeneratorError>)
        ensures
            r matches Ok(()) <==> Self::spec_names_unique(self.registries.deep_view()),
            r matches Err(e) ==> e matches GeneratorError::Configuration(_),
    {
        let n = self.registries.len();
        let mut i: usize = 0;
        while i < n
            invariant
                n == self.registries.len(),
                i <= n,
                forall|p: int, q: int|
                    0 <= p < q < n && p < i ==> (#[trigger] self.registries.deep_view()[p].name)
                        != (#[trigger] self.registries.deep_view()[q].name),
            decreases n - i,
        {
            let mut j: usize = i + 1;
            while j < n
                invariant
                    n == self.registries.len(),
                    i < n,
                    i + 1 <= j <= n,
                    forall|q: int|
                        i < q < j ==> (#[trigger] self.registries.deep_view()[q].name)
                            != self.registries.deep_view()[i as int].name,
                decreases n - j,
            {
                if str_eq(self.registries[i].name.as_str(), self.registries[j].name.as_str()) {
                    proof {
                        assert(self.registries.deep_view()[i as int].name
                            == self.registries.deep_view()[j as int].name);
                    }
                    return Err(
                        GeneratorError::Configuration(
                            crate::text::concat2(
                                "duplicate registry entry name: ",
                                self.registries[i].name.as_str(),
                            ),
                        ),
                    );
                }
                j = j + 1;
            }
            i = i + 1;
        }
        Ok(())
    }
}

/// Clones an optional string, keeping its value.
fn clone_opt_string(v: &Option<String>) -> (r: Option<String>)
    ensures
        r == *v,
{
    match v {
        Some(s) => Some(s.clone()),
        None => None,
    }
}

impl Clone for GitAuth {
    /// Clones the credentials, keeping their value.
    fn clone(&self) -> (res: Self)
        ensures
            res == *self,
    {
        GitAuth {
            username: clone_opt_string(&self.username),
            token: clone_opt_string(&self.token),
        }
    }
}

impl Clone for HttpAuth {
    /// Clones the credentials, keeping their value.
    fn clone(&self) -> (res: Self)
        ensures
            res == *self,
    {
        let basic_auth = match &self.basic_auth {
            Some(p) => Some((p.0.clone(), p.1.clone())),
            None => None,
        };
        HttpAuth { bearer_token: clone_opt_string(&self.bearer_token), basic_auth }
    }
}

impl Clone for TemplateSource {
    /// Clones the source descriptor, keeping its value.
    fn clone(&self) -> (res: Self)
        ensures
            res == *self,
    {
        match self {
            TemplateSource::Local { path } => TemplateSource::Local { path: path.clone() },
            TemplateSource::Git { url, branch, subfolder, auth } => TemplateSource::Git {
                url: url.clone(),
                branch: clone_opt_string(branch),
                subfolder: clone_opt_string(subfolder),
                auth: match auth {
                    Some(a) => Some(a.clone()),
                    None => None,
                },
            },
            TemplateSource::Http { url, checksum, auth } => TemplateSource::Http {
                url: url.clone(),
                checksum: clone_opt_string(checksum),
                auth: match auth {
                    Some(a) => Some(a.clone()),
                    None => None,
                },
            },
            TemplateSource::Npm { package, version, registry } => TemplateSource::Npm {
                package: package.clone(),
                version: version.clone(),
                registry: clone_opt_string(registry),
            },
        }
    }
}

impl Clone for TemplateRegistry {
    /// Clones the entry, keeping its value.
    fn clone(&self) -> (res: Self)
        ensures
            res == *self,
    {
        TemplateRegistry {
            name: self.name.clone(),
            source: self.source.clone(),
            enabled: self.enabled,
            priority: self.priority,
        }
    }
}

/// Inserts `e` into the (priority-sorted) sequence `s`, after every
/// element whose priority is less than or equal to `e`'s. Inserting each
/// element of a sequence this way yields a stable sort.
pub open spec fn spec_insert_by_priority(
    s: Seq<TemplateRegistryV>,
    e: TemplateRegistryV,
) -> Seq<TemplateRegistryV>
    decreases s.len(),
{
    if s.len() == 0 {
        seq![e]
    } else if s.last().priority <= e.priority {
        s.push(e)
    } else {
        spec_insert_by_priority(s.drop_last(), e).push(s.last())
    }
}

/// The entries of `s` in ascending priority order; entries of equal
/// priority keep their relative order.
pub open spec fn spec_sort_by_priority(s: Seq<TemplateRegistryV>) -> Seq<TemplateRegistryV>
    decreases s.len(),
{
    if s.len() == 0 {
        Seq::empty()
    } else {
        spec_insert_by_priority(spec_sort_by_priority(s.drop_last()), s.last())
    }
}

/// Inserting at the position found by scanning from the right matches
/// the recursive insertion.
proof fn lemma_insert_at(s: Seq<TemplateRegistryV>, e: TemplateRegistryV, j: int)
    requires
        0 <= j <= s.len(),
        forall|k: int| j <= k < s.len() ==> (#[trigger] s[k]).priority > e.priority,
        j > 0 ==> s[j - 1].priority <= e.priority,
    ensures
        spec_insert_by_priority(s, e) == s.subrange(0, j) + seq![e] + s.subrange(
            j,
            s.len() as int,
        ),
    decreases s.len(),
{
    if s.len() == 0 {
        assert(s.subrange(0, 0) + seq![e] + s.subrange(0, 0) =~= seq![e]);
    } else if s.last().priority <= e.priority {
        assert(j == s.len());
        assert(s.subrange(0, j) =~= s);
        assert(s.subrange(0, j) + seq![e] + s.subrange(j, s.len() as int) =~= s.push(e));
    } else {
        assert(j < s.len());
        lemma_insert_at(s.drop_last(), e, j);
        assert(s.drop_last().subrange(0, j) =~= s.subrange(0, j));
        assert(s.subrange(0, j) + seq![e] + s.drop_last().subrange(j, s.len() - 1) + seq![s.last()]
            =~= s.subrange(0, j) + seq![e] + s.subrange(j, s.len() as int));
        assert((s.drop_last().subrange(0, j) + seq![e] + s.drop_last().subrange(
            j,
            s.len() - 1,
        )).push(s.last()) =~= s.subrange(0, j) + seq![e] + s.drop_last().subrange(j, s.len() - 1)
            + seq![s.last()]);
    }
}

/// Returns the entries in ascending priority order; entries of equal
/// priority keep their configured order.
pub fn sorted_by_priority(entries: &Vec<TemplateRegistry>) -> (r: Vec<TemplateRegistry>)
    ensures
        r.deep_view() == spec_sort_by_priority(entries.deep_view()),
{
    let mut out: Vec<TemplateRegistry> = Vec::new();
    let mut i: usize = 0;
    proof {
        assert(entries.deep_view().subrange(0, 0) =~= Seq::<TemplateRegistryV>::empty());
    }
    while i < entries.len()
        invariant
            i <= entries.len(),
            out.deep_view() == spec_sort_by_priority(entries.deep_view().subrange(0, i as int)),
        decreases entries.len() - i,
    {
        let e = entries[i].clone();
        let mut j: usize = out.len();
        while j > 0 && out[j - 1].priority > e.priority
            invariant
                j <= out.len(),
                forall|k: int|
                    j <= k < out.len() ==> (#[trigger] out.deep_view()[k]).priority > e@.priority,
            decreases j,
        {
            proof {
                assert(out.deep_view()[j - 1].priority == out@[j - 1]@.priority);
            }
            j = j - 1;
        }
        let ghost prev = out.deep_view();
        proof {
            if j > 0 {
                assert(prev[j - 1].priority == out@[j - 1]@.priority);
            }
        }
        out.insert(j, e);
        proof {
            lemma_insert_at(prev, e@, j as int);
            assert forall|k: int| 0 <= k < out@.len() implies out.deep_view()[k] == (prev.subrange(
                0,
                j as int,
            ) + seq![e@] + prev.subrange(j as int, prev.len() as int))[k] by {
                assert(out.deep_view()[k] == out@[k].deep_view());
            }
            assert(out.deep_view() =~= prev.subrange(0, j as int) + seq![e@] + prev.subrange(
                j as int,
                prev.len() as int,
            ));
            assert(entries.deep_view().subrange(0, i + 1).drop_last() =~= entries.deep_view()
                .subrange(0, i as int));
            assert(entries.deep_view().subrange(0, i + 1).last() == entries.deep_view()[i as int]);
            assert(entries.deep_view()[i as int] == entries@[i as int]@);
        }
        i = i + 1;
    }
    proof {
        assert(entries.deep_view().subrange(0, entries.len() as int) =~= entries.deep_view());
    }
    out
}

/// Mathematical model of a [`TemplateRegistryConfig`].
pub struct TemplateRegistryConfigV {
    pub registries: Seq<TemplateRegistryV>,
    pub cache_dir: Seq<char>,
    pub cache_ttl: u64,
}

impl View for TemplateRegistryConfig {
    type V = TemplateRegistryConfigV;

    open spec fn view(&self) -> TemplateRegistryConfigV {
        TemplateRegistryConfigV {
            registries: self.registries.deep_view(),
            cache_dir: self.cache_dir@,
            cache_ttl: self.cache_ttl,
        }
    }
}

impl DeepView for TemplateRegistryConfig {
    type V = TemplateRegistryConfigV;

    open spec fn deep_view(&self) -> TemplateRegistryConfigV {
        self.view()
    }
}

impl Default for TemplateRegistryConfig {
    /// The default configuration: a single enabled local entry pointing
    /// at `./templates`, priority 0, a `./.template_cache` directory and
    /// a 3600-second time-to-live.
    fn default() -> (r: Self)
        ensures
            r@.registries.len() == 1,
            r@.registries[0] == (TemplateRegistryV {
                name: "local"@,
                source: TemplateSourceV::Local { path: "./templates"@ },
                enabled: true,
                priority: 0,
            }),
            r@.cache_dir == "./.template_cache"@,
            r@.cache_ttl == 3600,
    {
        let entry = TemplateRegistry {
            name: "local".to_owned(),
            source: TemplateSource::Local { path: "./templates".to_owned() },
            enabled: true,
            priority: 0,
        };
        let mut registries: Vec<TemplateRegistry> = Vec::new();
        registries.push(entry);
        proof {
            assert(registries.deep_view() =~= seq![
                TemplateRegistryV {
                    name: "local"@,
                    source: TemplateSourceV::Local { path: "./templates"@ },
                    enabled: true,
                    priority: 0,
                },
            ]);
        }
        TemplateRegistryConfig {
            registries,
            cache_dir: "./.template_cache".to_owned(),
            cache_ttl: 3600,
        }
    }
}

} // verus!
