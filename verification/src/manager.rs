//! The template manager: orchestrates the registry, the cache store and
//! the source adapter to list templates and to resolve one template to a
//! filesystem location plus metadata.
//!
//! Resolution is first-match-wins: enabled entries are tried in
//! ascending priority order, sequentially; a recoverable source failure
//! moves on to the next entry, any other failure aborts the pass.

use vstd::prelude::*;
use crate::adapter::{ResolvedTemplate, ResolvedTemplateV, SourceAdapter};
use crate::cache::{spec_expired, CacheStore, CachedTemplate, CachedTemplateV};
use crate::error::{spec_recoverable, ErrorKind, GeneratorError};
use crate::metadata::{TemplateMetadata, TemplateMetadataV};
use crate::registry::{
    spec_sort_by_priority, sorted_by_priority, TemplateRegistryConfig, TemplateRegistryV,
    TemplateSourceV,
};
use crate::text::{concat3, str_eq};

verus! {

/// One consultation of a registry entry during a resolution or listing
/// pass, recorded in the order the entries were tried.
#[derive(Debug)]
pub struct Attempt {
    /// Name of the registry entry that was consulted.
    pub registry_name: String,
    /// Whether the source produced a result.
    pub succeeded: bool,
}

/// Mathematical model of an [`Attempt`].
pub struct AttemptV {
    pub registry_name: Seq<char>,
    pub succeeded: bool,
}

impl View for Attempt {
    type V = AttemptV;

    open spec fn view(&self) -> AttemptV {
        AttemptV { registry_name: self.registry_name@, succeeded: self.succeeded }
    }
}

impl DeepView for Attempt {
    type V = AttemptV;

    open spec fn deep_view(&self) -> AttemptV {
        self.view()
    }
}

/// The composite cache key of a resolution request.
pub open spec fn spec_cache_key(project_type: Seq<char>, name: Seq<char>) -> Seq<char> {
    project_type + ":"@ + name
}

/// Builds the composite `type:name` cache key.
fn cache_key(project_type: &str, template_name: &str) -> (r: String)
    ensures
        r@ == spec_cache_key(project_type@, template_name@),
{
    concat3(project_type, ":", template_name)
}

/// The resolved template a cache entry stands for.
pub open spec fn spec_cached_resolved(c: CachedTemplateV) -> ResolvedTemplateV {
    ResolvedTemplateV { path: c.path, metadata: c.metadata }
}

/// What trying the entries in order yields: the first enabled entry
/// whose fetch succeeds wins; a recoverable failure moves on to the next
/// entry; any other failure aborts; exhausting the entries reports that
/// the template was not found.
pub open spec fn spec_try_entries<A: SourceAdapter>(
    a: A,
    entries: Seq<TemplateRegistryV>,
    project_type: Seq<char>,
    name: Seq<char>,
) -> Result<ResolvedTemplateV, ErrorKind>
    decreases entries.len(),
{
    if entries.len() == 0 {
        Err(ErrorKind::TemplateNotFound)
    } else if !entries[0].enabled {
        spec_try_entries(a, entries.skip(1), project_type, name)
    } else {
        match a.spec_fetch(entries[0].source, project_type, name) {
            Ok(rv) => Ok(rv),
            Err(k) => if spec_recoverable(k) {
                spec_try_entries(a, entries.skip(1), project_type, name)
            } else {
                Err(k)
            },
        }
    }
}

/// The consultations a resolution pass records, in order: one per
/// enabled entry tried, ending with the first success or with the first
/// unrecoverable failure.
pub open spec fn spec_attempts<A: SourceAdapter>(
    a: A,
    entries: Seq<TemplateRegistryV>,
    project_type: Seq<char>,
    name: Seq<char>,
) -> Seq<AttemptV>
    decreases entries.len(),
{
    if entries.len() == 0 {
        Seq::empty()
    } else if !entries[0].enabled {
        spec_attempts(a, entries.skip(1), project_type, name)
    } else {
        match a.spec_fetch(entries[0].source, project_type, name) {
            Ok(_) => seq![AttemptV { registry_name: entries[0].name, succeeded: true }],
            Err(k) => if spec_recoverable(k) {
                seq![AttemptV { registry_name: entries[0].name, succeeded: false }]
                    + spec_attempts(a, entries.skip(1), project_type, name)
            } else {
                seq![AttemptV { registry_name: entries[0].name, succeeded: false }]
            },
        }
    }
}

/// Whether a metadata record passes the optional project-type filter.
pub open spec fn spec_type_matches(m: TemplateMetadataV, pt: Option<Seq<char>>) -> bool {
    match pt {
        Some(p) => m.project_type == p,
        None => true,
    }
}

/// The records of `l` that pass the filter, keeping their order.
pub open spec fn spec_filter_type(
    l: Seq<TemplateMetadataV>,
    pt: Option<Seq<char>>,
) -> Seq<TemplateMetadataV>
    decreases l.len(),
{
    if l.len() == 0 {
        Seq::empty()
    } else if spec_type_matches(l[0], pt) {
        seq![l[0]] + spec_filter_type(l.skip(1), pt)
    } else {
        spec_filter_type(l.skip(1), pt)
    }
}

/// What listing yields: the concatenation, over enabled entries in
/// order, of each reachable source's filtered records. A failing source
/// contributes nothing and aborts nothing.
pub open spec fn spec_listing<A: SourceAdapter>(
    a: A,
    entries: Seq<TemplateRegistryV>,
    pt: Option<Seq<char>>,
) -> Seq<TemplateMetadataV>
    decreases entries.len(),
{
    if entries.len() == 0 {
        Seq::empty()
    } else {
        let rest = spec_listing(a, entries.skip(1), pt);
        if !entries[0].enabled {
            rest
        } else {
            match a.spec_list(entries[0].source) {
                Ok(l) => spec_filter_type(l, pt) + rest,
                Err(_) => rest,
            }
        }
    }
}

/// The consultations a listing pass records: one per enabled entry.
pub open spec fn spec_list_attempts<A: SourceAdapter>(
    a: A,
    entries: Seq<TemplateRegistryV>,
) -> Seq<AttemptV>
    decreases entries.len(),
{
    if entries.len() == 0 {
        Seq::empty()
    } else {
        let rest = spec_list_attempts(a, entries.skip(1));
        if !entries[0].enabled {
            rest
        } else {
            seq![
                AttemptV {
                    registry_name: entries[0].name,
                    succeeded: a.spec_list(entries[0].source) is Ok,
                },
            ] + rest
        }
    }
}

/// Orchestrates registry, cache store and source adapter.
pub struct TemplateManager<A: SourceAdapter> {
    pub config: TemplateRegistryConfig,
    pub cache: CacheStore,
    pub adapter: A,
    /// The consultations of the most recent resolution or listing pass.
    pub attempts: Vec<Attempt>,
}

impl<A: SourceAdapter> TemplateManager<A> {
    /// The manager's invariant: the cache store is well-formed.
    pub open spec fn wf(&self) -> bool {
        self.cache.wf()
    }

    /// The registry entries in the order a pass tries them.
    pub open spec fn spec_entries_ordered(&self) -> Seq<TemplateRegistryV> {
        spec_sort_by_priority(self.config.registries.deep_view())
    }

    /// Whether the cache holds a non-stale entry for `key` at `now`.
    pub open spec fn spec_cache_fresh(&self, key: Seq<char>, now: u64) -> bool {
        self.cache@.contains_key(key) && !spec_expired(
            self.cache@[key].cached_at,
            self.config.cache_ttl,
            now,
        )
    }

    /// What resolving yields: the fresh cache entry if one exists,
    /// otherwise the outcome of trying the entries in priority order.
    pub open spec fn spec_outcome(
        &self,
        project_type: Seq<char>,
        name: Seq<char>,
        now: u64,
    ) -> Result<ResolvedTemplateV, ErrorKind> {
        if self.spec_cache_fresh(spec_cache_key(project_type, name), now) {
            Ok(spec_cached_resolved(self.cache@[spec_cache_key(project_type, name)]))
        } else {
            spec_try_entries(self.adapter, self.spec_entries_ordered(), project_type, name)
        }
    }

    /// A manager over `config` with an empty cache.
    pub fn new(config: TemplateRegistryConfig, adapter: A) -> (r: Self)
        ensures
            r.wf(),
            r.config == config,
            r.adapter == adapter,
            r.cache@ == Map::<Seq<char>, CachedTemplateV>::empty(),
            r.attempts@.len() == 0,
    {
        TemplateManager { config, cache: CacheStore::new(), adapter, attempts: Vec::new() }
    }

    /// Whether a cache entry is stale at `now_secs` under the configured
    /// time-to-live.
    pub fn is_cache_expired(&self, cached: &CachedTemplate, now_secs: u64) -> (r: bool)
        ensures
            r == spec_expired(cached.cached_at, self.config.cache_ttl, now_secs),
    {
        now_secs < cached.cached_at || now_secs - cached.cached_at > self.config.cache_ttl
    }

    /// Resolves `template_name` of `project_type` to a filesystem
    /// location plus metadata, at clock reading `now` (seconds).
    ///
    /// A fresh cache entry is returned immediately, without consulting
    /// any adapter. Otherwise the enabled entries are tried in ascending
    /// priority order and the first success is cached and returned; a
    /// failed pass leaves the cache unchanged.
    pub fn resolve(&mut self, project_type: &str, template_name: &str, now: u64) -> (r: Result<
        ResolvedTemplate,
        GeneratorError,
    >)
        requires
            old(self).wf(),
        ensures
            final(self).wf(),
            final(self).config == old(self).config,
            forall|s: TemplateSourceV, t2: Seq<char>, n2: Seq<char>| #[trigger]
                final(self).adapter.spec_fetch(s, t2, n2) == old(self).adapter.spec_fetch(
                    s,
                    t2,
                    n2,
                ),
            forall|s: TemplateSourceV| #[trigger]
                final(self).adapter.spec_list(s) == old(self).adapter.spec_list(s),
            (match old(self).spec_outcome(project_type@, template_name@, now) {
                Ok(rv) => r matches Ok(v) && v@ == rv,
                Err(k) => r matches Err(e) && e.kind() == k && (k == ErrorKind::TemplateNotFound
                    ==> e.spec_message() == spec_cache_key(project_type@, template_name@)),
            }),
            ({
                let key = spec_cache_key(project_type@, template_name@);
                if old(self).spec_cache_fresh(key, now) {
                    &&& final(self).cache@ == old(self).cache@
                    &&& final(self).adapter == old(self).adapter
                    &&& final(self).attempts@.len() == 0
                } else {
                    &&& (match spec_try_entries(
                        old(self).adapter,
                        old(self).spec_entries_ordered(),
                        project_type@,
                        template_name@,
                    ) {
                        Ok(rv) => final(self).cache@ == old(self).cache@.insert(
                            key,
                            CachedTemplateV {
                                metadata: rv.metadata,
                                path: rv.path,
                                cached_at: now,
                            },
                        ),
                        Err(_) => final(self).cache@ == old(self).cache@,
                    })
                    &&& final(self).attempts.deep_view() == spec_attempts(
                        old(self).adapter,
                        old(self).spec_entries_ordered(),
                        project_type@,
                        template_name@,
                    )
                }
            }),
    {
        self.attempts = Vec::new();
        let key = cache_key(project_type, template_name);
        let cached_hit = match self.cache.get(key.as_str(), self.config.cache_ttl, now) {
            Some(c) => Some(
                ResolvedTemplate { path: c.path.clone(), metadata: c.metadata.clone() },
            ),
            None => None,
        };
        if let Some(v) = cached_hit {
            return Ok(v);
        }
        proof {
            assert(!old(self).spec_cache_fresh(key@, now));
        }
        let ordered = sorted_by_priority(&self.config.registries);
        let ghost entries = self.spec_entries_ordered();
        let n = ordered.len();
        let mut i: usize = 0;
        proof {
            assert(entries.skip(0) =~= entries);
        }
        while i < n
            invariant
                self.wf(),
                self.config == old(self).config,
                self.cache == old(self).cache,
                n == ordered.len(),
                i <= n,
                ordered.deep_view() == entries,
                entries == old(self).spec_entries_ordered(),
                key@ == spec_cache_key(project_type@, template_name@),
                !old(self).spec_cache_fresh(key@, now),
                forall|s: TemplateSourceV, t2: Seq<char>, n2: Seq<char>| #[trigger]
                    self.adapter.spec_fetch(s, t2, n2) == old(self).adapter.spec_fetch(s, t2, n2),
                forall|s: TemplateSourceV| #[trigger]
                    self.adapter.spec_list(s) == old(self).adapter.spec_list(s),
                spec_try_entries(old(self).adapter, entries, project_type@, template_name@)
                    == spec_try_entries(
                    old(self).adapter,
                    entries.skip(i as int),
                    project_type@,
                    template_name@,
                ),
                spec_attempts(old(self).adapter, entries, project_type@, template_name@)
                    == self.attempts.deep_view() + spec_attempts(
                    old(self).adapter,
                    entries.skip(i as int),
                    project_type@,
                    template_name@,
                ),
            decreases n - i,
        {
            proof {
                assert(entries.skip(i as int)[0] == ordered@[i as int]@);
                assert(entries.skip(i as int).skip(1) =~= entries.skip(i + 1));
            }
            let entry = &ordered[i];
            if entry.enabled {
                let fetched = self.adapter.fetch_one(&entry.source, project_type, template_name);
                match fetched {
                    Ok(rt) => {
                        let att = Attempt { registry_name: entry.name.clone(), succeeded: true };
                        let ghost gatt = att;
                        let ghost prev_att = self.attempts;
                        self.attempts.push(att);
                        proof {
                            crate::text::lemma_push_deep_view(prev_att, self.attempts, gatt);
                            assert(self.attempts.deep_view() =~= prev_att.deep_view() + seq![
                                AttemptV { registry_name: entry.name@, succeeded: true },
                            ]);
                        }
                        let cached = CachedTemplate {
                            metadata: rt.metadata.clone(),
                            path: rt.path.clone(),
                            cached_at: now,
                        };
                        self.cache.put(key, cached);
                        return Ok(rt);
                    },
                    Err(e) => {
                        let att = Attempt { registry_name: entry.name.clone(), succeeded: false };
                        let ghost gatt = att;
                        let ghost prev_att = self.attempts;
                        self.attempts.push(att);
                        proof {
                            crate::text::lemma_push_deep_view(prev_att, self.attempts, gatt);
                        }
                        if !crate::error::is_recoverable(&e) {
                            proof {
                                assert(self.attempts.deep_view() =~= prev_att.deep_view() + seq![
                                    AttemptV { registry_name: entry.name@, succeeded: false },
                                ]);
                            }
                            return Err(e);
                        }
                        proof {
                            assert(self.attempts.deep_view() + spec_attempts(
                                old(self).adapter,
                                entries.skip(i + 1),
                                project_type@,
                                template_name@,
                            ) =~= prev_att.deep_view() + (seq![
                                AttemptV { registry_name: entry.name@, succeeded: false },
                            ] + spec_attempts(
                                old(self).adapter,
                                entries.skip(i + 1),
                                project_type@,
                                template_name@,
                            )));
                        }
                    },
                }
            }
            i = i + 1;
        }
        proof {
            assert(entries.skip(n as int).len() == 0);
        }
        Err(GeneratorError::TemplateNotFound(key))
    }

    /// Resolves a template and returns its filesystem location alone.
    pub fn get_template(&mut self, project_type: &str, template_name: &str, now: u64) -> (r: Result<
        String,
        GeneratorError,
    >)
        requires
            old(self).wf(),
        ensures
            final(self).wf(),
            final(self).config == old(self).config,
            (match old(self).spec_outcome(project_type@, template_name@, now) {
                Ok(rv) => r matches Ok(p) && p@ == rv.path,
                Err(k) => r matches Err(e) && e.kind() == k && (k == ErrorKind::TemplateNotFound
                    ==> e.spec_message() == spec_cache_key(project_type@, template_name@)),
            }),
            ({
                let key = spec_cache_key(project_type@, template_name@);
                if old(self).spec_cache_fresh(key, now) {
                    final(self).cache@ == old(self).cache@
                } else {
                    match spec_try_entries(
                        old(self).adapter,
                        old(self).spec_entries_ordered(),
                        project_type@,
                        template_name@,
                    ) {
                        Ok(rv) => final(self).cache@ == old(self).cache@.insert(
                            key,
                            CachedTemplateV {
                                metadata: rv.metadata,
                                path: rv.path,
                                cached_at: now,
                            },
                        ),
                        Err(_) => final(self).cache@ == old(self).cache@,
                    }
                }
            }),
    {
        match self.resolve(project_type, template_name, now) {
            Ok(rt) => Ok(rt.path),
            Err(e) => Err(e),
        }
    }

    /// Lists the templates every reachable enabled source offers, in
    /// ascending priority order, optionally filtered by project type.
    ///
    /// A failing source is skipped and recorded as a failed attempt;
    /// partial results are success, not failure.
    pub fn list_templates(&mut self, project_type: Option<&str>) -> (r: Result<
        Vec<TemplateMetadata>,
        GeneratorError,
    >)
        requires
            old(self).wf(),
        ensures
            final(self).wf(),
            final(self).config == old(self).config,
            final(self).cache == old(self).cache,
            forall|s: TemplateSourceV, t2: Seq<char>, n2: Seq<char>| #[trigger]
                final(self).adapter.spec_fetch(s, t2, n2) == old(self).adapter.spec_fetch(
                    s,
                    t2,
                    n2,
                ),
            forall|s: TemplateSourceV| #[trigger]
                final(self).adapter.spec_list(s) == old(self).adapter.spec_list(s),
            r matches Ok(v) && v.deep_view() == spec_listing(
                old(self).adapter,
                old(self).spec_entries_ordered(),
                project_type.deep_view(),
            ),
            final(self).attempts.deep_view() == spec_list_attempts(
                old(self).adapter,
                old(self).spec_entries_ordered(),
            ),
    {
        self.attempts = Vec::new();
        let ordered = sorted_by_priority(&self.config.registries);
        let ghost entries = self.spec_entries_ordered();
        let ghost pt = project_type.deep_view();
        let n = ordered.len();
        let mut out: Vec<TemplateMetadata> = Vec::new();
        let mut i: usize = 0;
        proof {
            assert(entries.skip(0) =~= entries);
            assert(out.deep_view() =~= Seq::<TemplateMetadataV>::empty());
        }
        while i < n
            invariant
                self.wf(),
                self.config == old(self).config,
                self.cache == old(self).cache,
                n == ordered.len(),
                i <= n,
                ordered.deep_view() == entries,
                entries == old(self).spec_entries_ordered(),
                pt == project_type.deep_view(),
                forall|s: TemplateSourceV, t2: Seq<char>, n2: Seq<char>| #[trigger]
                    self.adapter.spec_fetch(s, t2, n2) == old(self).adapter.spec_fetch(s, t2, n2),
                forall|s: TemplateSourceV| #[trigger]
                    self.adapter.spec_list(s) == old(self).adapter.spec_list(s),
                spec_listing(old(self).adapter, entries, pt) == out.deep_view() + spec_listing(
                    old(self).adapter,
                    entries.skip(i as int),
                    pt,
                ),
                spec_list_attempts(old(self).adapter, entries) == self.attempts.deep_view()
                    + spec_list_attempts(old(self).adapter, entries.skip(i as int)),
            decreases n - i,
        {
            proof {
                assert(entries.skip(i as int)[0] == ordered@[i as int]@);
                assert(entries.skip(i as int).skip(1) =~= entries.skip(i + 1));
            }
            let entry = &ordered[i];
            if entry.enabled {
                let fetched = self.adapter.fetch_list(&entry.source);
                match fetched {
                    Ok(list) => {
                        let att = Attempt { registry_name: entry.name.clone(), succeeded: true };
                        let ghost gatt = att;
                        let ghost prev_att = self.attempts;
                        self.attempts.push(att);
                        proof {
                            crate::text::lemma_push_deep_view(prev_att, self.attempts, gatt);
                            assert(self.attempts.deep_view() + spec_list_attempts(
                                old(self).adapter,
                                entries.skip(i + 1),
                            ) =~= prev_att.deep_view() + (seq![
                                AttemptV { registry_name: entry.name@, succeeded: true },
                            ] + spec_list_attempts(old(self).adapter, entries.skip(i + 1))));
                        }
                        let m = list.len();
                        let mut j: usize = 0;
                        proof {
                            assert(list.deep_view().skip(0) =~= list.deep_view());
                        }
                        while j < m
                            invariant
                                m == list.len(),
                                j <= m,
                                spec_listing(old(self).adapter, entries, pt) == out.deep_view()
                                    + spec_filter_type(list.deep_view().skip(j as int), pt)
                                    + spec_listing(old(self).adapter, entries.skip(i + 1), pt),
                                pt == project_type.deep_view(),
                            decreases m - j,
                        {
                            proof {
                                assert(list.deep_view().skip(j as int)[0] == list@[j as int]@);
                                assert(list.deep_view().skip(j as int).skip(1) =~= list.deep_view()
                                    .skip(j + 1));
                            }
                            let matches_filter = match project_type {
                                Some(p) => str_eq(list[j].project_type.as_str(), p),
                                None => true,
                            };
                            if matches_filter {
                                let ghost prev_out = out.deep_view();
                                out.push(list[j].clone());
                                proof {
                                    assert forall|k: int| 0 <= k < out@.len() implies (#[trigger]
                                    out.deep_view()[k]) == prev_out.push(list@[j as int]@)[k] by {
                                        assert(out.deep_view()[k] == out@[k].deep_view());
                                        if k < prev_out.len() {
                                            assert(prev_out[k] == out@[k].deep_view());
                                        }
                                    }
                                    assert(out.deep_view() =~= prev_out.push(list@[j as int]@));
                                    assert(out.deep_view() + spec_filter_type(
                                        list.deep_view().skip(j + 1),
                                        pt,
                                    ) =~= prev_out + (seq![list@[j as int]@] + spec_filter_type(
                                        list.deep_view().skip(j + 1),
                                        pt,
                                    )));
                                }
                            }
                            j = j + 1;
                        }
                        proof {
                            assert(list.deep_view().skip(m as int).len() == 0);
                        }
                    },
                    Err(_) => {
                        let att = Attempt { registry_name: entry.name.clone(), succeeded: false };
                        let ghost gatt = att;
                        let ghost prev_att = self.attempts;
                        self.attempts.push(att);
                        proof {
                            crate::text::lemma_push_deep_view(prev_att, self.attempts, gatt);
                            assert(self.attempts.deep_view() + spec_list_attempts(
                                old(self).adapter,
                                entries.skip(i + 1),
                            ) =~= prev_att.deep_view() + (seq![
                                AttemptV { registry_name: entry.name@, succeeded: false },
                            ] + spec_list_attempts(old(self).adapter, entries.skip(i + 1))));
                        }
                    },
                }
            }
            i = i + 1;
        }
        proof {
            assert(entries.skip(n as int).len() == 0);
        }
        Ok(out)
    }
}

} // verus!
