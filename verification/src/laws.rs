//! Laws of the resolution engine, stated and proved over the manager's
//! models: success guarantees, cache lifecycle, priority ordering,
//! treatment of disabled entries, listing filters and partial-failure
//! tolerance.

use vstd::prelude::*;
use crate::adapter::{InMemoryAdapter, InMemoryPackageV, ResolvedTemplateV, SourceAdapter};
use crate::adapter::spec_find_package;
use crate::cache::CachedTemplateV;
use crate::error::{spec_recoverable, ErrorKind};
use crate::manager::{
    spec_attempts, spec_cache_key, spec_filter_type, spec_list_attempts, spec_listing,
    spec_try_entries, spec_type_matches, AttemptV, TemplateManager,
};
use crate::metadata::TemplateMetadataV;
use crate::registry::{TemplateRegistryV, TemplateSourceV};

verus! {

/// Whether trying this entry would succeed.
pub open spec fn spec_entry_succeeds<A: SourceAdapter>(
    a: A,
    e: TemplateRegistryV,
    project_type: Seq<char>,
    name: Seq<char>,
) -> bool {
    a.spec_fetch(e.source, project_type, name) is Ok
}

/// Whether trying this entry would not abort the pass: it succeeds, or
/// fails in a way that lets the pass move on.
pub open spec fn spec_entry_tolerant<A: SourceAdapter>(
    a: A,
    e: TemplateRegistryV,
    project_type: Seq<char>,
    name: Seq<char>,
) -> bool {
    match a.spec_fetch(e.source, project_type, name) {
        Ok(_) => true,
        Err(k) => spec_recoverable(k),
    }
}

/// Trying a sequence of entries succeeds whenever some enabled entry
/// would succeed and no enabled entry aborts the pass.
proof fn lemma_try_entries_success<A: SourceAdapter>(
    a: A,
    entries: Seq<TemplateRegistryV>,
    project_type: Seq<char>,
    name: Seq<char>,
)
    requires
        exists|i: int|
            0 <= i < entries.len() && (#[trigger] entries[i]).enabled && spec_entry_succeeds(
                a,
                entries[i],
                project_type,
                name,
            ),
        forall|i: int|
            0 <= i < entries.len() && (#[trigger] entries[i]).enabled ==> spec_entry_tolerant(
                a,
                entries[i],
                project_type,
                name,
            ),
    ensures
        spec_try_entries(a, entries, project_type, name) is Ok,
    decreases entries.len(),
{
    let w = choose|i: int|
        0 <= i < entries.len() && (#[trigger] entries[i]).enabled && spec_entry_succeeds(
            a,
            entries[i],
            project_type,
            name,
        );
    if entries[0].enabled && a.spec_fetch(entries[0].source, project_type, name) is Ok {
    } else {
        assert(w != 0);
        assert(entries.skip(1)[w - 1] == entries[w]);
        assert forall|i: int|
            0 <= i < entries.skip(1).len() && (#[trigger] entries.skip(1)[i]).enabled implies
        spec_entry_tolerant(a, entries.skip(1)[i], project_type, name) by {
            assert(entries.skip(1)[i] == entries[i + 1]);
        }
        lemma_try_entries_success(a, entries.skip(1), project_type, name);
    }
}

/// A template offered by some reachable enabled source resolves.
///
/// Whenever at least one enabled entry's source yields the requested
/// template, and no enabled entry fails in a non-recoverable way (an
/// integrity or processing failure aborts the pass instead), resolution
/// succeeds. In particular a single enabled local entry whose directory
/// holds the template suffices.
pub proof fn lemma_resolution_success<A: SourceAdapter>(
    m: TemplateManager<A>,
    project_type: Seq<char>,
    name: Seq<char>,
    now: u64,
)
    requires
        exists|i: int|
            0 <= i < m.spec_entries_ordered().len() && (#[trigger] m.spec_entries_ordered()[i]).enabled
                && spec_entry_succeeds(m.adapter, m.spec_entries_ordered()[i], project_type, name),
        forall|i: int|
            0 <= i < m.spec_entries_ordered().len() && (#[trigger] m.spec_entries_ordered()[i]).enabled
                ==> spec_entry_tolerant(m.adapter, m.spec_entries_ordered()[i], project_type, name),
    ensures
        m.spec_outcome(project_type, name, now) is Ok,
{
    if !m.spec_cache_fresh(spec_cache_key(project_type, name), now) {
        lemma_try_entries_success(m.adapter, m.spec_entries_ordered(), project_type, name);
    }
}

/// Cache idempotence: after a resolution pass succeeds with `rv` at
/// `now1` and caches it, a second resolution within the time-to-live
/// window is a fresh cache hit and returns the identical result — and by
/// `resolve`'s contract, a fresh hit leaves the adapter untouched and
/// records no attempts, so no adapter is consulted a second time.
pub proof fn lemma_cache_idempotent<A: SourceAdapter>(
    m0: TemplateManager<A>,
    m1: TemplateManager<A>,
    project_type: Seq<char>,
    name: Seq<char>,
    now1: u64,
    now2: u64,
    rv: ResolvedTemplateV,
)
    requires
        !m0.spec_cache_fresh(spec_cache_key(project_type, name), now1),
        spec_try_entries(m0.adapter, m0.spec_entries_ordered(), project_type, name) == Ok::<
            ResolvedTemplateV,
            ErrorKind,
        >(rv),
        m1.cache@ == m0.cache@.insert(
            spec_cache_key(project_type, name),
            CachedTemplateV { metadata: rv.metadata, path: rv.path, cached_at: now1 },
        ),
        m1.config == m0.config,
        now1 <= now2,
        now2 - now1 <= m0.config.cache_ttl,
    ensures
        m1.spec_cache_fresh(spec_cache_key(project_type, name), now2),
        m1.spec_outcome(project_type, name, now2) == Ok::<ResolvedTemplateV, ErrorKind>(rv),
{
    let key = spec_cache_key(project_type, name);
    assert(m1.cache@.contains_key(key));
    assert(m1.cache@[key].cached_at == now1);
}

/// Cache expiry: once the clock has advanced past `cached_at` plus the
/// time-to-live, the cached entry no longer answers the request and the
/// next resolution consults the adapters again.
pub proof fn lemma_cache_expiry<A: SourceAdapter>(
    m: TemplateManager<A>,
    project_type: Seq<char>,
    name: Seq<char>,
    now: u64,
)
    requires
        m.cache@.contains_key(spec_cache_key(project_type, name)) ==> now > m.cache@[spec_cache_key(
            project_type,
            name,
        )].cached_at + m.config.cache_ttl,
    ensures
        !m.spec_cache_fresh(spec_cache_key(project_type, name), now),
        m.spec_outcome(project_type, name, now) == spec_try_entries(
            m.adapter,
            m.spec_entries_ordered(),
            project_type,
            name,
        ),
{
}

/// Priority ordering: with exactly two enabled entries — `wins`
/// (succeeding) listed first in the configuration but carrying the
/// larger priority number, and `fails` (failing recoverably) carrying
/// the smaller one — resolution reorders them, returns `wins`'s result,
/// and records exactly one failed attempt preceding one successful
/// attempt.
pub proof fn lemma_priority_order<A: SourceAdapter>(
    m: TemplateManager<A>,
    wins: TemplateRegistryV,
    fails: TemplateRegistryV,
    project_type: Seq<char>,
    name: Seq<char>,
    now: u64,
    rv: ResolvedTemplateV,
    k: ErrorKind,
)
    requires
        m.config.registries.deep_view() == seq![wins, fails],
        fails.priority < wins.priority,
        fails.enabled,
        wins.enabled,
        m.adapter.spec_fetch(fails.source, project_type, name) == Err::<ResolvedTemplateV,
            ErrorKind,
        >(k),
        spec_recoverable(k),
        m.adapter.spec_fetch(wins.source, project_type, name) == Ok::<ResolvedTemplateV,
            ErrorKind,
        >(rv),
        !m.spec_cache_fresh(spec_cache_key(project_type, name), now),
    ensures
        m.spec_entries_ordered() == seq![fails, wins],
        m.spec_outcome(project_type, name, now) == Ok::<ResolvedTemplateV, ErrorKind>(rv),
        spec_attempts(m.adapter, m.spec_entries_ordered(), project_type, name) == seq![
            AttemptV { registry_name: fails.name, succeeded: false },
            AttemptV { registry_name: wins.name, succeeded: true },
        ],
{
    reveal_with_fuel(crate::registry::spec_sort_by_priority, 3);
    reveal_with_fuel(crate::registry::spec_insert_by_priority, 3);
    reveal_with_fuel(spec_try_entries, 4);
    reveal_with_fuel(spec_attempts, 4);
    let s = seq![wins, fails];
    assert(s.drop_last() =~= seq![wins]);
    assert(seq![wins].drop_last() =~= Seq::<TemplateRegistryV>::empty());
    assert(crate::registry::spec_sort_by_priority(seq![wins]) =~= seq![wins]);
    assert(crate::registry::spec_insert_by_priority(seq![wins], fails) =~= seq![fails].push(wins));
    assert(m.spec_entries_ordered() =~= seq![fails, wins]);
    let ordered = seq![fails, wins];
    assert(ordered.skip(1) =~= seq![wins]);
    assert(seq![wins].skip(1) =~= Seq::<TemplateRegistryV>::empty());
    assert(spec_try_entries(m.adapter, ordered, project_type, name) == Ok::<ResolvedTemplateV,
        ErrorKind,
    >(rv));
    assert(spec_attempts(m.adapter, ordered, project_type, name) =~= seq![
        AttemptV { registry_name: fails.name, succeeded: false },
        AttemptV { registry_name: wins.name, succeeded: true },
    ]);
}

/// Entries stand in ascending priority order.
pub open spec fn spec_sorted_by_priority(s: Seq<TemplateRegistryV>) -> bool {
    forall|i: int, j: int|
        0 <= i < j < s.len() ==> (#[trigger] s[i]).priority <= (#[trigger] s[j]).priority
}

/// Inserting by priority keeps the order and adds exactly the new entry.
proof fn lemma_insert_by_priority_ensures(s: Seq<TemplateRegistryV>, e: TemplateRegistryV)
    requires
        spec_sorted_by_priority(s),
    ensures
        spec_sorted_by_priority(crate::registry::spec_insert_by_priority(s, e)),
        crate::registry::spec_insert_by_priority(s, e).to_multiset() == s.to_multiset().insert(e),
    decreases s.len(),
{
    broadcast use vstd::seq_lib::group_to_multiset_ensures;

    let r = crate::registry::spec_insert_by_priority(s, e);
    if s.len() == 0 {
        assert(r =~= Seq::<TemplateRegistryV>::empty().push(e));
        assert(s.to_multiset().len() == 0);
        assert(r.to_multiset() =~= s.to_multiset().insert(e));
    } else if s.last().priority <= e.priority {
        assert(r == s.push(e));
        assert forall|i: int, j: int| 0 <= i < j < r.len() implies (#[trigger] r[i]).priority <= (
        #[trigger] r[j]).priority by {
            if j == s.len() {
                if i < s.len() - 1 {
                    assert(s[i].priority <= s[s.len() - 1].priority);
                }
            }
        }
    } else {
        assert forall|i: int, j: int| 0 <= i < j < s.drop_last().len() implies (
        #[trigger] s.drop_last()[i]).priority <= (#[trigger] s.drop_last()[j]).priority by {
            assert(s[i].priority <= s[j].priority);
        }
        lemma_insert_by_priority_ensures(s.drop_last(), e);
        let r0 = crate::registry::spec_insert_by_priority(s.drop_last(), e);
        assert(r == r0.push(s.last()));
        assert forall|i: int, j: int| 0 <= i < j < r.len() implies (#[trigger] r[i]).priority <= (
        #[trigger] r[j]).priority by {
            if j == r0.len() {
                assert(r0.to_multiset().count(r0[i]) > 0);
                if r0[i] != e {
                    assert(s.drop_last().to_multiset().count(r0[i]) > 0);
                    assert(s.drop_last().contains(r0[i]));
                    let m = choose|m: int|
                        0 <= m < s.drop_last().len() && s.drop_last()[m] == r0[i];
                    assert(s[m].priority <= s[s.len() - 1].priority);
                }
            }
        }
        assert(s =~= s.drop_last().push(s.last()));
        assert(s.to_multiset() == s.drop_last().to_multiset().insert(s.last()));
        assert(r.to_multiset() =~= s.to_multiset().insert(e));
    }
}

/// The priority ordering of the entries is exactly that: the same
/// entries (as a multiset), in ascending priority order. Entries of
/// equal priority keep their configured order by construction of the
/// insertion.
pub proof fn lemma_sort_by_priority_ensures(s: Seq<TemplateRegistryV>)
    ensures
        spec_sorted_by_priority(crate::registry::spec_sort_by_priority(s)),
        crate::registry::spec_sort_by_priority(s).to_multiset() == s.to_multiset(),
    decreases s.len(),
{
    broadcast use vstd::seq_lib::group_to_multiset_ensures;

    if s.len() == 0 {
    } else {
        lemma_sort_by_priority_ensures(s.drop_last());
        lemma_insert_by_priority_ensures(
            crate::registry::spec_sort_by_priority(s.drop_last()),
            s.last(),
        );
        assert(s =~= s.drop_last().push(s.last()));
        assert(s.to_multiset() == s.drop_last().to_multiset().insert(s.last()));
    }
}

/// The enabled entries of a sequence, in order.
pub open spec fn spec_enabled_only(entries: Seq<TemplateRegistryV>) -> Seq<TemplateRegistryV>
    decreases entries.len(),
{
    if entries.len() == 0 {
        Seq::empty()
    } else if entries[0].enabled {
        seq![entries[0]] + spec_enabled_only(entries.skip(1))
    } else {
        spec_enabled_only(entries.skip(1))
    }
}

/// Disabled entries are never consulted: a resolution pass behaves, in
/// its outcome and in the attempts it records, exactly as it would over
/// the enabled entries alone.
pub proof fn lemma_disabled_ignored<A: SourceAdapter>(
    a: A,
    entries: Seq<TemplateRegistryV>,
    project_type: Seq<char>,
    name: Seq<char>,
)
    ensures
        spec_try_entries(a, entries, project_type, name) == spec_try_entries(
            a,
            spec_enabled_only(entries),
            project_type,
            name,
        ),
        spec_attempts(a, entries, project_type, name) == spec_attempts(
            a,
            spec_enabled_only(entries),
            project_type,
            name,
        ),
    decreases entries.len(),
{
    if entries.len() == 0 {
    } else {
        lemma_disabled_ignored(a, entries.skip(1), project_type, name);
        if entries[0].enabled {
            let eo = seq![entries[0]] + spec_enabled_only(entries.skip(1));
            assert(eo[0] == entries[0]);
            assert(eo.skip(1) =~= spec_enabled_only(entries.skip(1)));
        }
    }
}

/// The same, for listing passes: disabled entries contribute nothing to
/// the listing and appear in no attempt record.
pub proof fn lemma_disabled_ignored_listing<A: SourceAdapter>(
    a: A,
    entries: Seq<TemplateRegistryV>,
    pt: Option<Seq<char>>,
)
    ensures
        spec_listing(a, entries, pt) == spec_listing(a, spec_enabled_only(entries), pt),
        spec_list_attempts(a, entries) == spec_list_attempts(a, spec_enabled_only(entries)),
    decreases entries.len(),
{
    if entries.len() == 0 {
    } else {
        lemma_disabled_ignored_listing(a, entries.skip(1), pt);
        if entries[0].enabled {
            let eo = seq![entries[0]] + spec_enabled_only(entries.skip(1));
            assert(eo[0] == entries[0]);
            assert(eo.skip(1) =~= spec_enabled_only(entries.skip(1)));
        }
    }
}

/// A filtered listing holds exactly the records of the requested
/// project type, in their original order (it is a subsequence of the
/// source's own listing).
pub proof fn lemma_filter_type_matches(l: Seq<TemplateMetadataV>, p: Seq<char>)
    ensures
        forall|i: int|
            0 <= i < spec_filter_type(l, Some(p)).len() ==> (#[trigger] spec_filter_type(
                l,
                Some(p),
            )[i]).project_type == p,
    decreases l.len(),
{
    if l.len() == 0 {
    } else {
        lemma_filter_type_matches(l.skip(1), p);
        if spec_type_matches(l[0], Some(p)) {
            assert forall|i: int| 0 <= i < spec_filter_type(l, Some(p)).len() implies (
            #[trigger] spec_filter_type(l, Some(p))[i]).project_type == p by {
                if i > 0 {
                    assert(spec_filter_type(l, Some(p))[i] == spec_filter_type(l.skip(1), Some(p))[
                        i - 1]);
                } else {
                    assert(spec_filter_type(l, Some(p))[0] == l[0]);
                }
            }
        } else {
            assert(spec_filter_type(l, Some(p)) == spec_filter_type(l.skip(1), Some(p)));
            assert forall|i: int| 0 <= i < spec_filter_type(l, Some(p)).len() implies (
            #[trigger] spec_filter_type(l, Some(p))[i]).project_type == p by {
                assert(spec_filter_type(l, Some(p))[i] == spec_filter_type(l.skip(1), Some(p))[i]);
            }
        }
    }
}

/// Partial-failure tolerance: with one enabled entry whose source is
/// unreachable and one enabled entry whose source lists `l`, the listing
/// is exactly the filtered `l` — the failure removes nothing and aborts
/// nothing, and the attempt log shows one failure and one success.
pub proof fn lemma_listing_partial_failure<A: SourceAdapter>(
    a: A,
    bad: TemplateRegistryV,
    good: TemplateRegistryV,
    l: Seq<TemplateMetadataV>,
    k: ErrorKind,
    pt: Option<Seq<char>>,
)
    requires
        bad.enabled,
        good.enabled,
        a.spec_list(bad.source) == Err::<Seq<TemplateMetadataV>, ErrorKind>(k),
        a.spec_list(good.source) == Ok::<Seq<TemplateMetadataV>, ErrorKind>(l),
    ensures
        spec_listing(a, seq![bad, good], pt) == spec_filter_type(l, pt),
        spec_list_attempts(a, seq![bad, good]) == seq![
            AttemptV { registry_name: bad.name, succeeded: false },
            AttemptV { registry_name: good.name, succeeded: true },
        ],
{
    reveal_with_fuel(spec_listing, 4);
    reveal_with_fuel(spec_list_attempts, 4);
    let s = seq![bad, good];
    assert(s.skip(1) =~= seq![good]);
    assert(seq![good].skip(1) =~= Seq::<TemplateRegistryV>::empty());
    assert(spec_listing(a, seq![good], pt) =~= spec_filter_type(l, pt));
    assert(spec_listing(a, s, pt) =~= spec_filter_type(l, pt));
    assert(spec_list_attempts(a, s) =~= seq![
        AttemptV { registry_name: bad.name, succeeded: false },
        AttemptV { registry_name: good.name, succeeded: true },
    ]);
}

/// A checksum mismatch on an HTTP source is an integrity failure: the
/// in-memory adapter reports `IntegrityError` for an `Http` descriptor
/// whose configured checksum differs from the stored package's actual
/// one, whatever template is asked for.
pub proof fn lemma_checksum_mismatch(
    a: InMemoryAdapter,
    url: Seq<char>,
    expected: Seq<char>,
    auth: Option<crate::registry::HttpAuthV>,
    pkg: InMemoryPackageV,
    project_type: Seq<char>,
    name: Seq<char>,
)
    requires
        spec_find_package(a.packages.deep_view(), url) == Some(pkg),
        expected != pkg.checksum,
    ensures
        a.spec_fetch(
            TemplateSourceV::Http { url, checksum: Some(expected), auth },
            project_type,
            name,
        ) == Err::<ResolvedTemplateV, ErrorKind>(ErrorKind::IntegrityError),
        !spec_recoverable(ErrorKind::IntegrityError),
{
}

/// An integrity failure surfaces immediately: when trying the entries
/// aborts with `IntegrityError`, that is the resolution's outcome (and
/// by `resolve`'s contract a failed pass leaves the cache unchanged, so
/// the entry is not cached).
pub proof fn lemma_integrity_error_surfaces<A: SourceAdapter>(
    m: TemplateManager<A>,
    project_type: Seq<char>,
    name: Seq<char>,
    now: u64,
)
    requires
        !m.spec_cache_fresh(spec_cache_key(project_type, name), now),
        spec_try_entries(m.adapter, m.spec_entries_ordered(), project_type, name) == Err::<
            ResolvedTemplateV,
            ErrorKind,
        >(ErrorKind::IntegrityError),
    ensures
        m.spec_outcome(project_type, name, now) == Err::<ResolvedTemplateV, ErrorKind>(
            ErrorKind::IntegrityError,
        ),
{
}

} // verus!
