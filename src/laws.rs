use vstd::prelude::*;

use crate::error::PlatformError;
use crate::query::{FindKind, ParamModel};
use crate::session::{next, outcome, pending, run, start, FindAction, FindEvent, FindPhase, SessionModel};

verus! {

/// What the driver reports for a store that yields the matches `ds` in this
/// order: for each, the match and then its duplicate.
pub open spec fn match_events<D>(ds: Seq<D>) -> Seq<FindEvent<D>>
    decreases ds.len(),
{
    if ds.len() == 0 {
        Seq::empty()
    } else {
        match_events(ds.drop_last()) + seq![FindEvent::Matched, FindEvent::Duplicated(ds.last())]
    }
}

/// What the driver reports over a whole search for a store that yields the
/// matches `ds`: for an exact-name search first the encoded name's size and
/// the encoded name, then each match with its duplicate, then the end.
pub open spec fn search_events<D>(kind: FindKind, size: u32, encoded: Vec<u8>, ds: Seq<D>) -> Seq<
    FindEvent<D>,
> {
    let body = match_events(ds).push(FindEvent::Exhausted);
    if kind.spec_by_name() {
        seq![FindEvent::NameSize(size), FindEvent::NameEncoded(encoded)] + body
    } else {
        body
    }
}

/// Running two runs of events one after the other is running their
/// concatenation.
pub proof fn lemma_run_concat<D>(s: SessionModel<D>, a: Seq<FindEvent<D>>, b: Seq<FindEvent<D>>)
    ensures
        run(s, a + b) == run(run(s, a), b),
    decreases a.len(),
{
    if a.len() == 0 {
        assert(a + b =~= b);
    } else {
        assert((a + b).drop_first() =~= a.drop_first() + b);
        lemma_run_concat(next(s, a[0]), a.drop_first(), b);
    }
}

/// A search that is over stays as it is, whatever is reported after.
pub proof fn lemma_done_absorbs<D>(s: SessionModel<D>, evs: Seq<FindEvent<D>>)
    requires
        s.phase == FindPhase::Done,
    ensures
        run(s, evs) == s,
    decreases evs.len(),
{
    if evs.len() > 0 {
        lemma_done_absorbs(s, evs.drop_first());
    }
}

/// While searching, each reported match with its duplicate adds that
/// duplicate, in order, and the search goes on.
pub proof fn lemma_matches_collected<D>(s: SessionModel<D>, ds: Seq<D>)
    requires
        s.phase == FindPhase::Searching,
    ensures
        run(s, match_events(ds)) == (SessionModel { found: s.found + ds, ..s }),
    decreases ds.len(),
{
    if ds.len() == 0 {
        assert(s.found + ds =~= s.found);
        assert(run(s, match_events(ds)) == s);
    } else {
        let init = ds.drop_last();
        let pair = seq![FindEvent::Matched, FindEvent::Duplicated(ds.last())];
        lemma_matches_collected(s, init);
        lemma_run_concat(s, match_events(init), pair);
        let mid = run(s, match_events(init));
        assert(pair.drop_first().drop_first() =~= Seq::<FindEvent<D>>::empty());
        assert(pair.drop_first()[0] == pair[1]);
        assert(run(mid, pair) == run(next(mid, pair[0]), pair.drop_first()));
        assert(run(next(mid, pair[0]), pair.drop_first()) == run(
            next(next(mid, pair[0]), pair[1]),
            pair.drop_first().drop_first(),
        ));
        assert((s.found + init).push(ds.last()) =~= s.found + ds);
    }
}

/// A search that needs no name encoding asks the store at once; when the
/// store reports no match, the search ends in success with nothing found,
/// not in an error.
pub proof fn lemma_no_match_is_empty<D>(kind: FindKind, param: ParamModel)
    requires
        !kind.spec_by_name(),
    ensures
        pending(start::<D>(kind, param)) == FindAction::FindNext,
        pending(next(start::<D>(kind, param), FindEvent::Exhausted)) == FindAction::Finish,
        outcome(next(start::<D>(kind, param), FindEvent::Exhausted)) == Some(
            Ok::<Seq<D>, PlatformError>(Seq::empty()),
        ),
{
}

/// An exact-name search first asks for the size of the encoded name; when
/// that fails, the search ends with that error at once, and it never asks
/// for the name to be encoded, whatever is reported after.
pub proof fn lemma_name_sizing_failure_stops<D>(
    kind: FindKind,
    param: ParamModel,
    e: PlatformError,
    evs: Seq<FindEvent<D>>,
)
    requires
        kind.spec_by_name(),
    ensures
        pending(start::<D>(kind, param)) == FindAction::MeasureName,
        outcome(next(start::<D>(kind, param), FindEvent::Failed(e))) == Some(
            Err::<Seq<D>, PlatformError>(e),
        ),
        forall|i: int|
            0 <= i <= evs.len() ==> #[trigger] run(
                next(start::<D>(kind, param), FindEvent::Failed(e)),
                evs.take(i),
            ) == next(start::<D>(kind, param), FindEvent::Failed(e)),
        pending(next(start::<D>(kind, param), FindEvent::Failed(e))) == FindAction::Finish,
{
    let s = next(start::<D>(kind, param), FindEvent::Failed(e));
    assert forall|i: int| 0 <= i <= evs.len() implies #[trigger] run(s, evs.take(i)) == s by {
        lemma_done_absorbs(s, evs.take(i));
    }
}

/// A match is always duplicated before the search moves on: after a match
/// the search asks for its duplicate; it asks the store again only once the
/// duplicate came; and the handles found change only by that duplicate
/// being appended.
pub proof fn lemma_duplicate_before_continue<D>(s: SessionModel<D>, e: FindEvent<D>)
    ensures
        s.phase == FindPhase::Searching && e is Matched ==> pending(next(s, e))
            == FindAction::Duplicate && next(s, e).found == s.found,
        s.phase == FindPhase::Matched && pending(next(s, e)) == FindAction::FindNext ==> (e matches FindEvent::Duplicated(d) && next(s, e).found == s.found.push(d)),
        next(s, e).found != s.found ==> (s.phase == FindPhase::Matched && (e matches FindEvent::Duplicated(d) && next(s, e).found
            == s.found.push(d))),
{
}

/// A search returns exactly the duplicates of the matches that the store
/// reported, as many and in the same order: directly for the searches that
/// need no encoding, and after the two encoding phases for the exact-name
/// ones.
pub proof fn lemma_collects_every_match<D>(
    kind: FindKind,
    param: ParamModel,
    size: u32,
    encoded: Vec<u8>,
    ds: Seq<D>,
)
    ensures
        outcome(run(start::<D>(kind, param), search_events(kind, size, encoded, ds))) == Some(
            Ok::<Seq<D>, PlatformError>(ds),
        ),
{
    let s0 = start::<D>(kind, param);
    let tail = seq![FindEvent::<D>::Exhausted];
    assert(match_events(ds).push(FindEvent::Exhausted) =~= match_events(ds) + tail);
    assert(tail.drop_first() =~= Seq::<FindEvent<D>>::empty());
    if !kind.spec_by_name() {
        lemma_run_concat(s0, match_events(ds), tail);
        lemma_matches_collected(s0, ds);
        let mid = run(s0, match_events(ds));
        assert(run(mid, tail) == run(next(mid, tail[0]), tail.drop_first()));
        assert(s0.found + ds =~= ds);
    } else {
        let pre = seq![FindEvent::NameSize(size), FindEvent::NameEncoded(encoded)];
        let s1 = next(next(s0, pre[0]), pre[1]);
        assert(pre.drop_first().drop_first() =~= Seq::<FindEvent<D>>::empty());
        assert(pre.drop_first()[0] == pre[1]);
        assert(run(s0, pre) == run(next(s0, pre[0]), pre.drop_first()));
        assert(run(next(s0, pre[0]), pre.drop_first()) == run(s1, pre.drop_first().drop_first()));
        assert(run(s0, pre) == s1);
        assert(pre + (match_events(ds) + tail) =~= pre + match_events(ds).push(FindEvent::Exhausted));
        lemma_run_concat(s0, pre, match_events(ds) + tail);
        lemma_run_concat(s1, match_events(ds), tail);
        lemma_matches_collected(s1, ds);
        let mid = run(s1, match_events(ds));
        assert(run(mid, tail) == run(next(mid, tail[0]), tail.drop_first()));
        assert(s1.found + ds =~= ds);
    }
}

/// Searching twice with one query against a store that reports the same
/// matches both times gives equal results; where the store reports them in
/// another order, the two results hold the same handles.
pub proof fn lemma_search_repeatable<D>(
    kind: FindKind,
    param: ParamModel,
    size: u32,
    encoded: Vec<u8>,
    first: Seq<D>,
    second: Seq<D>,
)
    requires
        first.to_set() == second.to_set(),
    ensures
        outcome(run(start::<D>(kind, param), search_events(kind, size, encoded, first))) matches Some(Ok(r1))
            && outcome(run(start::<D>(kind, param), search_events(kind, size, encoded, second))) matches Some(Ok(r2))
            && r1.to_set() == r2.to_set(),
        first == second ==> outcome(run(start::<D>(kind, param), search_events(kind, size, encoded, first)))
            == outcome(run(start::<D>(kind, param), search_events(kind, size, encoded, second))),
{
    lemma_collects_every_match(kind, param, size, encoded, first);
    lemma_collects_every_match(kind, param, size, encoded, second);
}

} // verus!
