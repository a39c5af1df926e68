//! The engine's session-level guarantees, stated and proved once over the
//! ghost transcripts that the driver and the iterators maintain.
//!
//! Each law quantifies over every transcript a session can produce, so it
//! holds of every fetcher, every page type and every continuation type.

use vstd::prelude::*;

use crate::error::Error;
use crate::iter::{as_ok_events, extraction_events, item_events, ItemIterator};
use crate::pager::{call_args, emissions, state_after, transcript_wf, Page, PageStream, PagerResult};

verus! {

/// The total number of items across a sequence of extracted pages.
pub open spec fn total_item_count<T>(extracted: Seq<Seq<T>>) -> nat
    decreases extracted.len(),
{
    if extracted.len() == 0 {
        0
    } else {
        total_item_count(extracted.drop_last()) + extracted.last().len()
    }
}

/// Law: the first fetch call of a session receives no continuation, and the
/// continuation passed to each later call is exactly the value returned by
/// the previous call's `More` result.
pub proof fn law_continuation_identity<P, N>(outcomes: Seq<Result<PagerResult<P, N>, Error>>)
    requires
        transcript_wf(outcomes),
    ensures
        call_args(outcomes).len() == outcomes.len(),
        outcomes.len() > 0 ==> call_args(outcomes)[0] is None,
        forall|i: int|
            0 <= i < outcomes.len() - 1 ==> (outcomes[i] matches Ok(
                PagerResult::More { next, .. },
            ) && #[trigger] call_args(outcomes)[i + 1] == Some(next)),
{
}

/// Law: a well-formed session transcript has at most one terminal outcome
/// (an error or a `Done` page), and only as its very last entry. So a
/// session whose fetches return `More` for every call before call `j`
/// (0-based) and something terminal on call `j` performs exactly `j + 1`
/// calls in total, and its driver state is exhausted, which admits no
/// further fetch.
pub proof fn law_fetch_count<P, N>(outcomes: Seq<Result<PagerResult<P, N>, Error>>, j: int)
    requires
        transcript_wf(outcomes),
        0 <= j < outcomes.len(),
        !(outcomes[j] matches Ok(PagerResult::More { .. })),
    ensures
        outcomes.len() == j + 1,
        call_args(outcomes).len() == j + 1,
        state_after(outcomes) is Done,
{
    assert(outcomes[j] == outcomes.last());
}

/// Law: if fetch call `j` (0-based) returns an error, the session performs
/// exactly `j + 1` calls, the error is emitted exactly once, as the last
/// page-level element, and every element before it is a page, in call
/// order.
pub proof fn law_error_terminates<P, N>(
    outcomes: Seq<Result<PagerResult<P, N>, Error>>,
    j: int,
    e: Error,
)
    requires
        transcript_wf(outcomes),
        0 <= j < outcomes.len(),
        outcomes[j] == Err::<PagerResult<P, N>, Error>(e),
    ensures
        outcomes.len() == j + 1,
        call_args(outcomes).len() == j + 1,
        state_after(outcomes) is Done,
        emissions(outcomes).len() == j + 1,
        emissions(outcomes)[j] == Err::<P, Error>(e),
        forall|k: int| 0 <= k < j ==> (#[trigger] emissions(outcomes)[k]) matches Ok(_),
{
    law_fetch_count(outcomes, j);
    assert forall|k: int| 0 <= k < j implies (#[trigger] emissions(outcomes)[k]) matches Ok(
        _,
    ) by {
        assert(outcomes[k] matches Ok(PagerResult::More { .. }));
    }
}

/// A flattened sequence of sequences has as many elements as its parts
/// together.
proof fn lemma_flatten_len<T>(extracted: Seq<Seq<T>>)
    ensures
        extracted.flatten_alt().len() == total_item_count(extracted),
    decreases extracted.len(),
{
    if extracted.len() > 0 {
        lemma_flatten_len(extracted.drop_last());
    }
}

/// Law: when every page-level element of a session is a page and every
/// extraction succeeds, the item-level event sequence is exactly the
/// concatenation of the pages' item sequences — every item, in page order
/// and, within a page, in extraction order; in particular, the number of
/// item-level events is the sum of the page sizes.
pub proof fn law_items_in_order<R, T>(pages: Seq<Result<R, Error>>, extracted: Seq<Seq<T>>)
    requires
        pages.len() == extracted.len(),
        forall|i: int| 0 <= i < pages.len() ==> (#[trigger] pages[i]) matches Ok(_),
    ensures
        item_events(
            pages,
            extracted.map_values(|s: Seq<T>| Result::<Seq<T>, Error>::Ok(s)),
        ) == as_ok_events(extracted.flatten()),
        item_events(
            pages,
            extracted.map_values(|s: Seq<T>| Result::<Seq<T>, Error>::Ok(s)),
        ).len() == total_item_count(extracted),
    decreases pages.len(),
{
    let exts = extracted.map_values(|s: Seq<T>| Result::<Seq<T>, Error>::Ok(s));
    extracted.lemma_flatten_and_flatten_alt_are_equivalent();
    lemma_flatten_len(extracted);
    if pages.len() == 0 {
        assert(item_events(pages, exts) =~= as_ok_events(extracted.flatten()));
    } else {
        let prev_pages = pages.drop_last();
        let prev_extracted = extracted.drop_last();
        law_items_in_order(prev_pages, prev_extracted);
        prev_extracted.lemma_flatten_and_flatten_alt_are_equivalent();
        assert(exts.drop_last() =~= prev_extracted.map_values(
            |s: Seq<T>| Result::<Seq<T>, Error>::Ok(s),
        ));
        assert(exts.last() == Result::<Seq<T>, Error>::Ok(extracted.last()));
        assert(item_events(pages, exts) == item_events(
            prev_pages,
            exts.drop_last(),
        ) + extraction_events(exts.last()));
        assert(extracted.flatten_alt() == prev_extracted.flatten_alt() + extracted.last());
        assert(as_ok_events(prev_extracted.flatten()) + as_ok_events(extracted.last())
            =~= as_ok_events(extracted.flatten()));
    }
}

/// Law: when the last page-level element of a session is an error and every
/// earlier element is a page whose extraction succeeded, the item-level
/// events are exactly the earlier pages' items, in order, followed by the
/// error alone: everything fetched before the failure is still delivered,
/// and the error is surfaced exactly once, at the end.
pub proof fn law_items_before_error<R, T>(
    pages: Seq<Result<R, Error>>,
    extracted: Seq<Seq<T>>,
    e: Error,
)
    requires
        pages.len() == extracted.len() + 1,
        forall|i: int| 0 <= i < pages.len() - 1 ==> (#[trigger] pages[i]) matches Ok(_),
        pages.last() == Err::<R, Error>(e),
    ensures
        item_events(
            pages,
            extracted.map_values(|s: Seq<T>| Result::<Seq<T>, Error>::Ok(s)),
        ) == as_ok_events(extracted.flatten()).push(Err(e)),
{
    let exts = extracted.map_values(|s: Seq<T>| Result::<Seq<T>, Error>::Ok(s));
    law_items_in_order(pages.drop_last(), extracted);
    assert(item_events(pages, exts) == item_events(pages.drop_last(), exts).push(Err(e)));
}

/// Law: once an item iterator has reached its end, what it produced is the
/// whole item-event sequence of the pages it pulled and their extractions —
/// nothing was left buffered and nothing was skipped.
pub proof fn law_finished_iterator_produced_everything<S>(it: ItemIterator<S>) where
    S: PageStream,
    S::Response: Page,

    requires
        it.wf(),
        it.at_end(),
    ensures
        it.emitted_items() == item_events(it.spec_stream().emitted(), it.extractions()),
{
    assert(it.emitted_items() + it.pending_items() =~= it.emitted_items());
}

} // verus!
