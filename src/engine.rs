//! The matching engine: a `nucleo::Nucleo` over text items, seen through the
//! item stream it was fed, the pattern installed in it and its published
//! snapshot of matches.
use vstd::prelude::*;

use nucleo::pattern::{CaseMatching, Normalization};
use nucleo::{Config, Nucleo};
use std::sync::Arc;

verus! {

#[verifier::external_type_specification]
#[verifier::external_body]
#[verifier::reject_recursive_types(T)]
pub struct ExNucleo<T: Sync + Send + 'static>(Nucleo<T>);

/// The items of the current item stream, in the order they were pushed.
pub uninterp spec fn items_of(n: Nucleo<String>) -> Seq<Seq<char>>;

/// The matched items of the published snapshot, in rank order.
pub uninterp spec fn matched_of(n: Nucleo<String>) -> Seq<Seq<char>>;

/// The engine has nothing left to do: its last tick found every item of the
/// stream matched against the installed pattern and no worker running or
/// scheduled, and nothing was pushed, reparsed or restarted since.
pub uninterp spec fn settled_of(n: Nucleo<String>) -> bool;

/// The engine has a change to take up on its next tick: its item stream was
/// restarted, or its pattern reparsed, since the last tick.
pub uninterp spec fn pending_of(n: Nucleo<String>) -> bool;

/// Every entry of ranking `m` is an item of `items`, and there are no more
/// entries than items.
pub open spec fn drawn_from(m: Seq<Seq<char>>, items: Seq<Seq<char>>) -> bool {
    &&& m.len() <= items.len()
    &&& forall|i: int| 0 <= i < m.len() ==> items.contains(#[trigger] m[i])
}

/// The number of matching columns the engine was built with.
pub uninterp spec fn columns_of(n: Nucleo<String>) -> nat;

/// Relies on `Nucleo::new` with the default configuration, worker threads
/// chosen by the engine and one matching column: a fresh engine has no
/// items and no matches, and its first tick starts the workers; it calls
/// `notify` whenever there is progress to collect with a tick.
#[verifier::external_body]
pub(crate) fn new_engine<F: Fn() + Sync + Send + 'static>(notify: F) -> (r: Nucleo<String>)
    ensures
        columns_of(r) == 1,
        !settled_of(r),
        pending_of(r),
        items_of(r) == Seq::<Seq<char>>::empty(),
        matched_of(r) == Seq::<Seq<char>>::empty(),
{
    Nucleo::new(Config::DEFAULT, Arc::new(notify), None, 1)
}

/// Relies on `Snapshot::matched_item_count` of the published snapshot: the
/// number of matches it holds.
#[verifier::external_body]
pub(crate) fn matched_count(n: &Nucleo<String>) -> (r: u32)
    ensures
        r as int == matched_of(*n).len(),
{
    n.snapshot().matched_item_count()
}

/// Relies on `Snapshot::matched_items`: the matches of the published snapshot
/// in positions `start..end`, in rank order (it panics on a range past the
/// count, which `requires` leaves out).
#[verifier::external_body]
pub(crate) fn matched_range(n: &Nucleo<String>, start: u32, end: u32) -> (r: Vec<String>)
    requires
        start <= end,
        end as int <= matched_of(*n).len(),
    ensures
        r@.len() == end - start,
        forall|i: int|
            0 <= i < r@.len() ==> #[trigger] r@[i]@ == matched_of(*n)[start + i],
{
    n.snapshot().matched_items(start..end).map(|item| item.data.clone()).collect()
}

/// Relies on `Nucleo::restart`: the item stream is emptied; with
/// `clear_snapshot` the snapshot is emptied too, otherwise it keeps its
/// matches until the next tick, which takes up the new stream.
#[verifier::external_body]
pub(crate) fn restart(n: &mut Nucleo<String>, clear_snapshot: bool)
    ensures
        columns_of(*final(n)) == columns_of(*old(n)),
        !settled_of(*final(n)),
        items_of(*final(n)) == Seq::<Seq<char>>::empty(),
        clear_snapshot ==> matched_of(*final(n)) == Seq::<Seq<char>>::empty(),
        !clear_snapshot ==> matched_of(*final(n)) == matched_of(*old(n)),
        pending_of(*final(n)),
{
    n.restart(clear_snapshot)
}

/// Relies on `Injector::push` on an injector of `n`: the item is appended to
/// the item stream with its text as the first matching column (indexing a
/// column that does not exist panics). The snapshot only changes on a tick.
#[verifier::external_body]
pub(crate) fn push(n: &mut Nucleo<String>, item: String)
    requires
        columns_of(*old(n)) >= 1,
    ensures
        columns_of(*final(n)) == columns_of(*old(n)),
        !settled_of(*final(n)),
        items_of(*final(n)) == items_of(*old(n)).push(item@),
        matched_of(*final(n)) == matched_of(*old(n)),
        pending_of(*final(n)) == pending_of(*old(n)),
{
    n.injector().push(item, |text, cols| cols[0] = text.as_str().into());
}

/// Relies on `MultiPattern::reparse` on column 0 with smart case matching and
/// smart normalization (indexing a column that does not exist panics): the
/// installed pattern becomes `text`; `append` is a
/// hint that `text` extends the previous pattern. The snapshot only changes
/// on a tick.
#[verifier::external_body]
pub(crate) fn reparse(n: &mut Nucleo<String>, text: &str, append: bool)
    requires
        columns_of(*old(n)) >= 1,
    ensures
        columns_of(*final(n)) == columns_of(*old(n)),
        !settled_of(*final(n)),
        pending_of(*final(n)),
        items_of(*final(n)) == items_of(*old(n)),
        matched_of(*final(n)) == matched_of(*old(n)),
{
    n.pattern.reparse(0, text, CaseMatching::Smart, Normalization::Smart, append)
}

/// Relies on `Nucleo::tick`: it takes up a pending restart or reparse (for
/// which it waits on the worker lock without bound), otherwise waits at most
/// `timeout` milliseconds for the workers, may publish a new snapshot, and
/// reports whether matching is still running; afterwards nothing is pending;
/// the engine is settled exactly when it reports that it is not. When it
/// reports that it is not, the worker has matched every item of the current
/// stream and the published snapshot holds its matches, each item at most
/// once. On a
/// settled engine the worker lock is free and every item was processed, so
/// the tick starts no work, publishes nothing and reports not running. The
/// item stream is left as it was.
#[verifier::external_body]
pub(crate) fn tick(n: &mut Nucleo<String>, timeout: u64) -> (running: bool)
    ensures
        columns_of(*final(n)) == columns_of(*old(n)),
        settled_of(*final(n)) == !running,
        !running ==> drawn_from(matched_of(*final(n)), items_of(*final(n))),
        settled_of(*old(n)) ==> !running && matched_of(*final(n)) == matched_of(*old(n)),
        items_of(*final(n)) == items_of(*old(n)),
        !pending_of(*final(n)),
{
    n.tick(timeout).running
}

} // verus!
