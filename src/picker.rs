//! The picker: it owns a matching engine, reacts to corpus and pattern
//! changes and to progress wake-ups, and tells its host what to do next.
//! Its ranked results are read through a clamped window (`NewSnapshot`).
use vstd::prelude::*;

use crate::corpus::{corpus_item, corpus_len, texts_of};
use crate::engine;
use crate::engine::{columns_of, drawn_from, items_of, matched_of, pending_of, settled_of};
use im::Vector;
use nucleo::Nucleo;

verus! {

/// Where the query input stands relative to the result list.
pub enum InputLocation {
    Top,
    Bottom,
}

/// The direction in which ranked results are laid out.
#[derive(Clone, Copy)]
pub enum ResultOrdering {
    TopToBottom,
    BottomToTop,
}

/// Where the picker stands between a change and a converged ranking.
#[derive(Clone, Copy, PartialEq, Eq, Structural, Debug)]
pub enum PickerPhase {
    /// Nothing has happened yet.
    Idle,
    /// A change was installed and matching has not converged since.
    AwaitingTick,
    /// The last tick reported that no work remains.
    Converged,
}

/// An event delivered to the picker.
pub enum PickerUpdate {
    /// The query text changed.
    Filter(String),
    /// The engine signalled progress, or a scheduled wake-up came due.
    NewInfo,
    /// The corpus was replaced by these items.
    NewItems(Vector<String>),
}

/// What the host should do after the picker handled an event.
#[derive(Clone, Copy, PartialEq, Eq, Structural, Debug)]
pub enum PickerAction {
    /// Nothing: the engine's own wake-ups will follow.
    Nothing,
    /// Deliver `NewInfo` right away.
    WakeNow,
    /// Deliver `NewInfo` again after a short fixed delay.
    WakeLater,
    /// Matching converged: re-query the window and redraw.
    Render,
}

/// The abstract state of a picker.
pub ghost struct PickerView {
    pub items: Seq<Seq<char>>,
    pub matched: Seq<Seq<char>>,
    /// The query last installed.
    pub pattern: Seq<char>,
    pub phase: PickerPhase,
}

/// `p` is a prefix of `s`.
pub open spec fn is_prefix(p: Seq<char>, s: Seq<char>) -> bool {
    p.len() <= s.len() && s.subrange(0, p.len() as int) == p
}

/// Whether `s` starts with `p`.
fn starts_with(s: &str, p: &str) -> (r: bool)
    ensures
        r == is_prefix(p@, s@),
{
    let pn = p.unicode_len();
    let sn = s.unicode_len();
    if pn > sn {
        return false;
    }
    let mut i: usize = 0;
    while i < pn
        invariant
            pn == p@.len(),
            sn == s@.len(),
            pn <= sn,
            i <= pn,
            forall|k: int| 0 <= k < i ==> s@[k] == p@[k],
        decreases pn - i,
    {
        if s.get_char(i) != p.get_char(i) {
            assert(s@.subrange(0, pn as int)[i as int] != p@[i as int]);
            return false;
        }
        i = i + 1;
    }
    assert(s@.subrange(0, pn as int) =~= p@);
    true
}

impl PickerView {
    /// The state after the query became `f`.
    pub open spec fn after_filter(self, f: Seq<char>) -> PickerView {
        PickerView { pattern: f, phase: PickerPhase::AwaitingTick, ..self }
    }

    /// The state after a tick that reported `running` and left `matched` published.
    pub open spec fn after_tick(self, running: bool, matched: Seq<Seq<char>>) -> PickerView {
        PickerView {
            matched: matched,
            phase: if running { PickerPhase::AwaitingTick } else { PickerPhase::Converged },
            ..self
        }
    }

    /// The state after the corpus was replaced by `items`; the previous
    /// ranking stays visible until the next tick.
    pub open spec fn after_items(self, items: Seq<Seq<char>>) -> PickerView {
        PickerView { items: items, phase: PickerPhase::AwaitingTick, ..self }
    }
}

/// The part of `m` in positions `start..end`, cut down to what `m` holds.
pub open spec fn clamped(m: Seq<Seq<char>>, start: int, end: int) -> Seq<Seq<char>> {
    let s = if start < m.len() { start } else { m.len() as int };
    let e = if end < m.len() { end } else { m.len() as int };
    if s <= e { m.subrange(s, e) } else { Seq::empty() }
}

/// Slicing the whole length of a ranking gives the ranking itself, in order.
pub proof fn lemma_full_slice(m: Seq<Seq<char>>)
    ensures
        clamped(m, 0, m.len() as int) == m,
{
    assert(m.subrange(0, m.len() as int) =~= m);
}

/// A slice whose end lies past the ranking gives the valid suffix from its
/// start, without failing.
pub proof fn lemma_slice_past_end(m: Seq<Seq<char>>, start: int, end: int)
    requires
        0 <= start <= m.len(),
        end > m.len(),
    ensures
        clamped(m, start, end) == m.subrange(start, m.len() as int),
        clamped(m, start, end).len() == m.len() - start,
{
}

/// The picker's own record (corpus, published ranking, query and phase) after
/// installing the same query twice equals the record after installing it
/// once. The engine's ranking for the query is its own and not stated here.
pub proof fn lemma_refilter_idempotent(v: PickerView, f: Seq<char>)
    ensures
        v.after_filter(f).after_filter(f) == v.after_filter(f),
{
}

/// The picker's own record after installing `p + x` does not depend on the
/// query before it: after `p` (when the append hint is given) and after any
/// other query it is the same. Whether the engine's converged ranking is the
/// same under both hints is the engine's matter and not stated here.
pub proof fn lemma_append_hint_irrelevant(
    v: PickerView,
    p: Seq<char>,
    x: Seq<char>,
    other: Seq<char>,
)
    ensures
        is_prefix(p, p + x),
        v.after_filter(p).after_filter(p + x) == v.after_filter(other).after_filter(p + x),
{
    assert((p + x).subrange(0, p.len() as int) =~= p);
}

/// A picker over text items.
pub struct FuzzyPicker {
    picker: Nucleo<String>,
    prev_filter: String,
    last_append: bool,
    phase: PickerPhase,
}

/// A read-only window on the ranking that a picker last published.
pub struct NewSnapshot<'a> {
    picker: &'a Nucleo<String>,
}

impl<'a> NewSnapshot<'a> {
    /// The ranking, in rank order.
    pub closed spec fn matched(&self) -> Seq<Seq<char>> {
        matched_of(*self.picker)
    }

    /// The number of ranked items.
    pub fn total_len(&self) -> (r: usize)
        ensures
            r == self.matched().len(),
    {
        engine::matched_count(self.picker) as usize
    }

    /// Copies of the ranked items in positions `range`, in rank order; a
    /// range past the end is cut to the items that exist.
    pub fn slice(&self, range: std::ops::Range<usize>) -> (r: Vec<String>)
        ensures
            r@.len() == clamped(self.matched(), range.start as int, range.end as int).len(),
            forall|i: int|
                0 <= i < r@.len() ==> #[trigger] r@[i]@ == clamped(
                    self.matched(),
                    range.start as int,
                    range.end as int,
                )[i],
    {
        let count = engine::matched_count(self.picker);
        let len = count as usize;
        let start = if range.start < len { range.start } else { len };
        let end = if range.end < len { range.end } else { len };
        if start > end {
            return Vec::new();
        }
        engine::matched_range(self.picker, start as u32, end as u32)
    }
}

impl FuzzyPicker {
    /// The abstract state.
    pub closed spec fn view(&self) -> PickerView {
        PickerView {
            items: items_of(self.picker),
            matched: matched_of(self.picker),
            pattern: self.prev_filter@,
            phase: self.phase,
        }
    }

    /// The engine has the one matching column the picker reads, it is
    /// settled exactly when the picker has converged, and a converged
    /// ranking is drawn from the current corpus.
    pub closed spec fn wf(&self) -> bool {
        &&& columns_of(self.picker) == 1
        &&& settled_of(self.picker) == (self.phase == PickerPhase::Converged)
        &&& self.phase == PickerPhase::Converged ==> drawn_from(
            matched_of(self.picker),
            items_of(self.picker),
        )
        &&& self.phase == PickerPhase::Converged ==> !pending_of(self.picker)
    }

    /// The append hint handed to the engine with the last query.
    pub closed spec fn append_hint(&self) -> bool {
        self.last_append
    }

    /// A restart or a new query waits for the engine's next tick.
    pub closed spec fn pending(&self) -> bool {
        pending_of(self.picker)
    }

    /// An empty picker, before any event, whose engine calls `notify`
    /// whenever there is progress to collect with a tick.
    pub fn new<F: Fn() + Sync + Send + 'static>(notify: F) -> (r: FuzzyPicker)
        ensures
            r.wf(),
            r.view() == (PickerView {
                items: Seq::empty(),
                matched: Seq::empty(),
                pattern: Seq::empty(),
                phase: PickerPhase::Idle,
            }),
            r.pending(),
    {
        FuzzyPicker {
            picker: engine::new_engine(notify),
            prev_filter: String::new(),
            last_append: false,
            phase: PickerPhase::Idle,
        }
    }

    /// The phase the picker is in.
    pub fn phase(&self) -> (r: PickerPhase)
        ensures
            r == self.view().phase,
    {
        self.phase
    }

    /// The window on the published ranking.
    pub fn snapshot(&self) -> (r: NewSnapshot<'_>)
        ensures
            r.matched() == self.view().matched,
    {
        NewSnapshot { picker: &self.picker }
    }

    /// The number of ranked items.
    pub fn total_len(&self) -> (r: usize)
        ensures
            r == self.view().matched.len(),
    {
        self.snapshot().total_len()
    }

    /// Copies of the ranked items in positions `range`, clamped as `NewSnapshot::slice` does.
    pub fn slice(&self, range: std::ops::Range<usize>) -> (r: Vec<String>)
        ensures
            r@.len() == clamped(self.view().matched, range.start as int, range.end as int).len(),
            forall|i: int|
                0 <= i < r@.len() ==> #[trigger] r@[i]@ == clamped(
                    self.view().matched,
                    range.start as int,
                    range.end as int,
                )[i],
    {
        self.snapshot().slice(range)
    }

    /// Installs `filter` as the query. The engine is told that the query only
    /// grew exactly when the previous query is a prefix of it.
    pub fn update_filter(&mut self, filter: String) -> (r: PickerAction)
        requires
            old(self).wf(),
        ensures
            final(self).wf(),
            final(self).view() == old(self).view().after_filter(filter@),
            final(self).append_hint() == is_prefix(old(self).view().pattern, filter@),
            final(self).pending(),
            r == PickerAction::WakeNow,
    {
        let append = starts_with(filter.as_str(), self.prev_filter.as_str());
        engine::reparse(&mut self.picker, filter.as_str(), append);
        self.prev_filter = filter;
        self.last_append = append;
        self.phase = PickerPhase::AwaitingTick;
        PickerAction::WakeNow
    }

    /// Replaces the corpus by `items`, keeping the previous ranking visible
    /// until matching has run again.
    pub fn update_items(&mut self, items: Vector<String>) -> (r: PickerAction)
        requires
            old(self).wf(),
        ensures
            final(self).wf(),
            final(self).view() == old(self).view().after_items(texts_of(items)),
            final(self).pending(),
            r == PickerAction::Nothing,
    {
        engine::restart(&mut self.picker, false);
        let ghost target = texts_of(items);
        let n = corpus_len(&items);
        let mut i: usize = 0;
        while i < n
            invariant
                0 <= i <= n,
                n == target.len(),
                target == texts_of(items),
                items_of(self.picker) == target.subrange(0, i as int),
                matched_of(self.picker) == matched_of(old(self).picker),
                pending_of(self.picker),
                columns_of(self.picker) == 1,
                !settled_of(self.picker),
                self.prev_filter == old(self).prev_filter,
                self.phase == old(self).phase,
            decreases n - i,
        {
            let item = corpus_item(&items, i).unwrap();
            engine::push(&mut self.picker, item);
            i = i + 1;
            assert(items_of(self.picker) =~= target.subrange(0, i as int));
        }
        assert(target.subrange(0, n as int) =~= target);
        self.phase = PickerPhase::AwaitingTick;
        PickerAction::Nothing
    }

    /// Runs one tick of matching, waiting at most `timeout` milliseconds for
    /// the background workers. While work remains the
    /// host is asked to wake the picker again shortly; once none remains the
    /// picker has converged and the host is asked to redraw. Ticks on a
    /// converged picker change nothing and keep reporting convergence.
    pub fn tick(&mut self, timeout: u64) -> (r: PickerAction)
        requires
            old(self).wf(),
        ensures
            final(self).wf(),
            final(self).view() == old(self).view().after_tick(
                r == PickerAction::WakeLater,
                final(self).view().matched,
            ),
            r == PickerAction::WakeLater || r == PickerAction::Render,
            !final(self).pending(),
            r == PickerAction::Render ==> drawn_from(
                final(self).view().matched,
                final(self).view().items,
            ),
            old(self).view().phase == PickerPhase::Converged ==> r == PickerAction::Render
                && final(self).view() == old(self).view(),
    {
        let running = engine::tick(&mut self.picker, timeout);
        if running {
            self.phase = PickerPhase::AwaitingTick;
            PickerAction::WakeLater
        } else {
            self.phase = PickerPhase::Converged;
            PickerAction::Render
        }
    }

    /// Handles one event and returns what the host should do next; a wake-up
    /// ticks without waiting.
    pub fn update(&mut self, state: PickerUpdate) -> (r: PickerAction)
        requires
            old(self).wf(),
        ensures
            final(self).wf(),
            match state {
                PickerUpdate::Filter(f) => {
                    &&& final(self).view() == old(self).view().after_filter(f@)
                    &&& final(self).append_hint() == is_prefix(old(self).view().pattern, f@)
                    &&& final(self).pending()
                    &&& r == PickerAction::WakeNow
                },
                PickerUpdate::NewInfo => {
                    &&& final(self).view() == old(self).view().after_tick(
                        r == PickerAction::WakeLater,
                        final(self).view().matched,
                    )
                    &&& (r == PickerAction::WakeLater || r == PickerAction::Render)
                    &&& !final(self).pending()
                    &&& (r == PickerAction::Render ==> drawn_from(
                        final(self).view().matched,
                        final(self).view().items,
                    ))
                    &&& (old(self).view().phase == PickerPhase::Converged ==> r
                        == PickerAction::Render && final(self).view() == old(self).view())
                },
                PickerUpdate::NewItems(items) => {
                    &&& final(self).view() == old(self).view().after_items(
                        texts_of(items),
                    )
                    &&& final(self).pending()
                    &&& r == PickerAction::Nothing
                },
            },
    {
        match state {
            PickerUpdate::Filter(filter) => self.update_filter(filter),
            PickerUpdate::NewInfo => self.tick(0),
            PickerUpdate::NewItems(items) => self.update_items(items),
        }
    }

    /// A converged picker ranks no more entries than its corpus holds, each
    /// of them an item of the current corpus; over an empty corpus its
    /// ranking is empty.
    pub proof fn lemma_converged_ranking(&self)
        requires
            self.wf(),
            self.view().phase == PickerPhase::Converged,
        ensures
            self.view().matched.len() <= self.view().items.len(),
            forall|i: int|
                0 <= i < self.view().matched.len() ==> self.view().items.contains(
                    #[trigger] self.view().matched[i],
                ),
            self.view().items.len() == 0 ==> self.view().matched.len() == 0,
    {
    }

    /// Accepting needs no work of its own: the picker is handed back as it is.
    pub fn on_accept(self) -> (r: Self)
        ensures
            r.view() == self.view(),
            r.wf() == self.wf(),
    {
        self
    }

    /// Selecting needs no work of its own.
    pub fn on_select() {
    }
}

/// A picker that holds `items` as its corpus, whose engine calls `notify`
/// whenever there is progress to collect with a tick.
pub fn picker<F: Fn() + Sync + Send + 'static>(notify: F, items: Vector<String>) -> (r: FuzzyPicker)
    ensures
        r.wf(),
        r.view() == (PickerView {
            items: texts_of(items),
            matched: Seq::empty(),
            pattern: Seq::empty(),
            phase: PickerPhase::AwaitingTick,
        }),
        r.pending(),
{
    let mut p = FuzzyPicker::new(notify);
    p.update_items(items);
    p
}

} // verus!
