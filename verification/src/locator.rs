//! Finding the rendering-engine binary: a fixed, ordered list of places, probed
//! one at a time until one exists.

use vstd::prelude::*;

verus! {

/// The places where the binary may be, in the order in which they are tried.
pub open spec fn candidates() -> Seq<Seq<char>> {
    seq!["/opt/chromium/chrome"@, "/opt/chrome"@]
}

/// How many places there are.
pub const CANDIDATE_COUNT: usize = 2;

/// The place at `index`, or `None` past the end of the list.
pub fn candidate_path(index: usize) -> (p: Option<&'static str>)
    ensures
        index < candidates().len() ==> (p matches Some(s) && s@ == candidates()[index as int]),
        index >= candidates().len() ==> p is None,
{
    if index == 0 {
        Some("/opt/chromium/chrome")
    } else if index == 1 {
        Some("/opt/chrome")
    } else {
        None
    }
}

/// The first place at or after `from` that is present, if any is.
pub open spec fn first_present(present: Set<Seq<char>>, from: nat) -> Option<nat>
    decreases candidates().len() - from,
{
    if from >= candidates().len() {
        None
    } else if present.contains(candidates()[from as int]) {
        Some(from)
    } else {
        first_present(present, from + 1)
    }
}

/// Where a search stands.
#[derive(Clone, Copy, Debug, PartialEq, Eq, Structural)]
pub struct Locator {
    next: usize,
    found: bool,
}

/// What a [`Locator`] holds, as plain values.
pub struct LocatorView {
    /// The place under question, or the place found; the list's length once all are ruled out.
    pub next: nat,
    /// Whether the place at `next` was reported present.
    pub found: bool,
}

/// What the search wants next, or how it ended.
#[derive(Clone, Copy, Debug, PartialEq, Eq)]
pub enum LocatorStep {
    /// Ask whether this place exists.
    Probe(&'static str),
    /// The search is over: the binary is here.
    Found(&'static str),
    /// The search is over: the binary is nowhere.
    NotFound,
}

/// A [`LocatorStep`] as plain values: places by their position in the list.
pub enum StepView {
    Probe(nat),
    Found(nat),
    NotFound,
}

impl LocatorView {
    /// The state is one that a search can reach.
    pub open spec fn wf(self) -> bool {
        self.next <= candidates().len() && (self.found ==> self.next < candidates().len())
    }

    /// A question is open.
    pub open spec fn searching(self) -> bool {
        !self.found && self.next < candidates().len()
    }

    /// What the search wants next.
    pub open spec fn pending(self) -> StepView {
        if self.found {
            StepView::Found(self.next)
        } else if self.next < candidates().len() {
            StepView::Probe(self.next)
        } else {
            StepView::NotFound
        }
    }

    /// The state after the open question is answered. A search that is over
    /// takes no more answers.
    pub open spec fn answer(self, exists: bool) -> LocatorView {
        if !self.searching() {
            self
        } else if exists {
            LocatorView { next: self.next, found: true }
        } else {
            LocatorView { next: self.next + 1, found: false }
        }
    }

    /// The state in which the search ends when each question is answered by
    /// what `present` holds.
    pub open spec fn search(self, present: Set<Seq<char>>) -> LocatorView
        decreases candidates().len() - self.next,
    {
        if self.searching() && !present.contains(candidates()[self.next as int]) {
            self.answer(false).search(present)
        } else {
            self.answer(true)
        }
    }
}

impl LocatorStep {
    /// The step as plain values, where its place is the one at `index`.
    pub open spec fn matches_view(self, v: StepView) -> bool {
        match (self, v) {
            (LocatorStep::Probe(p), StepView::Probe(i)) => i < candidates().len() && p@
                == candidates()[i as int],
            (LocatorStep::Found(p), StepView::Found(i)) => i < candidates().len() && p@
                == candidates()[i as int],
            (LocatorStep::NotFound, StepView::NotFound) => true,
            _ => false,
        }
    }
}

impl View for Locator {
    type V = LocatorView;

    closed spec fn view(&self) -> LocatorView {
        LocatorView { next: self.next as nat, found: self.found }
    }
}

impl Locator {
    #[verifier::type_invariant]
    closed spec fn reachable(self) -> bool {
        self@.wf()
    }

    /// A search that has asked nothing yet.
    pub fn new() -> (l: Locator)
        ensures
            l@ == (LocatorView { next: 0, found: false }),
    {
        Locator { next: 0, found: false }
    }

    /// What the search wants next, or how it ended.
    pub fn pending(&self) -> (step: LocatorStep)
        ensures
            self@.wf(),
            step.matches_view(self@.pending()),
    {
        proof {
            use_type_invariant(self);
        }
        match candidate_path(self.next) {
            Some(path) => if self.found {
                LocatorStep::Found(path)
            } else {
                LocatorStep::Probe(path)
            },
            None => LocatorStep::NotFound,
        }
    }

    /// Takes the answer to the open question. A present place ends the search
    /// at once, with no further question; an absent one moves it to the next
    /// place, or ends it when none is left.
    pub fn answer(&mut self, exists: bool)
        ensures
            final(self)@ == old(self)@.answer(exists),
    {
        proof {
            use_type_invariant(&*self);
        }
        if !self.found && self.next < CANDIDATE_COUNT {
            if exists {
                self.found = true;
            } else {
                self.next = self.next + 1;
            }
        }
    }
}

/// A search that starts afresh ends at the first present place of the list,
/// or finds nothing where none is present.
pub proof fn lemma_search_finds_first(l: LocatorView, present: Set<Seq<char>>)
    requires
        l.wf(),
        l.searching(),
    ensures
        !l.search(present).searching(),
        l.search(present).wf(),
        match first_present(present, l.next) {
            Some(i) => l.search(present).pending() == StepView::Found(i),
            None => l.search(present).pending() == StepView::NotFound,
        },
    decreases candidates().len() - l.next,
{
    if !present.contains(candidates()[l.next as int]) {
        let after = l.answer(false);
        if after.searching() {
            lemma_search_finds_first(after, present);
        }
    }
}

/// Two file systems that agree on every place of the list have the same first
/// present place.
pub proof fn lemma_first_present_agrees(a: Set<Seq<char>>, b: Set<Seq<char>>, from: nat)
    requires
        forall|i: int|
            0 <= i < candidates().len() ==> a.contains(#[trigger] candidates()[i]) == b.contains(
                candidates()[i],
            ),
    ensures
        first_present(a, from) == first_present(b, from),
    decreases candidates().len() - from,
{
    if from < candidates().len() {
        assert(a.contains(candidates()[from as int]) == b.contains(candidates()[from as int]));
        if !a.contains(candidates()[from as int]) {
            lemma_first_present_agrees(a, b, from + 1);
        }
    }
}

/// Two searches end alike where nothing changed between them: what a fresh
/// search finds depends only on which places of the list are present, and a
/// search that is over stays as it ended, whatever it is told.
pub proof fn lemma_search_repeats(before: Set<Seq<char>>, after: Set<Seq<char>>)
    requires
        forall|i: int|
            0 <= i < candidates().len() ==> before.contains(#[trigger] candidates()[i])
                == after.contains(candidates()[i]),
    ensures
        ({
            let fresh = LocatorView { next: 0, found: false };
            let first = fresh.search(before);
            let second = fresh.search(after);
            &&& first == second
            &&& first.answer(true) == first
            &&& first.answer(false) == first
            &&& first.pending() == match first_present(before, 0) {
                Some(i) => StepView::Found(i),
                None => StepView::NotFound,
            }
        }),
{
    let fresh = LocatorView { next: 0, found: false };
    lemma_search_finds_first(fresh, before);
    lemma_search_finds_first(fresh, after);
    lemma_first_present_agrees(before, after, 0);
}

} // verus!
