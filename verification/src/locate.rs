//! Shell location by ordered probing.
//!
//! The locator walks a fixed, ordered candidate list of absolute shell
//! paths.  For each candidate in turn a single existence probe is run
//! inside the execution context; the first candidate that exists wins and
//! no later candidate is ever probed.  If none exists, location fails.

use vstd::prelude::*;

verus! {

/// Where the locator stands.
#[derive(Clone, Copy, Debug, PartialEq, Eq, Structural)]
pub enum LocateState {
    /// The candidate at the current index is to be probed next.
    Pending,
    /// The candidate at the current index exists: it is the winner.
    Located,
    /// Every candidate was probed and none exists.
    Exhausted,
}

/// The ordered shell probe, advanced by one probe answer at a time.
pub struct ShellLocator {
    /// The ordered candidate paths, fixed at construction.
    pub candidates: Vec<String>,
    /// The current index into the candidate list.
    pub index: usize,
    /// Where the locator stands.
    pub state: LocateState,
}

/// Mathematical model of a `ShellLocator`.
pub struct LocatorV {
    pub candidates: Seq<Seq<char>>,
    pub index: int,
    pub state: LocateState,
}

impl View for ShellLocator {
    type V = LocatorV;

    open spec fn view(&self) -> LocatorV {
        LocatorV {
            candidates: self.candidates.deep_view(),
            index: self.index as int,
            state: self.state,
        }
    }
}

impl LocatorV {
    /// The locator's internal invariant: the index stays inside the list
    /// while work remains, and a winner's index is in range.
    pub open spec fn wf(self) -> bool {
        match self.state {
            LocateState::Pending => 0 <= self.index < self.candidates.len(),
            LocateState::Located => 0 <= self.index < self.candidates.len(),
            LocateState::Exhausted => self.index == self.candidates.len(),
        }
    }
}

/// A fresh locator over a candidate list: at the first candidate, or
/// already exhausted when the list is empty.
pub open spec fn locator_init(candidates: Seq<Seq<char>>) -> LocatorV {
    LocatorV {
        candidates,
        index: 0,
        state: if candidates.len() == 0 {
            LocateState::Exhausted
        } else {
            LocateState::Pending
        },
    }
}

/// One probe answer for the current candidate: an existing candidate
/// wins on the spot; otherwise the locator moves to the next candidate,
/// or is exhausted when none is left.
pub open spec fn locator_observe(l: LocatorV, exists: bool) -> LocatorV {
    if exists {
        LocatorV { state: LocateState::Located, ..l }
    } else if l.index + 1 < l.candidates.len() {
        LocatorV { index: l.index + 1, ..l }
    } else {
        LocatorV { index: l.candidates.len() as int, state: LocateState::Exhausted, ..l }
    }
}

impl ShellLocator {
    /// Build a fresh locator over the candidate list.
    pub fn new(candidates: Vec<String>) -> (l: Self)
        ensures
            l@ == locator_init(candidates.deep_view()),
            l@.wf(),
    {
        let state = if candidates.len() == 0 {
            LocateState::Exhausted
        } else {
            LocateState::Pending
        };
        ShellLocator { candidates, index: 0, state }
    }

    /// The candidate to probe next, while one is pending.
    pub fn pending_candidate(&self) -> (p: Option<&String>)
        ensures
            match p {
                Some(path) => self@.state == LocateState::Pending && self@.index
                    < self@.candidates.len() && path@ == self@.candidates[self@.index],
                None => self@.state != LocateState::Pending || self@.index
                    >= self@.candidates.len(),
            },
    {
        if matches!(self.state, LocateState::Pending) && self.index < self.candidates.len() {
            Some(&self.candidates[self.index])
        } else {
            None
        }
    }

    /// The winning candidate, once one was located.
    pub fn located_candidate(&self) -> (p: Option<&String>)
        ensures
            match p {
                Some(path) => self@.state == LocateState::Located && self@.index
                    < self@.candidates.len() && path@ == self@.candidates[self@.index],
                None => self@.state != LocateState::Located || self@.index
                    >= self@.candidates.len(),
            },
    {
        if matches!(self.state, LocateState::Located) && self.index < self.candidates.len() {
            Some(&self.candidates[self.index])
        } else {
            None
        }
    }

    /// Consume the probe answer for the current candidate, as
    /// `locator_observe` states.
    pub fn observe(&mut self, exists: bool)
        requires
            old(self)@.state == LocateState::Pending,
            old(self)@.wf(),
        ensures
            final(self)@ == locator_observe(old(self)@, exists),
            final(self)@.wf(),
    {
        let n = self.candidates.len();
        if exists {
            self.state = LocateState::Located;
        } else if self.index + 1 < n {
            self.index = self.index + 1;
        } else {
            self.index = n;
            self.state = LocateState::Exhausted;
        }
    }
}

/// The probes a locator performs when the probe answers are `answers`:
/// one probe of the current candidate per answer consumed, until a
/// candidate wins or the list is exhausted.
pub open spec fn locator_probes(l: LocatorV, answers: Seq<bool>) -> Seq<Seq<char>>
    decreases answers.len(),
{
    if l.state != LocateState::Pending || answers.len() == 0 {
        seq![]
    } else {
        seq![l.candidates[l.index]] + locator_probes(locator_observe(l, answers[0]), answers.drop_first())
    }
}

/// The locator after consuming all of `answers` (or as many as it needs).
pub open spec fn locator_run(l: LocatorV, answers: Seq<bool>) -> LocatorV
    decreases answers.len(),
{
    if l.state != LocateState::Pending || answers.len() == 0 {
        l
    } else {
        locator_run(locator_observe(l, answers[0]), answers.drop_first())
    }
}

/// The index of the first `true` in a row of probe answers; the row's
/// length when none is `true`.
pub open spec fn first_exists(answers: Seq<bool>) -> int
    decreases answers.len(),
{
    if answers.len() == 0 {
        0
    } else if answers[0] {
        0
    } else {
        1 + first_exists(answers.drop_first())
    }
}

proof fn lemma_first_exists_bounds(answers: Seq<bool>)
    ensures
        0 <= first_exists(answers) <= answers.len(),
        first_exists(answers) < answers.len() ==> answers[first_exists(answers)],
        forall|k: int| 0 <= k < first_exists(answers) ==> !answers[k],
    decreases answers.len(),
{
    if answers.len() > 0 && !answers[0] {
        lemma_first_exists_bounds(answers.drop_first());
        assert forall|k: int| 0 <= k < first_exists(answers) implies !answers[k] by {
            if k > 0 {
                assert(!answers.drop_first()[k - 1]);
            }
        }
    }
}

proof fn lemma_locator_ordered_from(l: LocatorV, answers: Seq<bool>)
    requires
        l.wf(),
        l.state == LocateState::Pending,
        l.index + answers.len() == l.candidates.len(),
    ensures
        ({
            let k = first_exists(answers);
            if k < answers.len() {
                locator_probes(l, answers) == l.candidates.subrange(l.index, l.index + k + 1)
                    && locator_run(l, answers).state == LocateState::Located && locator_run(
                    l,
                    answers,
                ).index == l.index + k && locator_run(l, answers).candidates == l.candidates
            } else {
                locator_probes(l, answers) == l.candidates.subrange(
                    l.index,
                    l.candidates.len() as int,
                ) && locator_run(l, answers).state == LocateState::Exhausted && locator_run(
                    l,
                    answers,
                ).candidates == l.candidates
            }
        }),
    decreases answers.len(),
{
    let k = first_exists(answers);
    lemma_first_exists_bounds(answers);
    if answers[0] {
        let lw = locator_observe(l, true);
        assert(locator_probes(lw, answers.drop_first()) =~= seq![]);
        assert(locator_run(l, answers) == locator_run(lw, answers.drop_first()));
        assert(locator_run(lw, answers.drop_first()) == lw);
        assert(locator_probes(l, answers) =~= l.candidates.subrange(l.index, l.index + 1));
    } else {
        let l1 = locator_observe(l, false);
        let rest = answers.drop_first();
        lemma_first_exists_bounds(rest);
        assert(k == 1 + first_exists(rest));
        assert(locator_probes(l, answers) == seq![l.candidates[l.index]] + locator_probes(
            l1,
            rest,
        ));
        assert(locator_run(l, answers) == locator_run(l1, rest));
        if l.index + 1 < l.candidates.len() {
            lemma_locator_ordered_from(l1, rest);
            let k1 = first_exists(rest);
            if k1 < rest.len() {
                assert(locator_probes(l, answers) =~= l.candidates.subrange(
                    l.index,
                    l.index + k + 1,
                ));
            } else {
                assert(locator_probes(l, answers) =~= l.candidates.subrange(
                    l.index,
                    l.candidates.len() as int,
                ));
            }
        } else {
            assert(rest.len() == 0);
            assert(l1.state == LocateState::Exhausted);
            assert(locator_probes(l1, rest) =~= seq![]);
            assert(locator_run(l1, rest) == l1);
            assert(locator_probes(l, answers) =~= l.candidates.subrange(
                l.index,
                l.candidates.len() as int,
            ));
        }
    }
}

/// Law: the locator always probes the candidates in their configured
/// order and stops at the first that exists.  Given one probe answer per
/// candidate, where the first existing candidate has index `k`, exactly
/// the candidates up to and including `k` are probed, in order, and the
/// candidate at `k` wins; when no candidate exists, every candidate is
/// probed once, in order, and location is exhausted.
pub proof fn lemma_locator_ordered(candidates: Seq<Seq<char>>, answers: Seq<bool>)
    requires
        candidates.len() == answers.len(),
        candidates.len() > 0,
    ensures
        ({
            let l = locator_init(candidates);
            let k = first_exists(answers);
            if k < answers.len() {
                locator_probes(l, answers) == candidates.subrange(0, k + 1) && locator_run(
                    l,
                    answers,
                ).state == LocateState::Located && locator_run(l, answers).index == k
                    && answers[k] && forall|j: int| 0 <= j < k ==> !answers[j]
            } else {
                locator_probes(l, answers) == candidates && locator_run(l, answers).state
                    == LocateState::Exhausted && forall|j: int|
                    0 <= j < answers.len() ==> !answers[j]
            }
        }),
{
    let l = locator_init(candidates);
    lemma_first_exists_bounds(answers);
    lemma_locator_ordered_from(l, answers);
    if first_exists(answers) >= answers.len() {
        assert(candidates.subrange(0, candidates.len() as int) =~= candidates);
    }
}

} // verus!
