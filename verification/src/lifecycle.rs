//! Lifecycle laws of the session engine.
//!
//! A whole session is the engine run over a row of events; its trace is
//! the row of daemon operations it demanded.  The laws here pin the
//! resource discipline of every run: connection comes before resolution,
//! a running target never triggers creation, an ambiguous target touches
//! nothing, and at most one ephemeral container is ever created and is
//! removed exactly once by session end, on every exit path.

use vstd::prelude::*;

use crate::engine::init_model;
use crate::engine::step_model;
use crate::engine::ActionV;
use crate::engine::EngineV;
use crate::engine::EventV;
use crate::engine::Phase;
use crate::config::SessionConfigV;
use crate::errors::Fault;
use crate::errors::Outcome;
use crate::resolve::count_running;
use crate::resolve::first_running;
use crate::resolve::ids_model;
use crate::resolve::lemma_first_running;
use crate::resolve::resolved_kind_model;
use crate::resolve::MatchV;
use crate::resolve::TargetKind;

verus! {

/// The engine state after a row of events.
pub open spec fn engine_run(s: EngineV, events: Seq<EventV>) -> EngineV
    decreases events.len(),
{
    if events.len() == 0 {
        s
    } else {
        engine_run(step_model(s, events[0]).0, events.drop_first())
    }
}

/// The daemon operations an engine run demands, in order.
pub open spec fn engine_trace(s: EngineV, events: Seq<EventV>) -> Seq<ActionV>
    decreases events.len(),
{
    if events.len() == 0 {
        seq![]
    } else {
        seq![step_model(s, events[0]).1] + engine_trace(
            step_model(s, events[0]).0,
            events.drop_first(),
        )
    }
}

/// How many container creations a trace demands.
pub open spec fn count_creates(actions: Seq<ActionV>) -> int
    decreases actions.len(),
{
    if actions.len() == 0 {
        0
    } else {
        (if actions[0] is CreateContainer {
            1int
        } else {
            0int
        }) + count_creates(actions.drop_first())
    }
}

/// How many container removals a trace demands.
pub open spec fn count_removes(actions: Seq<ActionV>) -> int
    decreases actions.len(),
{
    if actions.len() == 0 {
        0
    } else {
        (if actions[0] is RemoveContainer {
            1int
        } else {
            0int
        }) + count_removes(actions.drop_first())
    }
}

/// The rank of a phase: every step keeps it or raises it, so no phase is
/// ever revisited once left behind.
pub open spec fn phase_rank(p: Phase) -> int {
    match p {
        Phase::Connecting => 0,
        Phase::QueryingContainers => 1,
        Phase::QueryingImages => 2,
        Phase::Creating => 3,
        Phase::Starting => 4,
        Phase::Probing => 5,
        Phase::Execing => 6,
        Phase::Relaying => 7,
        Phase::CleaningUp => 8,
        Phase::Finished => 9,
    }
}

/// A boolean as a count.
pub open spec fn b2i(b: bool) -> int {
    if b {
        1
    } else {
        0
    }
}

/// The engine's inductive invariant, true of every reachable state: the
/// bookkeeping flags agree with the phase, a cleanup obligation exists
/// only for a confirmed ephemeral container, a removal is issued only
/// once an obligation exists, and a finished session with an obligation
/// has had its removal issued.
pub open spec fn engine_inv(s: EngineV) -> bool {
    &&& s.create_issued ==> phase_rank(s.phase) >= 3
    &&& (s.phase == Phase::Creating || s.phase == Phase::Starting) ==> s.create_issued
    &&& s.obligation is Some ==> s.create_issued && s.ephemeral
    &&& s.removal_issued ==> phase_rank(s.phase) >= 8 && s.obligation is Some
    &&& s.phase == Phase::CleaningUp ==> s.removal_issued && s.outcome is Some
    &&& s.phase == Phase::Finished ==> s.outcome is Some
    &&& (s.phase == Phase::Finished && s.obligation is Some) ==> s.removal_issued
}

/// One step preserves the invariant, never lowers the rank, never clears
/// a bookkeeping flag, and demands a creation or a removal exactly when
/// the matching flag flips.
pub proof fn lemma_step_preserves(s: EngineV, e: EventV)
    requires
        engine_inv(s),
    ensures
        ({
            let r = step_model(s, e);
            engine_inv(r.0) && phase_rank(r.0.phase) >= phase_rank(s.phase) && (s.create_issued
                ==> r.0.create_issued) && (s.removal_issued ==> r.0.removal_issued) && ((
            r.1 is CreateContainer) <==> (!s.create_issued && r.0.create_issued)) && ((
            r.1 is RemoveContainer) <==> (!s.removal_issued && r.0.removal_issued)) && ((
            !s.create_issued && r.0.create_issued) ==> s.phase == Phase::QueryingImages)
        }),
{
}

/// An invariant state keeps the invariant over any run; the bookkeeping
/// flags count exactly the creations and removals the trace demands; and
/// once past the resolution phases with no creation issued, none ever is.
pub proof fn lemma_run_properties(s: EngineV, events: Seq<EventV>)
    requires
        engine_inv(s),
    ensures
        ({
            let f = engine_run(s, events);
            let t = engine_trace(s, events);
            engine_inv(f) && phase_rank(f.phase) >= phase_rank(s.phase) && (s.create_issued
                ==> f.create_issued) && (s.removal_issued ==> f.removal_issued) && count_creates(t)
                == b2i(f.create_issued) - b2i(s.create_issued) && count_removes(t) == b2i(
                f.removal_issued,
            ) - b2i(s.removal_issued) && ((phase_rank(s.phase) >= 3 && !s.create_issued)
                ==> !f.create_issued)
        }),
    decreases events.len(),
{
    if events.len() > 0 {
        let r = step_model(s, events[0]);
        lemma_step_preserves(s, events[0]);
        lemma_run_properties(r.0, events.drop_first());
        let t = engine_trace(s, events);
        assert(t == seq![r.1] + engine_trace(r.0, events.drop_first()));
        assert(t[0] == r.1);
        assert(t.drop_first() =~= engine_trace(r.0, events.drop_first()));
    }
}

/// A finished engine ignores every further event and demands nothing.
pub proof fn lemma_finished_absorbs(s: EngineV, events: Seq<EventV>)
    requires
        s.phase == Phase::Finished,
    ensures
        engine_run(s, events) == s,
        engine_trace(s, events).len() == events.len(),
        forall|i: int|
            0 <= i < events.len() ==> engine_trace(s, events)[i] == ActionV::Idle,
    decreases events.len(),
{
    if events.len() > 0 {
        assert(step_model(s, events[0]) == (s, ActionV::Idle));
        lemma_finished_absorbs(s, events.drop_first());
        let t = engine_trace(s, events);
        assert(t == seq![ActionV::Idle] + engine_trace(s, events.drop_first()));
        assert forall|i: int| 0 <= i < events.len() implies t[i] == ActionV::Idle by {
            if i > 0 {
                assert(t[i] == engine_trace(s, events.drop_first())[i - 1]);
            }
        }
    }
}

proof fn lemma_count_cons(a: ActionV, t: Seq<ActionV>)
    ensures
        count_creates(seq![a] + t) == (if a is CreateContainer {
            1int
        } else {
            0int
        }) + count_creates(t),
        count_removes(seq![a] + t) == (if a is RemoveContainer {
            1int
        } else {
            0int
        }) + count_removes(t),
{
    assert((seq![a] + t)[0] == a);
    assert((seq![a] + t).drop_first() =~= t);
}

/// Law: over any whole session — whatever the daemon answers, however
/// the session ends — at most one container is ever created, a creation
/// happens exactly when the engine issued one, a removal is demanded at
/// most once, every finished session with an outstanding obligation has
/// demanded exactly one removal, and a session that never owed a cleanup
/// never demands a removal.
pub proof fn lemma_cleanup_exactly_once(
    target: Seq<char>,
    config: SessionConfigV,
    candidates: Seq<Seq<char>>,
    events: Seq<EventV>,
)
    ensures
        ({
            let s0 = init_model(target, config, candidates);
            let f = engine_run(s0, events);
            let t = engine_trace(s0, events);
            count_creates(t) <= 1 && count_removes(t) <= 1 && (count_creates(t) == 1
                <==> f.create_issued) && ((f.phase == Phase::Finished && f.obligation is Some)
                ==> count_removes(t) == 1) && (f.obligation is None ==> count_removes(t) == 0)
        }),
{
    let s0 = init_model(target, config, candidates);
    assert(engine_inv(s0));
    lemma_run_properties(s0, events);
}

/// Law: a daemon that cannot be reached ends the session with a
/// connection error before any resolution is attempted: the whole trace
/// demands nothing at all — no query, no creation, no removal.
pub proof fn lemma_connection_error_first(
    target: Seq<char>,
    config: SessionConfigV,
    candidates: Seq<Seq<char>>,
    rest: Seq<EventV>,
)
    ensures
        ({
            let s0 = init_model(target, config, candidates);
            let events = seq![EventV::ConnectFailed] + rest;
            let f = engine_run(s0, events);
            let t = engine_trace(s0, events);
            f.outcome == Some(Outcome::Failed(Fault::Connection)) && t.len() == events.len()
                && forall|i: int| 0 <= i < t.len() ==> t[i] == ActionV::Idle
        }),
{
    let s0 = init_model(target, config, candidates);
    let events = seq![EventV::ConnectFailed] + rest;
    let r = step_model(s0, events[0]);
    assert(r.0.phase == Phase::Finished && r.0.outcome == Some(Outcome::Failed(Fault::Connection))
        && r.1 == ActionV::Idle);
    assert(events.drop_first() =~= rest);
    lemma_finished_absorbs(r.0, rest);
    let t = engine_trace(s0, events);
    assert(t == seq![r.1] + engine_trace(r.0, rest));
    assert forall|i: int| 0 <= i < t.len() implies t[i] == ActionV::Idle by {
        if i > 0 {
            assert(t[i] == engine_trace(r.0, rest)[i - 1]);
        }
    }
}

/// Law: a target that resolves to exactly one running container is
/// attached to — the engine records that container as its execution
/// context, the context is not ephemeral, no cleanup obligation arises,
/// and the whole session never demands a container creation.
pub proof fn lemma_running_target_attaches(
    target: Seq<char>,
    config: SessionConfigV,
    candidates: Seq<Seq<char>>,
    ms: Seq<MatchV>,
    rest: Seq<EventV>,
)
    requires
        count_running(ms) == 1,
        ms.len() <= usize::MAX,
    ensures
        ({
            let s0 = init_model(target, config, candidates);
            let events = seq![EventV::Connected, EventV::ContainersFound(ms)] + rest;
            let s2 = engine_run(s0, seq![EventV::Connected, EventV::ContainersFound(ms)]);
            (forall|n: u64| resolved_kind_model(ms, n) == TargetKind::RunningContainer)
                && s2.container == Some(ms[first_running(ms)].id) && !s2.ephemeral
                && s2.obligation is None && count_creates(engine_trace(s0, events)) == 0
        }),
{
    let s0 = init_model(target, config, candidates);
    let events = seq![EventV::Connected, EventV::ContainersFound(ms)] + rest;
    let two = seq![EventV::Connected, EventV::ContainersFound(ms)];
    lemma_first_running(ms);
    let r1 = step_model(s0, EventV::Connected);
    let r2 = step_model(r1.0, EventV::ContainersFound(ms));
    assert(events[0] == EventV::Connected);
    assert(events.drop_first() =~= seq![EventV::ContainersFound(ms)] + rest);
    assert(events.drop_first()[0] == EventV::ContainersFound(ms));
    assert(events.drop_first().drop_first() =~= rest);
    assert(two[0] == EventV::Connected);
    assert(two.drop_first() =~= seq![EventV::ContainersFound(ms)]);
    assert(two.drop_first()[0] == EventV::ContainersFound(ms));
    assert(two.drop_first().drop_first() =~= Seq::<EventV>::empty());
    assert(engine_run(s0, two) == engine_run(r1.0, two.drop_first()));
    assert(engine_run(r1.0, two.drop_first()) == engine_run(r2.0, two.drop_first().drop_first()));
    assert(engine_run(s0, two) == r2.0);
    assert((first_running(ms) as usize) as int == first_running(ms));
    assert(r2.0.container == Some(ms[first_running(ms)].id));
    assert(!r2.0.ephemeral && r2.0.obligation is None);
    assert(!r2.0.create_issued && phase_rank(r2.0.phase) >= 3);
    assert(engine_inv(s0));
    lemma_step_preserves(s0, EventV::Connected);
    lemma_step_preserves(r1.0, EventV::ContainersFound(ms));
    lemma_run_properties(r2.0, rest);
    let t = engine_trace(s0, events);
    assert(t == seq![r1.1] + engine_trace(r1.0, events.drop_first()));
    assert(engine_trace(r1.0, events.drop_first()) == seq![r2.1] + engine_trace(r2.0, rest));
    lemma_count_cons(r2.1, engine_trace(r2.0, rest));
    lemma_count_cons(r1.1, engine_trace(r1.0, events.drop_first()));
    assert(count_creates(engine_trace(r2.0, rest)) == 0);
    assert(!(r1.1 is CreateContainer) && !(r2.1 is CreateContainer));
}

/// Law: a target that matches two or more containers, none of them
/// running, fails as ambiguous, and the session is inert: no container
/// is created, started, executed into, or removed — after the one
/// container query, the trace demands nothing.
pub proof fn lemma_ambiguous_is_inert(
    target: Seq<char>,
    config: SessionConfigV,
    candidates: Seq<Seq<char>>,
    ms: Seq<MatchV>,
    rest: Seq<EventV>,
)
    requires
        ms.len() >= 2,
        count_running(ms) == 0,
    ensures
        ({
            let s0 = init_model(target, config, candidates);
            let events = seq![EventV::Connected, EventV::ContainersFound(ms)] + rest;
            let f = engine_run(s0, events);
            let t = engine_trace(s0, events);
            (forall|n: u64| resolved_kind_model(ms, n) == TargetKind::Ambiguous) && f.outcome
                == Some(Outcome::Failed(Fault::ResolutionAmbiguous)) && f.ambiguous_candidates
                == ids_model(ms) && t[0]
                == ActionV::QueryContainers(target) && t.len() == events.len() && forall|i: int|
                1 <= i < t.len() ==> t[i] == ActionV::Idle
        }),
{
    let s0 = init_model(target, config, candidates);
    let events = seq![EventV::Connected, EventV::ContainersFound(ms)] + rest;
    let r1 = step_model(s0, EventV::Connected);
    let r2 = step_model(r1.0, EventV::ContainersFound(ms));
    assert(events[0] == EventV::Connected);
    assert(events.drop_first() =~= seq![EventV::ContainersFound(ms)] + rest);
    assert(events.drop_first()[0] == EventV::ContainersFound(ms));
    assert(events.drop_first().drop_first() =~= rest);
    assert(r2.0.phase == Phase::Finished && r2.0.outcome == Some(
        Outcome::Failed(Fault::ResolutionAmbiguous),
    ) && r2.1 == ActionV::Idle);
    lemma_finished_absorbs(r2.0, rest);
    assert(engine_run(s0, events) == engine_run(r1.0, events.drop_first()));
    assert(engine_run(r1.0, events.drop_first()) == engine_run(
        r2.0,
        events.drop_first().drop_first(),
    ));
    assert(engine_run(s0, events) == r2.0);
    let t = engine_trace(s0, events);
    assert(t == seq![r1.1] + engine_trace(r1.0, events.drop_first()));
    assert(engine_trace(r1.0, events.drop_first()) == seq![r2.1] + engine_trace(r2.0, rest));
    assert(t[0] == r1.1);
    assert forall|i: int| 1 <= i < t.len() implies t[i] == ActionV::Idle by {
        assert(t[i] == engine_trace(r1.0, events.drop_first())[i - 1]);
        if i > 1 {
            assert(t[i] == engine_trace(r2.0, rest)[i - 2]);
        }
    }
}

/// Law: a target that matches no container and exactly one image demands
/// exactly one container creation over the whole session, and a finished
/// session that still owes that container's cleanup has demanded its
/// removal exactly once; no session demands a second removal.
pub proof fn lemma_image_target_lifecycle(
    target: Seq<char>,
    config: SessionConfigV,
    candidates: Seq<Seq<char>>,
    image: Seq<char>,
    rest: Seq<EventV>,
)
    ensures
        ({
            let s0 = init_model(target, config, candidates);
            let events = seq![
                EventV::Connected,
                EventV::ContainersFound(Seq::empty()),
                EventV::ImagesFound(seq![image]),
            ] + rest;
            let f = engine_run(s0, events);
            let t = engine_trace(s0, events);
            resolved_kind_model(Seq::empty(), 1) == TargetKind::Image && count_creates(t) == 1
                && count_removes(t) <= 1 && ((f.phase == Phase::Finished && f.obligation is Some)
                ==> count_removes(t) == 1)
        }),
{
    let s0 = init_model(target, config, candidates);
    let events = seq![
        EventV::Connected,
        EventV::ContainersFound(Seq::empty()),
        EventV::ImagesFound(seq![image]),
    ] + rest;
    let r1 = step_model(s0, EventV::Connected);
    let r2 = step_model(r1.0, EventV::ContainersFound(Seq::empty()));
    let r3 = step_model(r2.0, EventV::ImagesFound(seq![image]));
    let e1 = events.drop_first();
    let e2 = e1.drop_first();
    let e3 = e2.drop_first();
    assert(events[0] == EventV::Connected);
    assert(e1 =~= seq![EventV::ContainersFound(Seq::empty()), EventV::ImagesFound(seq![image])] + rest);
    assert(e1[0] == EventV::ContainersFound(Seq::<MatchV>::empty()));
    assert(e2 =~= seq![EventV::ImagesFound(seq![image])] + rest);
    assert(e2[0] == EventV::ImagesFound(seq![image]));
    assert(e3 =~= rest);
    assert(r2.0.phase == Phase::QueryingImages);
    assert(r3.0.phase == Phase::Creating && r3.0.create_issued && r3.1 is CreateContainer);
    assert(engine_inv(s0));
    lemma_step_preserves(s0, EventV::Connected);
    lemma_step_preserves(r1.0, EventV::ContainersFound(Seq::empty()));
    lemma_step_preserves(r2.0, EventV::ImagesFound(seq![image]));
    lemma_run_properties(r3.0, rest);
    let t = engine_trace(s0, events);
    assert(t == seq![r1.1] + engine_trace(r1.0, e1));
    assert(engine_trace(r1.0, e1) == seq![r2.1] + engine_trace(r2.0, e2));
    assert(engine_trace(r2.0, e2) == seq![r3.1] + engine_trace(r3.0, rest));
    lemma_count_cons(r3.1, engine_trace(r3.0, rest));
    lemma_count_cons(r2.1, engine_trace(r2.0, e2));
    lemma_count_cons(r1.1, engine_trace(r1.0, e1));
    assert(engine_run(s0, events) == engine_run(r1.0, e1));
    assert(engine_run(r1.0, e1) == engine_run(r2.0, e2));
    assert(engine_run(r2.0, e2) == engine_run(r3.0, e3));
    assert(engine_run(s0, events) == engine_run(r3.0, rest));
}

} // verus!
