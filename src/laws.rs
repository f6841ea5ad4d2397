use vstd::prelude::*;

use crate::model::{exit_notice, ExitOutcome, Label, Notice, TrayCommand};
use crate::supervisor::{
    held_token, kill_prev_actions, spawn_failed_spec, spawned_spec, start_spec, step_spec,
    stop_spec, token_after, Action, Event, Phase, SupervisorView,
};

verus! {

/// The tokens of the processes that a phase holds: none, or one.
pub open spec fn held_set(p: Phase) -> Set<u64> {
    match held_token(p) {
        Some(t) => set![t],
        None => Set::empty(),
    }
}

/// The tokens that a list of actions kills.
pub open spec fn killed_by(acts: Seq<Action>) -> Set<u64> {
    Set::new(|t: u64| acts.contains(Action::Kill(t)))
}

/// The processes alive after an event, when the host carries out the
/// actions that answered it: a successful spawn adds one, an ended wait
/// removes one, and each kill removes its target.
pub open spec fn live_after(live: Set<u64>, e: Event, acts: Seq<Action>) -> Set<u64> {
    let touched = match e {
        Event::Spawned(t) => live.insert(t),
        Event::Exited(t, _) => live.remove(t),
        _ => live,
    };
    touched.difference(killed_by(acts))
}

/// Runs a sequence of events from a state and a set of live processes.
pub open spec fn run(v: SupervisorView, live: Set<u64>, events: Seq<Event>) -> (
    SupervisorView,
    Set<u64>,
)
    decreases events.len(),
{
    if events.len() == 0 {
        (v, live)
    } else {
        let (v1, acts) = step_spec(v, events[0]);
        run(v1, live_after(live, events[0], acts), events.drop_first())
    }
}

proof fn lemma_kill_prev_kills_held(p: Phase)
    ensures
        forall|t: u64| held_token(p) == Some(t) ==> kill_prev_actions(p).contains(Action::Kill(t)),
{
    if let Some(t) = held_token(p) {
        assert(kill_prev_actions(p)[0] == Action::Kill(t));
    }
}

/// One event keeps every live process among those the supervisor holds.
pub proof fn lemma_step_keeps_live_held(v: SupervisorView, live: Set<u64>, e: Event)
    requires
        live.subset_of(held_set(v.phase)),
    ensures
        ({
            let (v1, acts) = step_spec(v, e);
            live_after(live, e, acts).subset_of(held_set(v1.phase))
        }),
{
    let (v1, acts) = step_spec(v, e);
    lemma_kill_prev_kills_held(v.phase);
    match e {
        Event::Command(c) => {
            let kills = kill_prev_actions(v.phase);
            if let Some(t) = held_token(v.phase) {
                assert(kills.contains(Action::Kill(t)));
                assert(acts[0] == kills[0]);
                assert(acts.contains(Action::Kill(t)));
            }
            assert(live_after(live, e, acts) =~= Set::empty());
        },
        Event::Spawned(t) => {
            if v.phase != Phase::Launching(t) {
                assert(acts[0] == Action::Kill(t));
            }
        },
        _ => {},
    }
}

/// Whatever sequence of events comes, the supervisor never has two live
/// processes: every live process is the one it holds.
pub proof fn lemma_at_most_one_live(v: SupervisorView, live: Set<u64>, events: Seq<Event>)
    requires
        live.subset_of(held_set(v.phase)),
    ensures
        ({
            let (v2, live2) = run(v, live, events);
            &&& live2.subset_of(held_set(v2.phase))
            &&& live2.finite()
            &&& live2.len() <= 1
        }),
    decreases events.len(),
{
    if events.len() == 0 {
        vstd::set_lib::lemma_len_subset(live, held_set(v.phase));
    } else {
        lemma_step_keeps_live_held(v, live, events[0]);
        let (v1, acts) = step_spec(v, events[0]);
        lemma_at_most_one_live(v1, live_after(live, events[0], acts), events.drop_first());
    }
}

/// A stop when nothing is held kills nothing, notifies nothing, and only
/// sets the label to start.
pub proof fn lemma_stop_when_idle(v: SupervisorView)
    requires
        held_token(v.phase).is_none(),
    ensures
        stop_spec(v).1 == seq![Action::SetLabel(Label::Start)],
        stop_spec(v).0.label == Label::Start,
        held_token(stop_spec(v).0.phase).is_none(),
{
    assert(stop_spec(v).1 =~= seq![Action::SetLabel(Label::Start)]);
}

/// Two starts in a row, each spawn succeeding, leave exactly one live
/// process: the second, under a token other than the first's.
pub proof fn lemma_start_twice(v: SupervisorView, live: Set<u64>)
    requires
        v.jar.is_some(),
        live.subset_of(held_set(v.phase)),
    ensures
        ({
            let t1 = v.next_token;
            let t2 = token_after(t1);
            let events = seq![
                Event::Command(TrayCommand::Start),
                Event::Spawned(t1),
                Event::Command(TrayCommand::Start),
                Event::Spawned(t2),
            ];
            let (v4, live4) = run(v, live, events);
            &&& t1 != t2
            &&& v4.phase == Phase::Running(t2)
            &&& live4 == set![t2]
        }),
{
    let t1 = v.next_token;
    let t2 = token_after(t1);
    let events = seq![
        Event::Command(TrayCommand::Start),
        Event::Spawned(t1),
        Event::Command(TrayCommand::Start),
        Event::Spawned(t2),
    ];
    lemma_kill_prev_kills_held(v.phase);
    let (v1, a1) = step_spec(v, events[0]);
    let l1 = live_after(live, events[0], a1);
    if let Some(t) = held_token(v.phase) {
        assert(a1[0] == Action::Kill(t));
    }
    assert(l1 =~= Set::empty());
    let (v2, a2) = step_spec(v1, events[1]);
    let l2 = live_after(l1, events[1], a2);
    assert(!a2.contains(Action::Kill(t1)));
    assert(l2 =~= set![t1]);
    let (v3, a3) = step_spec(v2, events[2]);
    let l3 = live_after(l2, events[2], a3);
    assert(a3[0] == Action::Kill(t1));
    assert(l3 =~= Set::empty());
    let (v4, a4) = step_spec(v3, events[3]);
    let l4 = live_after(l3, events[3], a4);
    assert(!a4.contains(Action::Kill(t2)));
    assert(l4 =~= set![t2]);
    let e1 = events.drop_first();
    let e2 = e1.drop_first();
    let e3 = e2.drop_first();
    assert(e1[0] == events[1]);
    assert(e2[0] == events[2]);
    assert(e3[0] == events[3]);
    let e4 = e3.drop_first();
    assert(e4.len() == 0);
    assert(run(v4, l4, e4) == (v4, l4));
    assert(run(v3, l3, e3) == run(v4, l4, e4));
    assert(run(v2, l2, e2) == run(v3, l3, e3));
    assert(run(v1, l1, e1) == run(v2, l2, e2));
    assert(run(v, live, events) == run(v1, l1, e1));
}

/// A start whose spawn cannot be made, or fails, leaves nothing held and
/// nothing live, and tells the user once.
pub proof fn lemma_spawn_failure_holds_nothing(v: SupervisorView, live: Set<u64>)
    requires
        live.subset_of(held_set(v.phase)),
    ensures
        ({
            let (v1, a1) = start_spec(v);
            let l1 = live_after(live, Event::Command(TrayCommand::Start), a1);
            let (v2, a2) = spawn_failed_spec(v1, v.next_token);
            &&& l1 == Set::<u64>::empty()
            &&& v.jar.is_none() ==> held_token(v1.phase).is_none() && a1.last() == Action::Notify(
                Notice::SpawnFailed,
            )
            &&& v.jar.is_some() ==> held_token(v2.phase).is_none() && a2 == seq![
                Action::Notify(Notice::SpawnFailed),
            ]
        }),
{
    lemma_step_keeps_live_held(v, live, Event::Command(TrayCommand::Start));
    let (v1, a1) = start_spec(v);
    assert(live_after(live, Event::Command(TrayCommand::Start), a1) =~= Set::empty());
}

/// The end of a wait gives exactly one notice, fixed by the outcome alone:
/// a clean exit or a forced end informs, an error code or a failed wait is
/// an error. The label stays as it was, and only the process that ended is
/// forgotten.
pub proof fn lemma_exit_one_notice(v: SupervisorView, t: u64, o: ExitOutcome)
    ensures
        ({
            let (v1, acts) = step_spec(v, Event::Exited(t, o));
            &&& acts == seq![Action::Notify(exit_notice(o))]
            &&& v1.label == v.label
            &&& v1.phase == (if v.phase == Phase::Running(t) {
                Phase::Idle
            } else {
                v.phase
            })
        }),
{
}

} // verus!
