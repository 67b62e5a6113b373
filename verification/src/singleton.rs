//! Several daemons on one bus, and why at most one of them serves.
//!
//! The bus decides who owns the well-known name. What it promises is stated
//! here as [`bus_is_exclusive`]: it grants the name to a daemon only while no
//! other daemon holds it. Under that promise the daemons, each following
//! [`daemon_step`], never serve two at a time, and a daemon that starts while
//! another holds the name gives up.

use crate::daemon::{
    arbitrate, daemon_step, grants_name, lemma_step_preserves_wf, DaemonActionView,
    DaemonEventView, DaemonModel, DaemonState, NAME_REPLY_EXISTS, NAME_REPLY_IN_QUEUE,
};
use crate::wire::{first_number, ArgView};
use vstd::prelude::*;

verus! {

/// Whether the daemon `d` holds the well-known name: it was granted a lease
/// and its process has not ended.
pub open spec fn holds_name<R>(d: DaemonModel<R>) -> bool {
    d.lease is Some && d.state != DaemonState::Terminated
}

/// Whether every daemon of `world` is well-formed.
pub open spec fn all_wf<R>(world: Seq<DaemonModel<R>>) -> bool {
    forall|i: int| 0 <= i < world.len() ==> (#[trigger] world[i]).wf()
}

/// Whether no two daemons of `world` hold the name.
pub open spec fn exclusive<R>(world: Seq<DaemonModel<R>>) -> bool {
    forall|i: int, j: int|
        0 <= i < world.len() && 0 <= j < world.len() && i != j ==> !(holds_name(#[trigger] world[i])
            && holds_name(#[trigger] world[j]))
}

/// Whether no two daemons of `world` serve.
pub open spec fn one_serves<R>(world: Seq<DaemonModel<R>>) -> bool {
    forall|i: int, j: int|
        0 <= i < world.len() && 0 <= j < world.len() && i != j ==> !((#[trigger] world[i]).state
            == DaemonState::Serving && (#[trigger] world[j]).state == DaemonState::Serving)
}

/// What the bus promises of the event `event` that it sends to the daemon
/// `who`: where the event grants the name, no other daemon holds it.
pub open spec fn bus_is_exclusive<R>(
    world: Seq<DaemonModel<R>>,
    who: int,
    event: DaemonEventView<R>,
) -> bool {
    grants_name(event) ==> forall|j: int|
        0 <= j < world.len() && j != who ==> !holds_name(#[trigger] world[j])
}

/// The world after the daemon `who` has taken `event`.
pub open spec fn world_step<R>(
    world: Seq<DaemonModel<R>>,
    who: int,
    event: DaemonEventView<R>,
) -> Seq<DaemonModel<R>> {
    world.update(who, daemon_step(world[who], event).0)
}

/// A world of `n` daemons that have done nothing yet.
pub open spec fn fresh_world<R>(n: nat) -> Seq<DaemonModel<R>> {
    Seq::new(n, |i: int| DaemonModel::<R>::initial())
}

/// The world after each of `steps`, in order; a step names a daemon and what
/// happened to it.
pub open spec fn world_run<R>(
    world: Seq<DaemonModel<R>>,
    steps: Seq<(int, DaemonEventView<R>)>,
) -> Seq<DaemonModel<R>>
    decreases steps.len(),
{
    if steps.len() == 0 {
        world
    } else {
        world_step(world_run(world, steps.drop_last()), steps.last().0, steps.last().1)
    }
}

/// Whether each of `steps` names a daemon of the world and brings an event
/// that the bus's promise allows at that moment.
pub open spec fn bus_keeps_its_promise<R>(
    world: Seq<DaemonModel<R>>,
    steps: Seq<(int, DaemonEventView<R>)>,
) -> bool
    decreases steps.len(),
{
    if steps.len() == 0 {
        true
    } else {
        &&& bus_keeps_its_promise(world, steps.drop_last())
        &&& 0 <= steps.last().0 < world.len()
        &&& bus_is_exclusive(
            world_run(world, steps.drop_last()),
            steps.last().0,
            steps.last().1,
        )
    }
}

/// A daemon comes to hold the name only by an event that grants it.
pub proof fn lemma_name_is_held_by_grant<R>(pre: DaemonModel<R>, event: DaemonEventView<R>)
    requires
        !holds_name(pre),
        pre.wf(),
    ensures
        holds_name(daemon_step(pre, event).0) ==> grants_name(event),
{
}

/// One step of one daemon, allowed by the bus's promise, leaves the world
/// with at most one holder of the name.
pub proof fn lemma_step_keeps_exclusive<R>(
    world: Seq<DaemonModel<R>>,
    who: int,
    event: DaemonEventView<R>,
)
    requires
        all_wf(world),
        exclusive(world),
        0 <= who < world.len(),
        bus_is_exclusive(world, who, event),
    ensures
        all_wf(world_step(world, who, event)),
        exclusive(world_step(world, who, event)),
        world_step(world, who, event).len() == world.len(),
{
    let next = world_step(world, who, event);
    lemma_step_preserves_wf(world[who], event);
    assert forall|i: int| 0 <= i < next.len() implies (#[trigger] next[i]).wf() by {
        if i != who {
            assert(next[i] == world[i]);
        }
    }
    assert forall|i: int, j: int|
        0 <= i < next.len() && 0 <= j < next.len() && i != j implies !(holds_name(
        #[trigger] next[i],
    ) && holds_name(#[trigger] next[j])) by {
        if i != who && j != who {
            assert(next[i] == world[i]);
            assert(next[j] == world[j]);
        } else {
            let other = if i == who {
                j
            } else {
                i
            };
            assert(next[other] == world[other]);
            if holds_name(next[who]) && holds_name(world[other]) {
                if holds_name(world[who]) {
                    assert(!(holds_name(world[who]) && holds_name(world[other])));
                } else {
                    lemma_name_is_held_by_grant(world[who], event);
                    assert(!holds_name(world[other]));
                }
            }
        }
    }
}

/// On a bus that keeps its promise, whatever happens to however many daemons
/// from their start, at most one of them holds the name and at most one of
/// them serves.
pub proof fn lemma_at_most_one_daemon_serves<R>(n: nat, steps: Seq<(int, DaemonEventView<R>)>)
    requires
        bus_keeps_its_promise(fresh_world::<R>(n), steps),
    ensures
        world_run(fresh_world::<R>(n), steps).len() == n,
        all_wf(world_run(fresh_world::<R>(n), steps)),
        exclusive(world_run(fresh_world::<R>(n), steps)),
        one_serves(world_run(fresh_world::<R>(n), steps)),
    decreases steps.len(),
{
    let start = fresh_world::<R>(n);
    if steps.len() > 0 {
        lemma_at_most_one_daemon_serves::<R>(n, steps.drop_last());
        lemma_step_keeps_exclusive(
            world_run(start, steps.drop_last()),
            steps.last().0,
            steps.last().1,
        );
    }
    let end = world_run(start, steps);
    assert forall|i: int, j: int|
        0 <= i < end.len() && 0 <= j < end.len() && i != j implies !((#[trigger] end[i]).state
        == DaemonState::Serving && (#[trigger] end[j]).state == DaemonState::Serving) by {
        if end[i].state == DaemonState::Serving && end[j].state == DaemonState::Serving {
            assert(end[i].wf() && end[j].wf());
            assert(holds_name(end[i]) && holds_name(end[j]));
        }
    }
}

/// A daemon that asks for the name while another holds it never comes to hold
/// it: whatever the bus answers within its promise, the daemon gives up. It
/// gives up with a conflict exactly when the bus reports the other owner.
pub proof fn lemma_second_daemon_gives_up<R>(
    world: Seq<DaemonModel<R>>,
    holder: int,
    who: int,
    body: Seq<ArgView>,
)
    requires
        0 <= holder < world.len(),
        0 <= who < world.len(),
        holder != who,
        holds_name(world[holder]),
        world[who].state == DaemonState::NameRequested,
        world[who].lease is None,
        bus_is_exclusive(world, who, DaemonEventView::NameReplied(body)),
    ensures
        arbitrate(body) is Err,
        daemon_step(world[who], DaemonEventView::NameReplied(body)) == (
            world[who].terminated(),
            DaemonActionView::Abort(arbitrate(body)->Err_0),
        ),
        !holds_name(world_step(world, who, DaemonEventView::NameReplied(body))[who]),
        arbitrate(body)->Err_0.is_conflict() <==> (first_number(body) == Some(NAME_REPLY_IN_QUEUE)
            || first_number(body) == Some(NAME_REPLY_EXISTS)),
{
    let event = DaemonEventView::<R>::NameReplied(body);
    if grants_name(event) {
        assert(!holds_name(world[holder]));
    }
}

} // verus!
