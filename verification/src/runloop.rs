//! One iteration of the application run loop: a UI step, then a drain of the
//! event buffer, then the dispatch of every drained event — with parsed
//! commands executed through the command dispatcher on the spot, as the loop
//! does, and every request to a surrounding component handed outward.

use vstd::prelude::*;

use crate::command::Command;
use crate::dispatch::Action;
use crate::dispatch::DispatchContext;
use crate::dispatch::dispatch_all;
use crate::dispatch::drain_and_dispatch;
use crate::events::Event;
use crate::events::EventManager;
use crate::ui::UiCore;
use crate::ui::command_effects;
use crate::ui::running_after;

verus! {

/// What one dispatched action hands outward: a command is executed by the
/// dispatcher where user data is registered (its effects stand in its
/// place), and every other action is itself the request.
pub open spec fn effects_of_action(a: Action, has_user_data: bool) -> Seq<Action> {
    match a {
        Action::RunCommand(c) => if has_user_data {
            command_effects(c)
        } else {
            Seq::<Action>::empty()
        },
        _ => seq![a],
    }
}

/// Everything a dispatched action sequence hands outward, in order.
pub open spec fn outward_effects(actions: Seq<Action>, has_user_data: bool) -> Seq<Action>
    decreases actions.len(),
{
    if actions.len() == 0 {
        Seq::<Action>::empty()
    } else {
        outward_effects(actions.drop_last(), has_user_data) + effects_of_action(
            actions.last(),
            has_user_data,
        )
    }
}

/// Whether executing the dispatched actions runs the quit command — the one
/// way dispatch itself ends the loop.
pub open spec fn quit_executed(actions: Seq<Action>, has_user_data: bool) -> bool {
    has_user_data && exists|i: int|
        0 <= i < actions.len() && actions[i] == Action::RunCommand(Command::Quit)
}

/// One iteration of the run loop.
///
/// First one UI step (executing, in order, every callback scheduled since
/// the previous step), then one drain of the event buffer, then the dispatch
/// of each drained event in arrival order. Parsed commands are executed
/// through the command dispatcher at their place in that order; the
/// remaining requests are returned, in order, for the owning components.
/// The runtime stops exactly through a quit callback or a quit command.
pub fn run_iteration(
    ui: &mut UiCore,
    events: &mut EventManager,
    mpris_active: bool,
    ipc_active: bool,
) -> (effects: Vec<Action>)
    requires
        old(ui).running,
        old(ui).steps < u64::MAX,
    ensures
        final(ui).executed@ == old(ui).executed@ + old(ui).pending@,
        final(ui).pending@ == Seq::<crate::ui::UiCallback>::empty(),
        final(ui).steps == old(ui).steps + 1,
        final(ui).user_data == old(ui).user_data,
        final(events)@ == Seq::<Event>::empty(),
        effects@ == outward_effects(
            dispatch_all(
                old(events)@,
                (DispatchContext {
                    mpris_active,
                    ipc_active,
                    has_user_data: old(ui).user_data is Some,
                }),
            ),
            old(ui).user_data is Some,
        ),
        final(ui).running == (running_after(
            old(ui).running,
            old(ui).user_data is Some,
            old(ui).pending@,
        ) && !quit_executed(
            dispatch_all(
                old(events)@,
                (DispatchContext {
                    mpris_active,
                    ipc_active,
                    has_user_data: old(ui).user_data is Some,
                }),
            ),
            old(ui).user_data is Some,
        )),
{
    ui.step();
    let has_user_data = ui.user_data.is_some();
    let ctx = DispatchContext { mpris_active, ipc_active, has_user_data };
    let actions = drain_and_dispatch(events, ctx);
    let ghost running_after_step = ui.running;
    let mut effects: Vec<Action> = Vec::new();
    let mut i: usize = 0;
    while i < actions.len()
        invariant
            i <= actions.len(),
            effects@ == outward_effects(actions@.take(i as int), has_user_data),
            ui.running == (running_after_step && !quit_executed(
                actions@.take(i as int),
                has_user_data,
            )),
            has_user_data == (ui.user_data is Some),
            ui.executed@ == old(ui).executed@ + old(ui).pending@,
            ui.pending@ == Seq::<crate::ui::UiCallback>::empty(),
            ui.steps == old(ui).steps + 1,
            ui.user_data == old(ui).user_data,
        decreases actions.len() - i,
    {
        let a = actions[i];
        proof {
            assert(actions@.take(i + 1 as int).drop_last() =~= actions@.take(i as int));
            assert(actions@.take(i + 1 as int).last() == actions@[i as int]);
            assert(quit_executed(actions@.take(i + 1 as int), has_user_data) == (quit_executed(
                actions@.take(i as int),
                has_user_data,
            ) || (has_user_data && actions@[i as int] == Action::RunCommand(Command::Quit)))) by {
                let t = actions@.take(i + 1 as int);
                let p = actions@.take(i as int);
                if quit_executed(p, has_user_data) {
                    let w = choose|w: int|
                        0 <= w < p.len() && p[w] == Action::RunCommand(Command::Quit);
                    assert(t[w] == Action::RunCommand(Command::Quit));
                }
                if has_user_data && actions@[i as int] == Action::RunCommand(Command::Quit) {
                    assert(t[i as int] == Action::RunCommand(Command::Quit));
                }
                if quit_executed(t, has_user_data) {
                    let w = choose|w: int|
                        0 <= w < t.len() && t[w] == Action::RunCommand(Command::Quit);
                    if w < i {
                        assert(p[w] == Action::RunCommand(Command::Quit));
                    }
                }
            }
        }
        match a {
            Action::RunCommand(c) => {
                let manager = match &ui.user_data {
                    Some(data) => Some(data.cmd),
                    None => None,
                };
                match manager {
                    Some(m) => {
                        let mut fx = m.handle(c, &mut ui.running);
                        effects.append(&mut fx);
                    },
                    None => {},
                }
            },
            _ => {
                effects.push(a);
            },
        }
        i += 1;
    }
    proof {
        assert(actions@.take(actions.len() as int) =~= actions@);
    }
    effects
}

} // verus!
