//! The dispatch rules of the run loop: a pure function of one event and the
//! current configuration, yielding the requests the loop makes of the
//! surrounding components. The loop owns those components; everything here
//! only decides, in order, what is asked of them.

use vstd::prelude::*;

use crate::command::Command;
use crate::command::spec_parse;
use crate::events::Event;
use crate::events::EventManager;
use crate::events::PlayerState;
use crate::events::QueueOccurrence;

verus! {

/// One request the run loop makes of a surrounding component while
/// dispatching a single event.
#[derive(Clone, Copy, PartialEq, Eq, Structural, Debug)]
pub enum Action {
    /// Store the carried status as the cached playback status.
    UpdateStatus(PlayerState),
    /// Tell the desktop-integration publisher that the status changed.
    NotifyMpris,
    /// Publish the new status and the current queue item over the
    /// control socket.
    PublishIpc(PlayerState),
    /// Advance the queue to the next item; `forced` tells a user-forced
    /// skip from the natural end of a track.
    AdvanceQueue { forced: bool },
    /// Hand the occurrence unchanged to the queue component.
    ForwardToQueue(QueueOccurrence),
    /// Start a new background playback-session worker; `resumed` tells
    /// whether any previous session state is carried over.
    RestartWorker { resumed: bool },
    /// Execute one parsed command through the command dispatcher.
    RunCommand(Command),
    /// Write a parse error for malformed control input to the log.
    LogParseError,
    /// Return to the previous queue item.
    PreviousTrack,
    /// Resume playback.
    ResumePlayback,
    /// Pause playback.
    PausePlayback,
    /// Toggle between playing and paused.
    TogglePlayback,
    /// Stop playback.
    StopPlayback,
}

/// The variant of an [`Action`], for counting what a dispatch produced.
#[derive(Clone, Copy, PartialEq, Eq, Structural, Debug)]
pub enum ActionKind {
    UpdateStatus,
    NotifyMpris,
    PublishIpc,
    AdvanceQueue,
    ForwardToQueue,
    RestartWorker,
    RunCommand,
    LogParseError,
    PreviousTrack,
    ResumePlayback,
    PausePlayback,
    TogglePlayback,
    StopPlayback,
}

pub open spec fn action_kind(a: Action) -> ActionKind {
    match a {
        Action::UpdateStatus(_) => ActionKind::UpdateStatus,
        Action::NotifyMpris => ActionKind::NotifyMpris,
        Action::PublishIpc(_) => ActionKind::PublishIpc,
        Action::AdvanceQueue { .. } => ActionKind::AdvanceQueue,
        Action::ForwardToQueue(_) => ActionKind::ForwardToQueue,
        Action::RestartWorker { .. } => ActionKind::RestartWorker,
        Action::RunCommand(_) => ActionKind::RunCommand,
        Action::LogParseError => ActionKind::LogParseError,
        Action::PreviousTrack => ActionKind::PreviousTrack,
        Action::ResumePlayback => ActionKind::ResumePlayback,
        Action::PausePlayback => ActionKind::PausePlayback,
        Action::TogglePlayback => ActionKind::TogglePlayback,
        Action::StopPlayback => ActionKind::StopPlayback,
    }
}

/// How many of the actions are of kind `k`.
pub open spec fn count_kind(actions: Seq<Action>, k: ActionKind) -> nat
    decreases actions.len(),
{
    if actions.len() == 0 {
        0
    } else {
        count_kind(actions.drop_last(), k) + if action_kind(actions.last()) == k {
            1nat
        } else {
            0nat
        }
    }
}

/// What stays fixed over one whole drain of the event buffer: which optional
/// publishers are wired in, and whether the user data (the command
/// dispatcher) has been registered with the UI runtime yet.
#[derive(Clone, Copy, PartialEq, Eq, Structural, Debug)]
pub struct DispatchContext {
    /// A desktop-integration publisher is active.
    pub mpris_active: bool,
    /// A control-socket status publisher is active.
    pub ipc_active: bool,
    /// The user data holding the command dispatcher is present.
    pub has_user_data: bool,
}

/// The requests made for one playback-status event: cache the status, notify
/// each active publisher, and advance the queue (non-forced) exactly when a
/// track just finished.
pub open spec fn player_actions(state: PlayerState, ctx: DispatchContext) -> Seq<Action> {
    seq![Action::UpdateStatus(state)] + (if ctx.mpris_active {
        seq![Action::NotifyMpris]
    } else {
        Seq::<Action>::empty()
    }) + (if ctx.ipc_active {
        seq![Action::PublishIpc(state)]
    } else {
        Seq::<Action>::empty()
    }) + (if state is FinishedTrack {
        seq![Action::AdvanceQueue { forced: false }]
    } else {
        Seq::<Action>::empty()
    })
}

/// The requests made for one line of control input: on parse failure one
/// logged error and nothing else; on success each command in input order,
/// or a silent drop where no user data is registered yet.
pub open spec fn ipc_actions(text: Seq<char>, ctx: DispatchContext) -> Seq<Action> {
    match spec_parse(text) {
        Some(cmds) => if ctx.has_user_data {
            cmds.map_values(|c: Command| Action::RunCommand(c))
        } else {
            Seq::<Action>::empty()
        },
        None => seq![Action::LogParseError],
    }
}

/// The dispatch rules: the requests made for one event.
pub open spec fn actions_for(event: Event, ctx: DispatchContext) -> Seq<Action> {
    match event {
        Event::Player(state) => player_actions(state, ctx),
        Event::Queue(occ) => seq![Action::ForwardToQueue(occ)],
        Event::SessionDied => seq![Action::RestartWorker { resumed: false }],
        Event::IpcInput(text) => ipc_actions(text@, ctx),
    }
}

/// The requests made for a whole drained buffer, event by event in buffer
/// order.
pub open spec fn dispatch_all(events: Seq<Event>, ctx: DispatchContext) -> Seq<Action>
    decreases events.len(),
{
    if events.len() == 0 {
        Seq::<Action>::empty()
    } else {
        dispatch_all(events.drop_last(), ctx) + actions_for(events.last(), ctx)
    }
}

/// Dispatch one event, returning exactly the requests of [`actions_for`],
/// in order.
pub fn dispatch_event(event: &Event, ctx: DispatchContext) -> (out: Vec<Action>)
    ensures
        out@ == actions_for(*event, ctx),
{
    match event {
        Event::Player(state) => {
            let mut out: Vec<Action> = Vec::new();
            out.push(Action::UpdateStatus(*state));
            if ctx.mpris_active {
                out.push(Action::NotifyMpris);
            }
            if ctx.ipc_active {
                out.push(Action::PublishIpc(*state));
            }
            if *state == PlayerState::FinishedTrack {
                out.push(Action::AdvanceQueue { forced: false });
            }
            proof {
                assert(out@ =~= player_actions(*state, ctx));
            }
            out
        },
        Event::Queue(occ) => {
            let mut out: Vec<Action> = Vec::new();
            out.push(Action::ForwardToQueue(*occ));
            proof {
                assert(out@ =~= seq![Action::ForwardToQueue(*occ)]);
            }
            out
        },
        Event::SessionDied => {
            let mut out: Vec<Action> = Vec::new();
            out.push(Action::RestartWorker { resumed: false });
            proof {
                assert(out@ =~= seq![Action::RestartWorker { resumed: false }]);
            }
            out
        },
        Event::IpcInput(text) => {
            match crate::command::parse(text.as_str()) {
                Ok(cmds) => {
                    let mut out: Vec<Action> = Vec::new();
                    if ctx.has_user_data {
                        let mut i: usize = 0;
                        while i < cmds.len()
                            invariant
                                i <= cmds.len(),
                                out@.len() == i,
                                forall|k: int|
                                    0 <= k < i ==> out@[k] == Action::RunCommand(cmds@[k]),
                            decreases cmds.len() - i,
                        {
                            out.push(Action::RunCommand(cmds[i]));
                            i += 1;
                        }
                    }
                    proof {
                        assert(out@ =~= ipc_actions(text@, ctx));
                    }
                    out
                },
                Err(_) => {
                    let mut out: Vec<Action> = Vec::new();
                    out.push(Action::LogParseError);
                    proof {
                        assert(out@ =~= ipc_actions(text@, ctx));
                    }
                    out
                },
            }
        },
    }
}

/// Dispatch every event of one drained buffer, in buffer order.
pub fn dispatch_events(events: &Vec<Event>, ctx: DispatchContext) -> (out: Vec<Action>)
    ensures
        out@ == dispatch_all(events@, ctx),
{
    let mut out: Vec<Action> = Vec::new();
    let mut i: usize = 0;
    while i < events.len()
        invariant
            i <= events.len(),
            out@ == dispatch_all(events@.take(i as int), ctx),
        decreases events.len() - i,
    {
        let mut acts = dispatch_event(&events[i], ctx);
        out.append(&mut acts);
        proof {
            assert(events@.take(i + 1 as int).drop_last() =~= events@.take(i as int));
            assert(events@.take(i + 1 as int).last() == events@[i as int]);
        }
        i += 1;
    }
    proof {
        assert(events@.take(events.len() as int) =~= events@);
    }
    out
}

/// Drain the event buffer and dispatch everything it held, in arrival
/// order; the buffer is left empty.
pub fn drain_and_dispatch(manager: &mut EventManager, ctx: DispatchContext) -> (out: Vec<Action>)
    ensures
        out@ == dispatch_all(old(manager)@, ctx),
        final(manager)@ == Seq::<Event>::empty(),
{
    let events = manager.drain();
    dispatch_events(&events, ctx)
}

pub proof fn lemma_count_kind_add(a: Seq<Action>, b: Seq<Action>, k: ActionKind)
    ensures
        count_kind(a + b, k) == count_kind(a, k) + count_kind(b, k),
    decreases b.len(),
{
    if b.len() == 0 {
        assert(a + b =~= a);
    } else {
        assert((a + b).drop_last() =~= a + b.drop_last());
        assert((a + b).last() == b.last());
        lemma_count_kind_add(a, b.drop_last(), k);
    }
}

proof fn lemma_count_kind_singleton(x: Action, k: ActionKind)
    ensures
        count_kind(seq![x], k) == if action_kind(x) == k {
            1nat
        } else {
            0nat
        },
{
    assert(seq![x].drop_last() =~= Seq::<Action>::empty());
    assert(count_kind(Seq::<Action>::empty(), k) == 0);
    assert(seq![x].last() == x);
}

/// The actions of events dispatched together never interleave: a drained
/// buffer is dispatched as the actions of its first `i` events followed by
/// the actions of the rest, for every split point `i` — dispatch order
/// equals send order.
pub proof fn lemma_dispatch_all_concat(a: Seq<Event>, b: Seq<Event>, ctx: DispatchContext)
    ensures
        dispatch_all(a + b, ctx) == dispatch_all(a, ctx) + dispatch_all(b, ctx),
    decreases b.len(),
{
    if b.len() == 0 {
        assert(a + b =~= a);
        assert(dispatch_all(a, ctx) + dispatch_all(b, ctx) =~= dispatch_all(a, ctx));
    } else {
        assert((a + b).drop_last() =~= a + b.drop_last());
        assert((a + b).last() == b.last());
        lemma_dispatch_all_concat(a, b.drop_last(), ctx);
        assert(dispatch_all(a, ctx) + dispatch_all(b.drop_last(), ctx) + actions_for(
            b.last(),
            ctx,
        ) =~= dispatch_all(a, ctx) + (dispatch_all(b.drop_last(), ctx) + actions_for(
            b.last(),
            ctx,
        )));
    }
}

/// Dispatch order equals send order: cutting the sent events anywhere cuts
/// the dispatched actions at the matching point.
pub proof fn lemma_dispatch_order(events: Seq<Event>, i: int, ctx: DispatchContext)
    requires
        0 <= i <= events.len(),
    ensures
        dispatch_all(events, ctx) == dispatch_all(events.take(i), ctx) + dispatch_all(
            events.skip(i),
            ctx,
        ),
{
    lemma_dispatch_all_concat(events.take(i), events.skip(i), ctx);
    assert(events.take(i) + events.skip(i) =~= events);
}

/// A finished track advances the queue exactly once, never forced; any
/// other playback status advances it not at all.
pub proof fn lemma_finished_track_advances_once(state: PlayerState, ctx: DispatchContext)
    ensures
        count_kind(actions_for(Event::Player(state), ctx), ActionKind::AdvanceQueue) == (
        if state is FinishedTrack {
            1nat
        } else {
            0nat
        }),
        forall|i: int|
            0 <= i < actions_for(Event::Player(state), ctx).len() ==> (actions_for(
                Event::Player(state),
                ctx,
            )[i] is AdvanceQueue ==> actions_for(Event::Player(state), ctx)[i]
                == (Action::AdvanceQueue { forced: false })),
{
    let s1 = seq![Action::UpdateStatus(state)];
    let s2 = if ctx.mpris_active {
        seq![Action::NotifyMpris]
    } else {
        Seq::<Action>::empty()
    };
    let s3 = if ctx.ipc_active {
        seq![Action::PublishIpc(state)]
    } else {
        Seq::<Action>::empty()
    };
    let s4 = if state is FinishedTrack {
        seq![Action::AdvanceQueue { forced: false }]
    } else {
        Seq::<Action>::empty()
    };
    lemma_count_kind_add(s1 + s2 + s3, s4, ActionKind::AdvanceQueue);
    lemma_count_kind_add(s1 + s2, s3, ActionKind::AdvanceQueue);
    lemma_count_kind_add(s1, s2, ActionKind::AdvanceQueue);
    lemma_count_kind_singleton(Action::UpdateStatus(state), ActionKind::AdvanceQueue);
    if ctx.mpris_active {
        lemma_count_kind_singleton(Action::NotifyMpris, ActionKind::AdvanceQueue);
    }
    if ctx.ipc_active {
        lemma_count_kind_singleton(Action::PublishIpc(state), ActionKind::AdvanceQueue);
    }
    if state is FinishedTrack {
        lemma_count_kind_singleton(
            Action::AdvanceQueue { forced: false },
            ActionKind::AdvanceQueue,
        );
    }
}

/// A dead session restarts the worker exactly once, resuming no session,
/// whatever publishers are wired in and whether a worker is alive.
pub proof fn lemma_session_died_restarts_once(ctx: DispatchContext)
    ensures
        actions_for(Event::SessionDied, ctx) =~= seq![Action::RestartWorker { resumed: false }],
        count_kind(actions_for(Event::SessionDied, ctx), ActionKind::RestartWorker) == 1,
{
    lemma_count_kind_singleton(
        Action::RestartWorker { resumed: false },
        ActionKind::RestartWorker,
    );
}

/// Control input while no user data is registered dispatches no commands;
/// where the input parses, nothing is logged either — it is dropped in
/// silence.
pub proof fn lemma_ipc_without_user_data(text: Seq<char>, ctx: DispatchContext)
    requires
        !ctx.has_user_data,
    ensures
        count_kind(ipc_actions(text, ctx), ActionKind::RunCommand) == 0,
        spec_parse(text) is Some ==> ipc_actions(text, ctx) =~= Seq::<Action>::empty(),
{
    if spec_parse(text) is Some {
    } else {
        lemma_count_kind_singleton(Action::LogParseError, ActionKind::RunCommand);
    }
}

} // verus!
