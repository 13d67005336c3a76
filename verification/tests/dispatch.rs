use event_bridge::Action;
use event_bridge::Command;
use event_bridge::DispatchContext;
use event_bridge::Event;
use event_bridge::EventManager;
use event_bridge::PlayerState;
use event_bridge::QueueOccurrence;
use event_bridge::dispatch_event;
use event_bridge::drain_and_dispatch;

fn bare_ctx() -> DispatchContext {
    DispatchContext {
        mpris_active: false,
        ipc_active: false,
        has_user_data: true,
    }
}

fn full_ctx() -> DispatchContext {
    DispatchContext {
        mpris_active: true,
        ipc_active: true,
        has_user_data: true,
    }
}

#[test]
fn player_event_updates_status() {
    let out = dispatch_event(&Event::Player(PlayerState::Playing), bare_ctx());
    assert_eq!(out, vec![Action::UpdateStatus(PlayerState::Playing)]);
}

#[test]
fn finished_track_advances_queue_exactly_once_non_forced() {
    let out = dispatch_event(&Event::Player(PlayerState::FinishedTrack), bare_ctx());
    assert_eq!(
        out,
        vec![
            Action::UpdateStatus(PlayerState::FinishedTrack),
            Action::AdvanceQueue { forced: false },
        ]
    );
}

#[test]
fn other_player_states_never_advance_queue() {
    for state in [
        PlayerState::Playing,
        PlayerState::Paused,
        PlayerState::Stopped,
    ] {
        let out = dispatch_event(&Event::Player(state), full_ctx());
        assert!(
            out.iter()
                .all(|a| !matches!(a, Action::AdvanceQueue { .. }))
        );
    }
}

#[test]
fn player_event_notifies_active_publishers_in_order() {
    let out = dispatch_event(&Event::Player(PlayerState::FinishedTrack), full_ctx());
    assert_eq!(
        out,
        vec![
            Action::UpdateStatus(PlayerState::FinishedTrack),
            Action::NotifyMpris,
            Action::PublishIpc(PlayerState::FinishedTrack),
            Action::AdvanceQueue { forced: false },
        ]
    );
}

#[test]
fn queue_occurrence_forwarded_unchanged() {
    let occ = QueueOccurrence { id: 7 };
    let out = dispatch_event(&Event::Queue(occ), bare_ctx());
    assert_eq!(out, vec![Action::ForwardToQueue(occ)]);
}

#[test]
fn session_died_restarts_worker_exactly_once_without_resume() {
    for ctx in [bare_ctx(), full_ctx()] {
        let out = dispatch_event(&Event::SessionDied, ctx);
        assert_eq!(out, vec![Action::RestartWorker { resumed: false }]);
    }
}

#[test]
fn bogus_ipc_input_logs_one_error_and_dispatches_nothing() {
    let out = dispatch_event(&Event::IpcInput(String::from("bogus!!")), bare_ctx());
    assert_eq!(out, vec![Action::LogParseError]);
}

#[test]
fn ipc_input_dispatches_commands_in_order() {
    let out = dispatch_event(&Event::IpcInput(String::from("next\npause")), bare_ctx());
    assert_eq!(
        out,
        vec![
            Action::RunCommand(Command::Next),
            Action::RunCommand(Command::Pause),
        ]
    );
}

#[test]
fn ipc_input_without_user_data_is_dropped_in_silence() {
    let ctx = DispatchContext {
        mpris_active: false,
        ipc_active: false,
        has_user_data: false,
    };
    let out = dispatch_event(&Event::IpcInput(String::from("next\npause")), ctx);
    assert_eq!(out, Vec::new());
}

#[test]
fn malformed_ipc_input_logs_even_without_user_data() {
    let ctx = DispatchContext {
        mpris_active: false,
        ipc_active: false,
        has_user_data: false,
    };
    let out = dispatch_event(&Event::IpcInput(String::from("bogus!!")), ctx);
    assert_eq!(out, vec![Action::LogParseError]);
}

#[test]
fn drained_events_dispatch_in_send_order() {
    let mut manager = EventManager::new();
    manager.send(Event::SessionDied);
    manager.send(Event::Queue(QueueOccurrence { id: 1 }));
    manager.send(Event::Player(PlayerState::Paused));
    let out = drain_and_dispatch(&mut manager, bare_ctx());
    assert_eq!(
        out,
        vec![
            Action::RestartWorker { resumed: false },
            Action::ForwardToQueue(QueueOccurrence { id: 1 }),
            Action::UpdateStatus(PlayerState::Paused),
        ]
    );
}

#[test]
fn playing_then_finished_updates_twice_advances_once_in_order() {
    let mut manager = EventManager::new();
    manager.send(Event::Player(PlayerState::Playing));
    manager.send(Event::Player(PlayerState::FinishedTrack));
    let out = drain_and_dispatch(&mut manager, bare_ctx());
    assert_eq!(
        out,
        vec![
            Action::UpdateStatus(PlayerState::Playing),
            Action::UpdateStatus(PlayerState::FinishedTrack),
            Action::AdvanceQueue { forced: false },
        ]
    );
}
