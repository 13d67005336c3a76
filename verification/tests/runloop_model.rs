use event_bridge::Action;
use event_bridge::CommandManager;
use event_bridge::Event;
use event_bridge::EventManager;
use event_bridge::PlayerState;
use event_bridge::SIGTERM;
use event_bridge::UiCore;
use event_bridge::UserDataInner;
use event_bridge::on_termination_signal;
use event_bridge::run_iteration;

fn fresh() -> (UiCore, EventManager) {
    let ui = UiCore::new(Some(UserDataInner {
        cmd: CommandManager::new(),
    }));
    (ui, EventManager::new())
}

#[test]
fn iteration_without_events_only_steps() {
    let (mut ui, mut events) = fresh();
    let effects = run_iteration(&mut ui, &mut events, false, false);
    assert_eq!(effects, Vec::new());
    assert_eq!(ui.steps, 1);
    assert!(ui.is_running());
}

#[test]
fn iteration_executes_ipc_commands_against_components() {
    let (mut ui, mut events) = fresh();
    events.send(Event::IpcInput(String::from("next\npause")));
    let effects = run_iteration(&mut ui, &mut events, false, false);
    assert_eq!(
        effects,
        vec![
            Action::AdvanceQueue { forced: true },
            Action::PausePlayback,
        ]
    );
    assert!(ui.is_running());
}

#[test]
fn iteration_quit_command_stops_the_loop() {
    let (mut ui, mut events) = fresh();
    events.send(Event::IpcInput(String::from("quit")));
    let effects = run_iteration(&mut ui, &mut events, false, false);
    assert_eq!(effects, Vec::new());
    assert!(!ui.is_running());
}

#[test]
fn iteration_after_termination_signal_stops_the_loop() {
    let (mut ui, mut events) = fresh();
    on_termination_signal(&mut ui, SIGTERM);
    let effects = run_iteration(&mut ui, &mut events, false, false);
    assert_eq!(effects, Vec::new());
    assert!(!ui.is_running());
}

#[test]
fn iteration_restarts_worker_on_session_death() {
    let (mut ui, mut events) = fresh();
    events.send(Event::SessionDied);
    events.send(Event::SessionDied);
    let effects = run_iteration(&mut ui, &mut events, true, true);
    assert_eq!(
        effects,
        vec![
            Action::RestartWorker { resumed: false },
            Action::RestartWorker { resumed: false },
        ]
    );
}

#[test]
fn iteration_keeps_event_order_across_kinds() {
    let (mut ui, mut events) = fresh();
    events.send(Event::Player(PlayerState::Playing));
    events.send(Event::Player(PlayerState::FinishedTrack));
    let effects = run_iteration(&mut ui, &mut events, false, false);
    assert_eq!(
        effects,
        vec![
            Action::UpdateStatus(PlayerState::Playing),
            Action::UpdateStatus(PlayerState::FinishedTrack),
            Action::AdvanceQueue { forced: false },
        ]
    );
}

#[test]
fn iteration_drains_the_buffer() {
    let (mut ui, mut events) = fresh();
    events.send(Event::SessionDied);
    run_iteration(&mut ui, &mut events, false, false);
    assert_eq!(events.drain(), Vec::new());
}
