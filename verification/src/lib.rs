//! Core run-loop logic of a terminal media-player application: the
//! cross-thread event bridge, the dispatch rules that turn each event into
//! state changes and component requests, the command-line grammar used by the
//! inter-process control input, and the model of the cooperative UI step with
//! its callback queue.
//!
//! Everything that touches a terminal, a socket, an OS signal or an
//! asynchronous runtime lives outside this crate; this crate holds the
//! decisions those edges feed.

mod command;
mod dispatch;
mod events;
mod runloop;
mod startup;
mod ui;

pub use command::Command;
pub use command::ParseError;
pub use command::command_of_line;
pub use command::line_len;
pub use command::parse;
pub use command::spec_parse;

pub use dispatch::Action;
pub use dispatch::ActionKind;
pub use dispatch::DispatchContext;
pub use dispatch::action_kind;
pub use dispatch::actions_for;
pub use dispatch::count_kind;
pub use dispatch::dispatch_all;
pub use dispatch::dispatch_event;
pub use dispatch::dispatch_events;
pub use dispatch::drain_and_dispatch;
pub use dispatch::ipc_actions;
pub use dispatch::lemma_count_kind_add;
pub use dispatch::lemma_dispatch_all_concat;
pub use dispatch::lemma_dispatch_order;
pub use dispatch::lemma_finished_track_advances_once;
pub use dispatch::lemma_ipc_without_user_data;
pub use dispatch::lemma_session_died_restarts_once;
pub use dispatch::player_actions;

pub use events::Event;
pub use events::EventManager;
pub use events::PlayerState;
pub use events::QueueOccurrence;

pub use runloop::effects_of_action;
pub use runloop::outward_effects;
pub use runloop::quit_executed;
pub use runloop::run_iteration;

pub use startup::format_log_line;
pub use startup::resolve_initial_screen;
pub use startup::spec_log_line;

pub use ui::CommandManager;
pub use ui::SIGHUP;
pub use ui::SIGTERM;
pub use ui::UiCallback;
pub use ui::UiCore;
pub use ui::UserDataInner;
pub use ui::command_effects;
pub use ui::lemma_termination_signal_quits;
pub use ui::on_termination_signal;
pub use ui::running_after;
