//! A model of the cooperative UI runtime: the single thread that owns all
//! interactive state, its running flag, and the queue of actions that
//! background threads schedule to run between its steps. The terminal
//! rendering behind one step is outside this crate; what is modelled is
//! everything the run loop's correctness rests on.

use vstd::prelude::*;

use crate::command::Command;
use crate::dispatch::Action;

verus! {

/// An action a background thread schedules to run on the UI thread between
/// its steps. Shutdown is the one genuinely cross-thread action this core
/// needs; it quits through the command dispatcher where user data is
/// registered, and does nothing where it is not.
#[derive(Clone, Copy, PartialEq, Eq, Structural, Debug)]
pub enum UiCallback {
    Quit,
}

/// The command dispatcher: resolves a command to its effect, synchronously
/// and only ever on the UI thread, so handlers need no locking of their own.
#[derive(Clone, Copy, PartialEq, Eq, Structural, Debug)]
pub struct CommandManager {}

/// The effects of one command: quitting clears the running flag directly;
/// every other command becomes a request to the playback or queue component.
pub open spec fn command_effects(cmd: Command) -> Seq<Action> {
    match cmd {
        Command::Quit => Seq::<Action>::empty(),
        Command::Next => seq![Action::AdvanceQueue { forced: true }],
        Command::Previous => seq![Action::PreviousTrack],
        Command::Play => seq![Action::ResumePlayback],
        Command::Pause => seq![Action::PausePlayback],
        Command::PlayPause => seq![Action::TogglePlayback],
        Command::Stop => seq![Action::StopPlayback],
    }
}

impl CommandManager {
    pub fn new() -> (r: CommandManager) {
        CommandManager {}
    }

    /// Execute one command against the running flag it may clear, returning
    /// the requests to the other components. Quit is the only command that
    /// stops the run loop, and it always does.
    pub fn handle(&self, cmd: Command, running: &mut bool) -> (effects: Vec<Action>)
        ensures
            *final(running) == (*old(running) && !(cmd is Quit)),
            effects@ == command_effects(cmd),
    {
        let mut effects: Vec<Action> = Vec::new();
        match cmd {
            Command::Quit => {
                *running = false;
            },
            Command::Next => {
                effects.push(Action::AdvanceQueue { forced: true });
            },
            Command::Previous => {
                effects.push(Action::PreviousTrack);
            },
            Command::Play => {
                effects.push(Action::ResumePlayback);
            },
            Command::Pause => {
                effects.push(Action::PausePlayback);
            },
            Command::PlayPause => {
                effects.push(Action::TogglePlayback);
            },
            Command::Stop => {
                effects.push(Action::StopPlayback);
            },
        }
        proof {
            assert(effects@ =~= command_effects(cmd));
        }
        effects
    }
}

/// The state the UI runtime shares within its own thread; principally the
/// command dispatcher. Created once at startup, never touched from a
/// background thread, torn down when the loop exits.
pub struct UserDataInner {
    pub cmd: CommandManager,
}

/// Whether the runtime is still running once the given scheduled callbacks
/// have been executed: a quit callback stops it exactly where user data is
/// registered.
pub open spec fn running_after(running: bool, has_user_data: bool, callbacks: Seq<
    UiCallback,
>) -> bool {
    running && !(has_user_data && callbacks.contains(UiCallback::Quit))
}

/// The UI runtime model: the running flag the run loop polls, the callbacks
/// scheduled from background threads and not yet executed, the history of
/// executed callbacks, and the count of completed steps.
pub struct UiCore {
    /// The run loop continues exactly while this holds.
    pub running: bool,
    /// Scheduled from any thread, executed only between steps, in order.
    pub pending: Vec<UiCallback>,
    /// Every callback ever executed, in execution order.
    pub executed: Vec<UiCallback>,
    /// Completed input/redraw cycles.
    pub steps: u64,
    /// Registered once at startup, before the loop first runs.
    pub user_data: Option<UserDataInner>,
}

impl UiCore {
    /// A runtime that is running, with nothing scheduled and no step taken.
    pub fn new(user_data: Option<UserDataInner>) -> (r: UiCore)
        ensures
            r.running,
            r.pending@ == Seq::<UiCallback>::empty(),
            r.executed@ == Seq::<UiCallback>::empty(),
            r.steps == 0,
            r.user_data == user_data,
    {
        UiCore { running: true, pending: Vec::new(), executed: Vec::new(), steps: 0, user_data }
    }

    /// The flag the run loop polls before each step.
    pub fn is_running(&self) -> (r: bool)
        ensures
            r == self.running,
    {
        self.running
    }

    /// Schedule one callback from any thread; it runs exactly once, at the
    /// start of the next step, after everything scheduled before it.
    pub fn enqueue_callback(&mut self, cb: UiCallback)
        ensures
            final(self).pending@ == old(self).pending@.push(cb),
            final(self).executed == old(self).executed,
            final(self).running == old(self).running,
            final(self).steps == old(self).steps,
            final(self).user_data == old(self).user_data,
    {
        self.pending.push(cb);
    }

    /// One cooperative step. Every callback scheduled since the previous
    /// step is executed first, in schedule order and never interleaved with
    /// the step's own input and redraw work; then the step completes.
    pub fn step(&mut self)
        requires
            old(self).running,
            old(self).steps < u64::MAX,
        ensures
            final(self).executed@ == old(self).executed@ + old(self).pending@,
            final(self).pending@ == Seq::<UiCallback>::empty(),
            final(self).running == running_after(
                old(self).running,
                old(self).user_data is Some,
                old(self).pending@,
            ),
            final(self).steps == old(self).steps + 1,
            final(self).user_data == old(self).user_data,
    {
        let n = self.pending.len();
        let mut i: usize = 0;
        while i < n
            invariant
                i <= n,
                n == self.pending@.len(),
                self.pending@ == old(self).pending@,
                self.executed@ == old(self).executed@ + self.pending@.take(i as int),
                self.running == running_after(
                    old(self).running,
                    old(self).user_data is Some,
                    self.pending@.take(i as int),
                ),
                self.steps == old(self).steps,
                self.user_data == old(self).user_data,
                old(self).running,
            decreases n - i,
        {
            let cb = self.pending[i];
            match cb {
                UiCallback::Quit => {
                    let manager = match &self.user_data {
                        Some(data) => Some(data.cmd),
                        None => None,
                    };
                    match manager {
                        Some(m) => {
                            // Quitting has no component effects, only the flag.
                            let _effects = m.handle(Command::Quit, &mut self.running);
                        },
                        None => {},
                    }
                },
            }
            self.executed.push(cb);
            proof {
                assert(self.pending@.take(i + 1 as int) =~= self.pending@.take(i as int).push(
                    self.pending@[i as int],
                ));
                assert(self.pending@.take(i + 1 as int).contains(UiCallback::Quit) == (
                self.pending@.take(i as int).contains(UiCallback::Quit) || self.pending@[i as int]
                    == UiCallback::Quit)) by {
                    let t = self.pending@.take(i + 1 as int);
                    if self.pending@.take(i as int).contains(UiCallback::Quit) {
                        let w = choose|w: int|
                            0 <= w < i && self.pending@.take(i as int)[w] == UiCallback::Quit;
                        assert(t[w] == UiCallback::Quit);
                    }
                    if self.pending@[i as int] == UiCallback::Quit {
                        assert(t[i as int] == UiCallback::Quit);
                    }
                    if t.contains(UiCallback::Quit) {
                        let w = choose|w: int| 0 <= w < i + 1 && t[w] == UiCallback::Quit;
                        if w < i {
                            assert(self.pending@.take(i as int)[w] == UiCallback::Quit);
                        }
                    }
                }
            }
            i += 1;
        }
        proof {
            assert(self.pending@.take(n as int) =~= self.pending@);
        }
        self.pending.clear();
        self.steps = self.steps + 1;
    }
}

/// The OS termination signal, the one subscribed signal the bridge acts on.
pub const SIGTERM: i32 = 15;

/// The reload signal the bridge also subscribes to but never acts on.
pub const SIGHUP: i32 = 1;

/// The signal bridge's whole decision for one delivered termination signal:
/// schedule exactly one quit callback on the UI thread. The bridge performs
/// no cleanup of its own — cleanup belongs entirely to the quit handler.
/// Only the subscribed signals ever reach the bridge, and any of them other
/// than the termination signal marks a registration fault, not an input, so
/// it stands outside this function's inputs.
pub fn on_termination_signal(ui: &mut UiCore, signal: i32)
    requires
        signal == SIGTERM,
    ensures
        final(ui).pending@ == old(ui).pending@.push(UiCallback::Quit),
        final(ui).executed == old(ui).executed,
        final(ui).running == old(ui).running,
        final(ui).steps == old(ui).steps,
        final(ui).user_data == old(ui).user_data,
{
    ui.enqueue_callback(UiCallback::Quit);
}

/// One termination signal ends the run loop: the single quit callback it
/// schedules leaves the runtime stopped as soon as a step has executed it,
/// provided user data was registered.
pub proof fn lemma_termination_signal_quits(
    running: bool,
    has_user_data: bool,
    pending: Seq<UiCallback>,
)
    requires
        has_user_data,
    ensures
        !running_after(running, has_user_data, pending.push(UiCallback::Quit)),
{
    assert(pending.push(UiCallback::Quit)[pending.len() as int] == UiCallback::Quit);
    assert(pending.push(UiCallback::Quit).contains(UiCallback::Quit));
}

} // verus!
