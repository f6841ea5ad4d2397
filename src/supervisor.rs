use vstd::prelude::*;

use crate::model::{command_of_id, exit_notice, ExitOutcome, Label, Notice, TrayCommand};

verus! {

/// Where the supervised process stands.
#[derive(Clone, Copy, Debug, PartialEq, Eq, Structural)]
pub enum Phase {
    /// No process is tracked.
    Idle,
    /// A spawn under this token was asked for and has not answered yet.
    Launching(u64),
    /// The process under this token was spawned and is tracked.
    Running(u64),
}

/// What the host is to do after an event, in order.
#[derive(Clone, Copy, Debug, PartialEq, Eq, Structural)]
pub enum Action {
    /// Kill the process under this token; a process that already ended is no error.
    Kill(u64),
    /// Spawn the runtime with the launch arguments, and report back under this token.
    Spawn(u64),
    /// Start the one background wait on the process under this token. It is
    /// never cancelled: it ends when the wait returns.
    Watch(u64),
    /// Set the text of the start/stop menu item.
    SetLabel(Label),
    /// Show a notification; a failure to show it is ignored.
    Notify(Notice),
}

/// Something that happened to the supervisor.
#[derive(Clone, Copy, Debug, PartialEq, Eq, Structural)]
pub enum Event {
    /// A menu click.
    Command(TrayCommand),
    /// The spawn asked for under this token succeeded.
    Spawned(u64),
    /// The spawn asked for under this token failed.
    SpawnFailed(u64),
    /// The wait on the process under this token returned.
    Exited(u64, ExitOutcome),
}

/// The state of the supervisor: its launch configuration, the process it
/// tracks, the menu label it last set, and the token the next spawn gets.
pub struct Supervisor {
    java: String,
    jar: Option<String>,
    phase: Phase,
    label: Label,
    next_token: u64,
}

pub struct SupervisorView {
    pub java: Seq<char>,
    pub jar: Option<Seq<char>>,
    pub phase: Phase,
    pub label: Label,
    pub next_token: u64,
}

impl View for Supervisor {
    type V = SupervisorView;

    closed spec fn view(&self) -> SupervisorView {
        SupervisorView {
            java: self.java@,
            jar: match self.jar {
                Some(j) => Some(j@),
                None => None,
            },
            phase: self.phase,
            label: self.label,
            next_token: self.next_token,
        }
    }
}

/// The token of the process a phase tracks, if any.
pub open spec fn held_token(p: Phase) -> Option<u64> {
    match p {
        Phase::Running(t) => Some(t),
        _ => None,
    }
}

/// The token that follows `t`; tokens repeat only after every `u64` was used.
pub open spec fn token_after(t: u64) -> u64 {
    if t == u64::MAX {
        0
    } else {
        (t + 1) as u64
    }
}

/// Killing the tracked process, if there is one.
pub open spec fn kill_prev_actions(p: Phase) -> Seq<Action> {
    match held_token(p) {
        Some(t) => seq![Action::Kill(t)],
        None => seq![],
    }
}

/// A start: kill what is tracked, then ask for a spawn, or report at once
/// that none can be made when the resource to run is unknown.
pub open spec fn start_spec(v: SupervisorView) -> (SupervisorView, Seq<Action>) {
    let kills = kill_prev_actions(v.phase);
    match v.jar {
        Some(_) => (
            SupervisorView {
                phase: Phase::Launching(v.next_token),
                next_token: token_after(v.next_token),
                ..v
            },
            kills.push(Action::Spawn(v.next_token)),
        ),
        None => (
            SupervisorView { phase: Phase::Idle, ..v },
            kills.push(Action::Notify(Notice::SpawnFailed)),
        ),
    }
}

/// A stop: kill what is tracked, forget it, and put the label back to start.
pub open spec fn stop_spec(v: SupervisorView) -> (SupervisorView, Seq<Action>) {
    (
        SupervisorView { phase: Phase::Idle, label: Label::Start, ..v },
        kill_prev_actions(v.phase).push(Action::SetLabel(Label::Start)),
    )
}

/// A spawn succeeded. The awaited one becomes the tracked process; one that
/// a later start or stop superseded is killed at once.
pub open spec fn spawned_spec(v: SupervisorView, t: u64) -> (SupervisorView, Seq<Action>) {
    if v.phase == Phase::Launching(t) {
        (
            SupervisorView { phase: Phase::Running(t), label: Label::Restart, ..v },
            seq![
                Action::Watch(t),
                Action::SetLabel(Label::Restart),
                Action::Notify(Notice::Started),
            ],
        )
    } else {
        (v, seq![Action::Kill(t)])
    }
}

/// A spawn failed: the user is told, and nothing is tracked.
pub open spec fn spawn_failed_spec(v: SupervisorView, t: u64) -> (SupervisorView, Seq<Action>) {
    if v.phase == Phase::Launching(t) {
        (SupervisorView { phase: Phase::Idle, ..v }, seq![Action::Notify(Notice::SpawnFailed)])
    } else {
        (v, seq![])
    }
}

/// A wait returned: one notice for its outcome. The tracked process is
/// forgotten only if it is the one that ended; the label is left alone.
pub open spec fn exited_spec(v: SupervisorView, t: u64, o: ExitOutcome) -> (
    SupervisorView,
    Seq<Action>,
) {
    (
        SupervisorView {
            phase: if v.phase == Phase::Running(t) {
                Phase::Idle
            } else {
                v.phase
            },
            ..v
        },
        seq![Action::Notify(exit_notice(o))],
    )
}

pub open spec fn command_spec(v: SupervisorView, c: TrayCommand) -> (SupervisorView, Seq<Action>) {
    match c {
        TrayCommand::Start => start_spec(v),
        TrayCommand::Stop => stop_spec(v),
    }
}

pub open spec fn step_spec(v: SupervisorView, e: Event) -> (SupervisorView, Seq<Action>) {
    match e {
        Event::Command(c) => command_spec(v, c),
        Event::Spawned(t) => spawned_spec(v, t),
        Event::SpawnFailed(t) => spawn_failed_spec(v, t),
        Event::Exited(t, o) => exited_spec(v, t, o),
    }
}

impl Supervisor {
    /// A supervisor with no launch configuration and nothing tracked.
    pub fn new() -> (r: Supervisor)
        ensures
            r@.java == Seq::<char>::empty(),
            r@.jar.is_none(),
            r@.phase == Phase::Idle,
            r@.label == Label::Start,
            r@.next_token == 0,
    {
        Supervisor {
            java: String::new(),
            jar: None,
            phase: Phase::Idle,
            label: Label::Start,
            next_token: 0,
        }
    }

    /// Sets the runtime binary that a start runs.
    pub fn set_java(&mut self, value: String)
        ensures
            final(self)@ == (SupervisorView { java: value@, ..old(self)@ }),
    {
        self.java = value;
    }

    /// Sets the resource that the runtime is given; until it is set, a start
    /// fails as if the runtime were missing.
    pub fn set_jar(&mut self, value: String)
        ensures
            final(self)@ == (SupervisorView { jar: Some(value@), ..old(self)@ }),
    {
        self.jar = Some(value);
    }

    /// The token of the tracked process, if any.
    pub fn current_process(&self) -> (r: Option<u64>)
        ensures
            r == held_token(self@.phase),
    {
        match self.phase {
            Phase::Running(t) => Some(t),
            _ => None,
        }
    }

    pub fn phase(&self) -> (r: Phase)
        ensures
            r == self@.phase,
    {
        self.phase
    }

    pub fn label(&self) -> (r: Label)
        ensures
            r == self@.label,
    {
        self.label
    }

    /// The runtime binary to spawn.
    pub fn java(&self) -> (r: &str)
        ensures
            r@ == self@.java,
    {
        self.java.as_str()
    }

    /// The arguments of a spawn, `-jar` and the resource, once the resource is known.
    pub fn launch_args(&self) -> (r: Option<Vec<String>>)
        ensures
            match (r, self@.jar) {
                (Some(a), Some(j)) => a@.len() == 2 && a@[0]@ == "-jar"@ && a@[1]@ == j,
                (None, None) => true,
                _ => false,
            },
    {
        match &self.jar {
            Some(j) => {
                let mut args: Vec<String> = Vec::new();
                args.push("-jar".to_owned());
                args.push(j.clone());
                Some(args)
            },
            None => None,
        }
    }

    fn kill_prev(&self) -> (r: Vec<Action>)
        ensures
            r@ == kill_prev_actions(self@.phase),
    {
        let mut actions: Vec<Action> = Vec::new();
        match self.phase {
            Phase::Running(t) => actions.push(Action::Kill(t)),
            _ => {},
        }
        proof {
            assert(actions@ =~= kill_prev_actions(self@.phase));
        }
        actions
    }

    /// Kills the tracked process, if any, and asks for a fresh one.
    pub fn start(&mut self) -> (r: Vec<Action>)
        ensures
            (final(self)@, r@) == start_spec(old(self)@),
    {
        let mut actions = self.kill_prev();
        if self.jar.is_some() {
            let t = self.next_token;
            self.phase = Phase::Launching(t);
            self.next_token = if t == u64::MAX {
                0
            } else {
                t + 1
            };
            actions.push(Action::Spawn(t));
        } else {
            self.phase = Phase::Idle;
            actions.push(Action::Notify(Notice::SpawnFailed));
        }
        actions
    }

    /// Kills the tracked process, if any, and resets the label. Safe when
    /// nothing runs.
    pub fn stop(&mut self) -> (r: Vec<Action>)
        ensures
            (final(self)@, r@) == stop_spec(old(self)@),
    {
        let mut actions = self.kill_prev();
        self.phase = Phase::Idle;
        self.label = Label::Start;
        actions.push(Action::SetLabel(Label::Start));
        actions
    }

    /// Records that the spawn under `token` succeeded.
    pub fn spawned(&mut self, token: u64) -> (r: Vec<Action>)
        ensures
            (final(self)@, r@) == spawned_spec(old(self)@, token),
    {
        if self.phase == Phase::Launching(token) {
            self.phase = Phase::Running(token);
            self.label = Label::Restart;
            vec![Action::Watch(token), Action::SetLabel(Label::Restart), Action::Notify(Notice::Started)]
        } else {
            vec![Action::Kill(token)]
        }
    }

    /// Records that the spawn under `token` failed.
    pub fn spawn_failed(&mut self, token: u64) -> (r: Vec<Action>)
        ensures
            (final(self)@, r@) == spawn_failed_spec(old(self)@, token),
    {
        if self.phase == Phase::Launching(token) {
            self.phase = Phase::Idle;
            vec![Action::Notify(Notice::SpawnFailed)]
        } else {
            Vec::new()
        }
    }

    /// Records that the wait on the process under `token` returned with `outcome`.
    pub fn exited(&mut self, token: u64, outcome: ExitOutcome) -> (r: Vec<Action>)
        ensures
            (final(self)@, r@) == exited_spec(old(self)@, token, outcome),
    {
        if self.phase == Phase::Running(token) {
            self.phase = Phase::Idle;
        }
        vec![Action::Notify(outcome.notice())]
    }

    /// Handles a click on the menu item with identifier `id`; other items are ignored.
    pub fn handle_tray_event(&mut self, id: &str) -> (r: Vec<Action>)
        ensures
            match command_of_id(id@) {
                Some(c) => (final(self)@, r@) == command_spec(old(self)@, c),
                None => final(self)@ == old(self)@ && r@ == Seq::<Action>::empty(),
            },
    {
        match TrayCommand::from_id(id) {
            Some(c) => self.command(c),
            None => Vec::new(),
        }
    }

    pub fn command(&mut self, c: TrayCommand) -> (r: Vec<Action>)
        ensures
            (final(self)@, r@) == command_spec(old(self)@, c),
    {
        match c {
            TrayCommand::Start => self.start(),
            TrayCommand::Stop => self.stop(),
        }
    }

    /// Handles any event.
    pub fn step(&mut self, e: Event) -> (r: Vec<Action>)
        ensures
            (final(self)@, r@) == step_spec(old(self)@, e),
    {
        match e {
            Event::Command(c) => self.command(c),
            Event::Spawned(t) => self.spawned(t),
            Event::SpawnFailed(t) => self.spawn_failed(t),
            Event::Exited(t, o) => self.exited(t, o),
        }
    }
}

} // verus!
