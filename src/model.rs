use vstd::prelude::*;

verus! {

/// What the start/stop menu item reads.
#[derive(Clone, Copy, Debug, PartialEq, Eq, Structural)]
pub enum Label {
    /// Nothing was started from the menu yet, or the last click was a stop.
    Start,
    /// A process was started: clicking again replaces it with a fresh one.
    Restart,
}

impl Label {
    /// The text shown on the menu item.
    pub fn text(&self) -> (r: &'static str)
        ensures
            r@ == label_text(*self),
    {
        match self {
            Label::Start => "Iniciar",
            Label::Restart => "Reiniciar",
        }
    }
}

pub open spec fn label_text(l: Label) -> Seq<char> {
    match l {
        Label::Start => "Iniciar"@,
        Label::Restart => "Reiniciar"@,
    }
}

/// How urgent a notification is; its title names it.
#[derive(Clone, Copy, Debug, PartialEq, Eq, Structural)]
pub enum Severity {
    Info,
    Error,
}

impl Severity {
    /// The notification title for this severity.
    pub fn title(&self) -> (r: &'static str)
        ensures
            r@ == severity_title(*self),
    {
        match self {
            Severity::Info => "Información",
            Severity::Error => "Error",
        }
    }
}

pub open spec fn severity_title(s: Severity) -> Seq<char> {
    match s {
        Severity::Info => "Información"@,
        Severity::Error => "Error"@,
    }
}

/// A message shown to the user.
#[derive(Clone, Copy, Debug, PartialEq, Eq, Structural)]
pub enum Notice {
    /// The process was spawned.
    Started,
    /// The process could not be spawned (the runtime or the resource is missing).
    SpawnFailed,
    /// The process ended with a success status.
    ExitedCleanly,
    /// The process ended with a failure exit code.
    ExitedWithError,
    /// The process ended without an exit code (killed by a signal or forced).
    ForciblyStopped,
    /// Waiting for the process failed at the operating-system level.
    WaitFailed,
}

pub open spec fn notice_severity(n: Notice) -> Severity {
    match n {
        Notice::Started => Severity::Info,
        Notice::SpawnFailed => Severity::Error,
        Notice::ExitedCleanly => Severity::Info,
        Notice::ExitedWithError => Severity::Error,
        Notice::ForciblyStopped => Severity::Info,
        Notice::WaitFailed => Severity::Error,
    }
}

pub open spec fn notice_body(n: Notice) -> Seq<char> {
    match n {
        Notice::Started => "Se ha iniciado correctamente el lector"@,
        Notice::SpawnFailed =>
            "No fue posible iniciar el lector, es posible que no exista java en su ordenador"@,
        Notice::ExitedCleanly => "El lector se ha cerrado"@,
        Notice::ExitedWithError => "Se ha detenido el lector"@,
        Notice::ForciblyStopped => "Se ha forzado la detención del lector"@,
        Notice::WaitFailed => "Hubo un error inesperado con el lector"@,
    }
}

impl Notice {
    pub fn severity(&self) -> (r: Severity)
        ensures
            r == notice_severity(*self),
    {
        match self {
            Notice::Started => Severity::Info,
            Notice::SpawnFailed => Severity::Error,
            Notice::ExitedCleanly => Severity::Info,
            Notice::ExitedWithError => Severity::Error,
            Notice::ForciblyStopped => Severity::Info,
            Notice::WaitFailed => Severity::Error,
        }
    }

    /// The notification title: the word for the severity.
    pub fn title(&self) -> (r: &'static str)
        ensures
            r@ == severity_title(notice_severity(*self)),
    {
        self.severity().title()
    }

    /// The sentence shown under the title.
    pub fn body(&self) -> (r: &'static str)
        ensures
            r@ == notice_body(*self),
    {
        match self {
            Notice::Started => "Se ha iniciado correctamente el lector",
            Notice::SpawnFailed =>
                "No fue posible iniciar el lector, es posible que no exista java en su ordenador",
            Notice::ExitedCleanly => "El lector se ha cerrado",
            Notice::ExitedWithError => "Se ha detenido el lector",
            Notice::ForciblyStopped => "Se ha forzado la detención del lector",
            Notice::WaitFailed => "Hubo un error inesperado con el lector",
        }
    }
}

/// How the wait on a process ended.
#[derive(Clone, Copy, Debug, PartialEq, Eq, Structural)]
pub enum ExitOutcome {
    /// Exit code zero.
    Success,
    /// A non-zero exit code.
    Code(i32),
    /// No exit code: the process was ended by a signal or forced.
    Signal,
    /// The wait itself failed.
    WaitError,
}

pub open spec fn outcome_of_code(code: Option<i32>) -> ExitOutcome {
    match code {
        Some(c) => if c == 0 {
            ExitOutcome::Success
        } else {
            ExitOutcome::Code(c)
        },
        None => ExitOutcome::Signal,
    }
}

/// The single notice that the end of a process gives. A clean exit is
/// announced too: outside a stop click, any end of the process is news.
pub open spec fn exit_notice(o: ExitOutcome) -> Notice {
    match o {
        ExitOutcome::Success => Notice::ExitedCleanly,
        ExitOutcome::Code(_) => Notice::ExitedWithError,
        ExitOutcome::Signal => Notice::ForciblyStopped,
        ExitOutcome::WaitError => Notice::WaitFailed,
    }
}

impl ExitOutcome {
    /// The outcome of a completed wait, from the exit code it reported.
    pub fn from_code(code: Option<i32>) -> (r: ExitOutcome)
        ensures
            r == outcome_of_code(code),
            code == Some(0i32) <==> r == ExitOutcome::Success,
            code.is_none() <==> r == ExitOutcome::Signal,
    {
        match code {
            Some(c) => if c == 0 {
                ExitOutcome::Success
            } else {
                ExitOutcome::Code(c)
            },
            None => ExitOutcome::Signal,
        }
    }

    /// The notice that the watcher shows for this outcome.
    pub fn notice(&self) -> (r: Notice)
        ensures
            r == exit_notice(*self),
            notice_severity(r) == (match *self {
                ExitOutcome::Success => Severity::Info,
                ExitOutcome::Code(_) => Severity::Error,
                ExitOutcome::Signal => Severity::Info,
                ExitOutcome::WaitError => Severity::Error,
            }),
    {
        match self {
            ExitOutcome::Success => Notice::ExitedCleanly,
            ExitOutcome::Code(_) => Notice::ExitedWithError,
            ExitOutcome::Signal => Notice::ForciblyStopped,
            ExitOutcome::WaitError => Notice::WaitFailed,
        }
    }
}

/// A command of the tray menu.
#[derive(Clone, Copy, Debug, PartialEq, Eq, Structural)]
pub enum TrayCommand {
    Start,
    Stop,
}

pub open spec fn command_of_id(id: Seq<char>) -> Option<TrayCommand> {
    if id == "start"@ {
        Some(TrayCommand::Start)
    } else if id == "stop"@ {
        Some(TrayCommand::Stop)
    } else {
        None
    }
}

impl TrayCommand {
    /// The identifier of the menu item that issues this command.
    pub fn id(&self) -> (r: &'static str)
        ensures
            command_of_id(r@) == Some(*self),
    {
        match self {
            TrayCommand::Start => "start",
            TrayCommand::Stop => {
                proof {
                    reveal_strlit("start");
                    reveal_strlit("stop");
                    assert("stop"@.len() != "start"@.len());
                }
                "stop"
            },
        }
    }

    /// The command issued by the menu item with this identifier, if any.
    pub fn from_id(id: &str) -> (r: Option<TrayCommand>)
        ensures
            r == command_of_id(id@),
    {
        let given = id.to_owned();
        let start = "start".to_owned();
        let stop = "stop".to_owned();
        if given == start {
            Some(TrayCommand::Start)
        } else if given == stop {
            Some(TrayCommand::Stop)
        } else {
            None
        }
    }
}

} // verus!
