use lector_launcher::{Action, Event, ExitOutcome, Label, Notice, Phase, Severity, Supervisor, TrayCommand};

fn ready() -> Supervisor {
    let mut s = Supervisor::new();
    s.set_java("java".to_string());
    s.set_jar("/opt/lector/resources/lector.jar".to_string());
    s
}

#[test]
fn new_supervisor_is_idle() {
    let s = Supervisor::new();
    assert_eq!(s.phase(), Phase::Idle);
    assert_eq!(s.label(), Label::Start);
    assert_eq!(s.current_process(), None);
    assert_eq!(s.java(), "");
    assert_eq!(s.launch_args(), None);
}

#[test]
fn launch_configuration() {
    let s = ready();
    assert_eq!(s.java(), "java");
    assert_eq!(
        s.launch_args(),
        Some(vec!["-jar".to_string(), "/opt/lector/resources/lector.jar".to_string()])
    );
}

#[test]
fn command_ids() {
    assert_eq!(TrayCommand::from_id("start"), Some(TrayCommand::Start));
    assert_eq!(TrayCommand::from_id("stop"), Some(TrayCommand::Stop));
    assert_eq!(TrayCommand::from_id("quit"), None);
    assert_eq!(TrayCommand::from_id(""), None);
    assert_eq!(TrayCommand::Start.id(), "start");
    assert_eq!(TrayCommand::Stop.id(), "stop");
}

#[test]
fn label_texts() {
    assert_eq!(Label::Start.text(), "Iniciar");
    assert_eq!(Label::Restart.text(), "Reiniciar");
}

#[test]
fn exit_outcome_from_code() {
    assert_eq!(ExitOutcome::from_code(Some(0)), ExitOutcome::Success);
    assert_eq!(ExitOutcome::from_code(Some(1)), ExitOutcome::Code(1));
    assert_eq!(ExitOutcome::from_code(Some(-3)), ExitOutcome::Code(-3));
    assert_eq!(ExitOutcome::from_code(None), ExitOutcome::Signal);
}

#[test]
fn exit_classification() {
    assert_eq!(ExitOutcome::Success.notice(), Notice::ExitedCleanly);
    assert_eq!(ExitOutcome::Success.notice().severity(), Severity::Info);
    assert_eq!(ExitOutcome::Code(1).notice(), Notice::ExitedWithError);
    assert_eq!(ExitOutcome::Code(1).notice().severity(), Severity::Error);
    assert_eq!(ExitOutcome::Signal.notice(), Notice::ForciblyStopped);
    assert_eq!(ExitOutcome::Signal.notice().severity(), Severity::Info);
    assert_eq!(ExitOutcome::WaitError.notice(), Notice::WaitFailed);
    assert_eq!(ExitOutcome::WaitError.notice().severity(), Severity::Error);
}

#[test]
fn notice_texts() {
    assert_eq!(Notice::Started.title(), "Información");
    assert_eq!(Notice::Started.body(), "Se ha iniciado correctamente el lector");
    assert_eq!(Notice::SpawnFailed.title(), "Error");
    assert_eq!(
        Notice::SpawnFailed.body(),
        "No fue posible iniciar el lector, es posible que no exista java en su ordenador"
    );
    assert_eq!(Notice::ExitedWithError.title(), "Error");
    assert_eq!(Notice::ExitedWithError.body(), "Se ha detenido el lector");
    assert_eq!(Notice::ForciblyStopped.title(), "Información");
    assert_eq!(Notice::ForciblyStopped.body(), "Se ha forzado la detención del lector");
    assert_eq!(Notice::WaitFailed.title(), "Error");
    assert_eq!(Notice::WaitFailed.body(), "Hubo un error inesperado con el lector");
    assert_eq!(Notice::ExitedCleanly.title(), "Información");
    assert_eq!(Severity::Info.title(), "Información");
    assert_eq!(Severity::Error.title(), "Error");
}

#[test]
fn start_then_spawned() {
    let mut s = ready();
    assert_eq!(s.start(), vec![Action::Spawn(0)]);
    assert_eq!(s.phase(), Phase::Launching(0));
    assert_eq!(s.current_process(), None);
    assert_eq!(
        s.spawned(0),
        vec![Action::Watch(0), Action::SetLabel(Label::Restart), Action::Notify(Notice::Started)]
    );
    assert_eq!(s.current_process(), Some(0));
    assert_eq!(s.label(), Label::Restart);
}

#[test]
fn start_without_resource_fails() {
    let mut s = Supervisor::new();
    s.set_java("java".to_string());
    assert_eq!(s.start(), vec![Action::Notify(Notice::SpawnFailed)]);
    assert_eq!(s.phase(), Phase::Idle);
    assert_eq!(s.label(), Label::Start);
}

#[test]
fn spawn_failure_leaves_nothing_held() {
    let mut s = ready();
    assert_eq!(s.start(), vec![Action::Spawn(0)]);
    assert_eq!(s.spawn_failed(0), vec![Action::Notify(Notice::SpawnFailed)]);
    assert_eq!(s.phase(), Phase::Idle);
    assert_eq!(s.current_process(), None);
    assert_eq!(s.label(), Label::Start);
}

#[test]
fn spawn_failure_after_running_process() {
    let mut s = ready();
    s.start();
    s.spawned(0);
    assert_eq!(s.start(), vec![Action::Kill(0), Action::Spawn(1)]);
    assert_eq!(s.spawn_failed(1), vec![Action::Notify(Notice::SpawnFailed)]);
    assert_eq!(s.current_process(), None);
}

#[test]
fn stop_when_idle() {
    let mut s = ready();
    assert_eq!(s.stop(), vec![Action::SetLabel(Label::Start)]);
    assert_eq!(s.stop(), vec![Action::SetLabel(Label::Start)]);
    assert_eq!(s.phase(), Phase::Idle);
    assert_eq!(s.label(), Label::Start);
}

#[test]
fn start_twice_keeps_one_process() {
    let mut s = ready();
    s.start();
    s.spawned(0);
    assert_eq!(s.start(), vec![Action::Kill(0), Action::Spawn(1)]);
    assert_eq!(s.current_process(), None);
    assert_eq!(
        s.spawned(1),
        vec![Action::Watch(1), Action::SetLabel(Label::Restart), Action::Notify(Notice::Started)]
    );
    assert_eq!(s.current_process(), Some(1));
    // the first watcher reports the kill: the new process stays held
    assert_eq!(s.exited(0, ExitOutcome::Signal), vec![Action::Notify(Notice::ForciblyStopped)]);
    assert_eq!(s.current_process(), Some(1));
}

#[test]
fn crash_with_code_one() {
    let mut s = ready();
    s.start();
    s.spawned(0);
    let actions = s.exited(0, ExitOutcome::from_code(Some(1)));
    assert_eq!(actions, vec![Action::Notify(Notice::ExitedWithError)]);
    assert_eq!(Notice::ExitedWithError.severity(), Severity::Error);
    assert_eq!(s.label(), Label::Restart);
    assert_eq!(s.current_process(), None);
}

#[test]
fn stop_click_then_forced_exit() {
    let mut s = ready();
    s.start();
    s.spawned(0);
    assert_eq!(s.handle_tray_event("stop"), vec![Action::Kill(0), Action::SetLabel(Label::Start)]);
    assert_eq!(s.label(), Label::Start);
    assert_eq!(s.current_process(), None);
    let actions = s.exited(0, ExitOutcome::from_code(None));
    assert_eq!(actions, vec![Action::Notify(Notice::ForciblyStopped)]);
    assert_eq!(Notice::ForciblyStopped.severity(), Severity::Info);
    assert_eq!(s.label(), Label::Start);
}

#[test]
fn clean_exit_informs() {
    let mut s = ready();
    s.start();
    s.spawned(0);
    assert_eq!(s.exited(0, ExitOutcome::from_code(Some(0))), vec![Action::Notify(Notice::ExitedCleanly)]);
    assert_eq!(s.current_process(), None);
}

#[test]
fn wait_error_is_an_error() {
    let mut s = ready();
    s.start();
    s.spawned(0);
    assert_eq!(s.exited(0, ExitOutcome::WaitError), vec![Action::Notify(Notice::WaitFailed)]);
    assert_eq!(s.current_process(), None);
}

#[test]
fn superseded_spawn_is_killed() {
    let mut s = ready();
    assert_eq!(s.start(), vec![Action::Spawn(0)]);
    assert_eq!(s.stop(), vec![Action::SetLabel(Label::Start)]);
    assert_eq!(s.spawned(0), vec![Action::Kill(0)]);
    assert_eq!(s.current_process(), None);
    assert_eq!(s.spawn_failed(0), vec![]);
}

#[test]
fn unknown_menu_item_is_ignored() {
    let mut s = ready();
    s.start();
    s.spawned(0);
    assert_eq!(s.handle_tray_event("about"), vec![]);
    assert_eq!(s.current_process(), Some(0));
    assert_eq!(s.label(), Label::Restart);
}

#[test]
fn event_sequence_holds_at_most_one() {
    let mut s = ready();
    let events = vec![
        Event::Command(TrayCommand::Start),
        Event::Spawned(0),
        Event::Command(TrayCommand::Start),
        Event::Command(TrayCommand::Start),
        Event::Spawned(1),
        Event::Spawned(2),
        Event::Exited(1, ExitOutcome::Signal),
        Event::Command(TrayCommand::Stop),
        Event::Exited(2, ExitOutcome::Signal),
    ];
    let mut all = Vec::new();
    for e in events {
        all.push(s.step(e));
    }
    assert_eq!(all[2], vec![Action::Kill(0), Action::Spawn(1)]);
    assert_eq!(all[3], vec![Action::Spawn(2)]);
    assert_eq!(all[4], vec![Action::Kill(1)]);
    assert_eq!(all[5][0], Action::Watch(2));
    assert_eq!(all[7], vec![Action::Kill(2), Action::SetLabel(Label::Start)]);
    assert_eq!(s.current_process(), None);
    assert_eq!(s.phase(), Phase::Idle);
}
