use win_opt::channel::{progress_channel, send_error, send_log, send_state, try_recv_message};
use win_opt::worker::{repair_script, OperationWorker, Script, Step, StepOutcome};
use win_opt::{OperationState, WorkerMessage};

#[test]
fn test_send_functions_dont_panic() {
    let (sender, receiver) = progress_channel();

    send_log(&sender, "Test log".to_string());
    send_state(&sender, OperationState::Running);
    send_error(&sender, "Test error".to_string());

    let mut count = 0;
    while try_recv_message(&receiver).is_some() {
        count += 1;
    }
    assert_eq!(count, 3);
}

fn plain_step(program: &str) -> Step {
    Step {
        program: program.to_string(),
        args: vec![],
        intro: vec![],
        failure_note: None,
        required: true,
        abort_on_failure: false,
    }
}

fn ran(stdout: &[&str], success: bool, code: i32) -> StepOutcome {
    StepOutcome::Ran {
        stdout_lines: stdout.iter().map(|s| s.to_string()).collect(),
        stderr_lines: vec![],
        exit_success: success,
        exit_code: Some(code),
    }
}

/// Drives a worker over a whole script, handing it the prepared outcomes,
/// and collects every message it emits, in order.
fn run_script(script: Script, outcomes: Vec<StepOutcome>) -> Vec<WorkerMessage> {
    let mut w = OperationWorker::new(script);
    let mut all = w.start_messages();
    let mut outcomes = outcomes.into_iter();
    while w.next_step_index().is_some() {
        all.extend(w.begin_step());
        all.extend(w.complete_step(outcomes.next().expect("script ran out of outcomes")));
    }
    all.extend(w.finish());
    all
}

fn completed_count(msgs: &[WorkerMessage]) -> usize {
    msgs.iter().filter(|m| matches!(m, WorkerMessage::Completed)).count()
}

fn final_state(msgs: &[WorkerMessage]) -> Option<OperationState> {
    msgs.iter().rev().find_map(|m| match m {
        WorkerMessage::StateChange(s) => Some(*s),
        _ => None,
    })
}

#[test]
fn test_continue_on_failure_ends_failed() {
    // Script [stepA: exit 0, stepB: exit 1] with continue-on-failure policy:
    // both steps' output shows up, the terminal state is Failed, and there
    // is exactly one Completed.
    let script = Script {
        banner: "=== demo ===".to_string(),
        steps: vec![plain_step("stepA"), plain_step("stepB")],
        success_log: "demo done".to_string(),
        failure_error: "demo failed".to_string(),
    };
    let msgs = run_script(
        script,
        vec![ran(&["out A"], true, 0), ran(&["out B"], false, 1)],
    );

    assert!(msgs.contains(&WorkerMessage::Log("out A".to_string())));
    assert!(msgs.contains(&WorkerMessage::Log("out B".to_string())));
    assert_eq!(final_state(&msgs), Some(OperationState::Failed));
    assert_eq!(completed_count(&msgs), 1);
    assert!(matches!(msgs.last(), Some(WorkerMessage::Completed)));
}

#[test]
fn test_all_steps_succeed_ends_completed() {
    let script = Script {
        banner: "=== demo ===".to_string(),
        steps: vec![plain_step("stepA"), plain_step("stepB")],
        success_log: "demo done".to_string(),
        failure_error: "demo failed".to_string(),
    };
    let msgs = run_script(script, vec![ran(&[], true, 0), ran(&[], true, 0)]);

    assert!(msgs.contains(&WorkerMessage::Log("demo done".to_string())));
    assert_eq!(final_state(&msgs), Some(OperationState::Completed));
    assert_eq!(completed_count(&msgs), 1);
    assert!(matches!(msgs.last(), Some(WorkerMessage::Completed)));
}

#[test]
fn test_cancel_before_first_step() {
    // Cancellation observed before the first step runs: a cancellation log,
    // StateChange(Failed), Completed — and no step was ever begun.
    let mut w = OperationWorker::new(repair_script());
    let mut all = w.start_messages();
    all.extend(w.observe_cancellation());

    assert_eq!(
        &all[3..],
        &[
            WorkerMessage::Log("Operación cancelada por el usuario".to_string()),
            WorkerMessage::StateChange(OperationState::Failed),
            WorkerMessage::Completed,
        ]
    );
    assert_eq!(final_state(&all), Some(OperationState::Failed));
    assert_eq!(completed_count(&all), 1);
    assert!(w.next_step_index().is_none());
}

#[test]
fn test_exactly_one_completed_and_last() {
    let msgs = run_script(repair_script(), vec![ran(&[], true, 0), ran(&[], true, 0)]);
    assert_eq!(completed_count(&msgs), 1);
    assert!(matches!(msgs.last(), Some(WorkerMessage::Completed)));
}

#[test]
fn test_protocol_opening() {
    let mut w = OperationWorker::new(repair_script());
    let opening = w.start_messages();
    assert_eq!(
        opening,
        vec![
            WorkerMessage::StateChange(OperationState::Starting),
            WorkerMessage::StateChange(OperationState::Running),
            WorkerMessage::Log("=== Iniciando Reparación del Sistema ===".to_string()),
        ]
    );
}

#[test]
fn test_begin_step_announces_command() {
    let mut w = OperationWorker::new(repair_script());
    w.start_messages();
    let msgs = w.begin_step();
    assert_eq!(
        msgs,
        vec![
            WorkerMessage::Log("Paso 1/2: Ejecutando DISM...".to_string()),
            WorkerMessage::Log(
                "Esto puede tomar entre 5-30 minutos dependiendo del sistema.".to_string()
            ),
            WorkerMessage::Log(
                "Ejecutando: cmd /C DISM /Online /Cleanup-Image /RestoreHealth".to_string()
            ),
        ]
    );
}

#[test]
fn test_step_output_filtering_and_tagging() {
    // Empty output lines are dropped; error-stream lines are tagged.
    let mut w = OperationWorker::new(Script {
        banner: "b".to_string(),
        steps: vec![plain_step("x")],
        success_log: "ok".to_string(),
        failure_error: "bad".to_string(),
    });
    w.start_messages();
    w.begin_step();
    let msgs = w.complete_step(StepOutcome::Ran {
        stdout_lines: vec!["one".to_string(), "".to_string(), "two".to_string()],
        stderr_lines: vec!["".to_string(), "oops".to_string()],
        exit_success: true,
        exit_code: Some(0),
    });
    assert_eq!(
        msgs,
        vec![
            WorkerMessage::Log("one".to_string()),
            WorkerMessage::Log("two".to_string()),
            WorkerMessage::Log("ERROR: oops".to_string()),
            WorkerMessage::Log("✓ Comando completado exitosamente".to_string()),
        ]
    );
}

#[test]
fn test_step_failure_verdict_shows_exit_code() {
    let mut w = OperationWorker::new(Script {
        banner: "b".to_string(),
        steps: vec![plain_step("x")],
        success_log: "ok".to_string(),
        failure_error: "bad".to_string(),
    });
    w.start_messages();
    w.begin_step();
    let msgs = w.complete_step(ran(&[], false, 1));
    assert_eq!(
        msgs,
        vec![WorkerMessage::Log(
            "✗ Comando falló con código: Some(1)".to_string()
        )]
    );
}

#[test]
fn test_launch_failure_reports_error() {
    let mut w = OperationWorker::new(Script {
        banner: "b".to_string(),
        steps: vec![plain_step("x")],
        success_log: "ok".to_string(),
        failure_error: "bad".to_string(),
    });
    w.start_messages();
    w.begin_step();
    let msgs = w.complete_step(StepOutcome::LaunchFailed {
        reason: "no such file".to_string(),
    });
    assert_eq!(
        msgs,
        vec![WorkerMessage::Error(
            "Error al ejecutar comando: no such file".to_string()
        )]
    );
}

#[test]
fn test_repair_failure_note_continues() {
    // The repair script carries a note on its first step: a failure is
    // reported and the script still reaches the second step.
    let mut w = OperationWorker::new(repair_script());
    w.start_messages();
    w.begin_step();
    let msgs = w.complete_step(ran(&[], false, 1));
    assert_eq!(
        msgs.last(),
        Some(&WorkerMessage::Error(
            "DISM falló. Continuando con SFC de todas formas...".to_string()
        ))
    );
    assert_eq!(w.next_step_index(), Some(1));
}

#[test]
fn test_fail_fast_skips_remaining_steps() {
    let mut fail_fast = plain_step("a");
    fail_fast.abort_on_failure = true;
    let script = Script {
        banner: "b".to_string(),
        steps: vec![fail_fast, plain_step("never run")],
        success_log: "ok".to_string(),
        failure_error: "bad".to_string(),
    };
    let mut w = OperationWorker::new(script);
    w.start_messages();
    w.begin_step();
    w.complete_step(ran(&[], false, 1));
    assert!(w.next_step_index().is_none());
    let msgs = w.finish();
    assert_eq!(final_state(&msgs), Some(OperationState::Failed));
}
