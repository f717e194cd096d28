use win_opt::channel::{progress_channel, send_message};
use win_opt::{CleanStats, OperationState, UiState, WorkerMessage};

#[test]
fn test_drain_with_nothing_pending_mutates_nothing() {
    let mut ui = UiState::default();
    ui.logs.push("earlier".to_string());
    ui.state = OperationState::Running;
    ui.worker_active = true;

    let done = ui.drain(&vec![]);

    assert!(!done);
    assert_eq!(ui.logs, vec!["earlier".to_string()]);
    assert_eq!(ui.state, OperationState::Running);
    assert!(ui.worker_active);
}

#[test]
fn test_messages_applied_in_send_order() {
    let mut ui = UiState::default();
    let msgs = vec![
        WorkerMessage::Log("first".to_string()),
        WorkerMessage::Error("second".to_string()),
        WorkerMessage::Log("third".to_string()),
    ];
    ui.drain(&msgs);
    assert_eq!(
        ui.logs,
        vec![
            "first".to_string(),
            "❌ ERROR: second".to_string(),
            "third".to_string(),
        ]
    );
}

#[test]
fn test_drain_applies_every_kind() {
    let mut ui = UiState::default();
    ui.worker_active = true;
    let stats = CleanStats {
        deleted_count: 4,
        failed_count: 1,
        size_freed: 2048,
    };
    let msgs = vec![
        WorkerMessage::StateChange(OperationState::Running),
        WorkerMessage::Log("working".to_string()),
        WorkerMessage::StatsUpdate(stats),
        WorkerMessage::StateChange(OperationState::Completed),
        WorkerMessage::Completed,
    ];
    let done = ui.drain(&msgs);

    assert!(done);
    assert_eq!(ui.state, OperationState::Completed);
    assert_eq!(ui.stats, stats);
    assert_eq!(ui.logs, vec!["working".to_string()]);
    assert!(!ui.worker_active, "Completed must release the worker slot");
}

#[test]
fn test_stats_replaced_wholesale() {
    let mut ui = UiState::default();
    let first = CleanStats {
        deleted_count: 10,
        failed_count: 5,
        size_freed: 100,
    };
    let second = CleanStats {
        deleted_count: 11,
        failed_count: 5,
        size_freed: 160,
    };
    ui.drain(&vec![WorkerMessage::StatsUpdate(first)]);
    assert_eq!(ui.stats, first);
    ui.drain(&vec![WorkerMessage::StatsUpdate(second)]);
    assert_eq!(ui.stats, second);
}

#[test]
fn test_single_worker_slot() {
    let mut ui = UiState::default();
    assert!(ui.try_launch());
    assert!(!ui.try_launch(), "a second launch while occupied is rejected");
    ui.drain(&vec![WorkerMessage::Completed]);
    assert!(ui.try_launch(), "the slot frees up once Completed is observed");
}

#[test]
fn test_pump_drains_channel_in_order() {
    let (sender, receiver) = progress_channel();
    send_message(&sender, WorkerMessage::StateChange(OperationState::Running));
    send_message(&sender, WorkerMessage::Log("alpha".to_string()));
    send_message(&sender, WorkerMessage::Log("beta".to_string()));
    send_message(&sender, WorkerMessage::Completed);

    let mut ui = UiState::default();
    ui.worker_active = true;
    let done = ui.pump(&receiver, 64);

    assert!(done);
    assert_eq!(ui.logs, vec!["alpha".to_string(), "beta".to_string()]);
    assert_eq!(ui.state, OperationState::Running);
    assert!(!ui.worker_active);
}

#[test]
fn test_pump_respects_budget() {
    let (sender, receiver) = progress_channel();
    for i in 0..10 {
        send_message(&sender, WorkerMessage::Log(format!("line {i}")));
    }
    let mut ui = UiState::default();
    ui.pump(&receiver, 3);
    assert_eq!(ui.logs.len(), 3);
    ui.pump(&receiver, 64);
    assert_eq!(ui.logs.len(), 10);
}

#[test]
fn test_reset_for_operation() {
    let mut ui = UiState::default();
    ui.logs.push("old line".to_string());
    ui.state = OperationState::Failed;
    ui.stats = CleanStats {
        deleted_count: 3,
        failed_count: 1,
        size_freed: 9,
    };
    ui.reset_for_operation();
    assert!(ui.logs.is_empty());
    assert_eq!(ui.state, OperationState::Idle);
    assert_eq!(ui.stats, CleanStats::default());
}
