use win_opt::{CleanStats, OperationState, View};

#[test]
fn test_view_copy_and_equality() {
    let view1 = View::MainMenu;
    let view2 = view1;
    assert_eq!(view1, view2);
}

#[test]
fn test_all_view_variants_unique() {
    assert_ne!(View::MainMenu, View::Clean);
    assert_ne!(View::Clean, View::Network);
    assert_ne!(View::Network, View::Repair);
    assert_ne!(View::Repair, View::Info);
}

#[test]
fn test_operation_state_transitions() {
    let idle = OperationState::Idle;
    let starting = OperationState::Starting;
    let running = OperationState::Running;
    let completed = OperationState::Completed;
    let failed = OperationState::Failed;

    assert_ne!(idle, starting);
    assert_ne!(starting, running);
    assert_ne!(running, completed);
    assert_ne!(completed, failed);
    assert_ne!(idle, completed);
}

#[test]
fn types_test_clean_stats_default() {
    let stats = CleanStats::default();

    assert_eq!(stats.deleted_count, 0);
    assert_eq!(stats.failed_count, 0);
    assert_eq!(stats.size_freed, 0);
}

#[test]
fn main_test_clean_stats_default() {
    let stats = CleanStats::default();
    assert_eq!(stats.deleted_count, 0);
    assert_eq!(stats.failed_count, 0);
    assert_eq!(stats.size_freed, 0);
}

#[test]
fn test_clean_stats_creation() {
    let stats = CleanStats {
        deleted_count: 42,
        failed_count: 3,
        size_freed: 1024 * 1024 * 50,
    };

    assert_eq!(stats.deleted_count, 42);
    assert_eq!(stats.failed_count, 3);
    assert_eq!(stats.size_freed, 52_428_800);
}

#[test]
fn test_clean_stats_clone() {
    let stats1 = CleanStats {
        deleted_count: 10,
        failed_count: 2,
        size_freed: 1000,
    };

    let stats2 = stats1.clone();

    assert_eq!(stats1.deleted_count, stats2.deleted_count);
    assert_eq!(stats1.failed_count, stats2.failed_count);
    assert_eq!(stats1.size_freed, stats2.size_freed);
}

#[test]
fn test_clean_stats_counters_never_decrease() {
    let mut stats = CleanStats::default();
    stats.record_deleted(100);
    assert_eq!(stats.deleted_count, 1);
    assert_eq!(stats.size_freed, 100);
    stats.record_deleted(50);
    assert_eq!(stats.deleted_count, 2);
    assert_eq!(stats.size_freed, 150);
    stats.record_failed();
    assert_eq!(stats.failed_count, 1);
    assert_eq!(stats.deleted_count, 2);
    assert_eq!(stats.size_freed, 150);
}

#[test]
fn test_clean_stats_saturate_at_limits() {
    let mut stats = CleanStats {
        deleted_count: usize::MAX,
        failed_count: usize::MAX,
        size_freed: u64::MAX - 1,
    };
    stats.record_deleted(5);
    assert_eq!(stats.deleted_count, usize::MAX);
    assert_eq!(stats.size_freed, u64::MAX);
    stats.record_failed();
    assert_eq!(stats.failed_count, usize::MAX);
}
