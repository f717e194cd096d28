use win_opt::animation::{progress_bar, Pulse, Spinner};

#[test]
fn test_progress_bar() {
    let bar = progress_bar(50, 10);
    assert_eq!(bar.len() >= 10, true);
}

#[test]
fn test_progress_bar_full() {
    let bar = progress_bar(100, 10);
    assert!(bar.contains("█"));
}

#[test]
fn test_progress_bar_empty() {
    let bar = progress_bar(0, 10);
    assert!(bar.contains("░"));
}

#[test]
fn test_spinner_frames() {
    let spinner = Spinner::new();
    let frame = spinner.frame();
    assert!(!frame.is_empty());
}

#[test]
fn test_progress_bar_exact_halfway() {
    assert_eq!(progress_bar(50, 10), "█████░░░░░");
}

#[test]
fn test_progress_bar_partial_cell() {
    // 33% of 10 cells: 3 full cells, a 30/100 remainder -> partial index 2.
    assert_eq!(progress_bar(33, 10), "███▍░░░░░░");
}

#[test]
fn test_progress_bar_zero_width() {
    assert_eq!(progress_bar(50, 0), "");
}

#[test]
fn test_all_spinner_families_nonempty() {
    let spinner = Spinner::new();
    assert!(!spinner.dots_frame().is_empty());
    assert!(!spinner.blocks_frame().is_empty());
    assert!(!spinner.circle_frame().is_empty());
    assert!(!spinner.loading_frame().is_empty());
}

#[test]
fn test_pulse_bright_at() {
    // First half of the cycle is bright, borders and second half are not.
    assert!(!Pulse::bright_at(0, 1000));
    assert!(Pulse::bright_at(250, 1000));
    assert!(!Pulse::bright_at(500, 1000));
    assert!(!Pulse::bright_at(750, 1000));
    assert!(!Pulse::bright_at(123, 0));
}
