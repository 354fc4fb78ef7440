use checkout::stats::CheckoutStats;
use checkout::window::Window;

#[test]
fn counters_start_at_zero() {
    let stats = CheckoutStats::default();
    assert_eq!(stats.removed(), 0);
    assert_eq!(stats.updated(), 0);
    assert_eq!(stats.meta_updated(), 0);
    assert_eq!(stats.written_bytes(), 0);
}

#[test]
fn each_counter_counts_its_own() {
    let mut stats = CheckoutStats::default();
    stats.record_removed();
    stats.record_removed();
    stats.record_written(10);
    stats.record_written(32);
    stats.record_written(0);
    stats.record_meta_updated();
    assert_eq!(stats.removed(), 2);
    assert_eq!(stats.updated(), 3);
    assert_eq!(stats.meta_updated(), 1);
    assert_eq!(stats.written_bytes(), 42);
}

#[test]
fn written_bytes_wrap() {
    let mut stats = CheckoutStats::default();
    stats.record_written(usize::MAX - 1);
    stats.record_written(5);
    assert_eq!(stats.written_bytes(), 3);
    assert_eq!(stats.updated(), 2);
}

#[test]
fn window_starts_items_in_order_up_to_its_width() {
    let mut window = Window::new(5, 2);
    assert!(window.has_room());
    assert!(!window.drained());
    assert_eq!(window.start(), 0);
    assert_eq!(window.start(), 1);
    assert_eq!(window.in_flight(), 2);
    assert!(!window.has_room());
    window.complete();
    assert_eq!(window.in_flight(), 1);
    assert_eq!(window.done(), 1);
    assert!(window.has_room());
    assert_eq!(window.start(), 2);
    assert_eq!(window.started(), 3);
    window.complete();
    window.complete();
    assert_eq!(window.start(), 3);
    assert_eq!(window.start(), 4);
    assert!(!window.has_room());
    assert!(!window.drained());
    window.complete();
    window.complete();
    assert!(window.drained());
    assert_eq!(window.in_flight(), 0);
    assert_eq!(window.done(), 5);
}

#[test]
fn empty_window_is_drained_and_has_no_room() {
    let window = Window::new(0, 16);
    assert!(window.drained());
    assert!(!window.has_room());
    assert_eq!(window.in_flight(), 0);
}

#[test]
fn window_of_width_zero_starts_nothing() {
    let window = Window::new(3, 0);
    assert!(!window.has_room());
    assert!(!window.drained());
}
