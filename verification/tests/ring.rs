use a10::config::Config;
use a10::cq::{Completion, CompletionAction, Taken, WAKE_ID};
use a10::ring::Ring;
use a10::sys::IORING_CQE_F_MORE;

#[test]
fn config_defaults() {
    let config = Ring::config(100);
    assert_eq!(config, Config { queued_operations: 100, max_events: None, max_change_list_size: None });
    assert_eq!(config, Config::new(100));
    // Maximum number of events defaults to the number of queued operations,
    // the change list to 64.
    assert_eq!(config.kqueue_sizes(), (100, 64));
    assert_eq!(Config::new(8).kqueue_sizes(), (8, 64));
    let changes = Config::new(8).change_list();
    assert!(changes.changes.is_empty());
    assert_eq!(changes.max_size, 64);
}

#[test]
fn config_builders() {
    let config = Config::new(100).max_events(10);
    assert_eq!(config.max_events, Some(10));
    assert_eq!(config.kqueue_sizes(), (10, 64));
    let config = config.max_change_list_size(5);
    assert_eq!(config.max_change_list_size, Some(5));
    assert_eq!(config.kqueue_sizes(), (10, 5));
    assert_eq!(Config::new(8).max_change_list_size(8).kqueue_sizes(), (8, 8));
    assert_eq!(Config::new(8).max_change_list_size(100).change_list().max_size, 100);
}

#[test]
fn ring_new_and_build() {
    let ring = Ring::new(16);
    assert_eq!(ring.configuration(), Config::new(16));
    let ring = Config::new(16).max_events(4).build();
    assert_eq!(ring.configuration(), Config::new(16).max_events(4));
}

#[test]
fn ring_poll_processes_events_in_order() {
    let mut ring = Ring::new(16);
    let single = ring.queue(false).unwrap();
    let multi = ring.queue(true).unwrap();
    let dropped = ring.queue(false).unwrap();
    assert_eq!((single, multi, dropped), (0, 1, 2));
    ring.drop_operation(dropped);

    let events = [
        Completion { user_data: multi as u64, res: 1, flags: IORING_CQE_F_MORE },
        Completion { user_data: single as u64, res: 2, flags: IORING_CQE_F_MORE },
        Completion { user_data: WAKE_ID as u64, res: 0, flags: 0 },
        Completion { user_data: dropped as u64, res: 3, flags: 0 },
        Completion { user_data: single as u64, res: 4, flags: 0 },
        Completion { user_data: dropped as u64, res: 5, flags: 0 },
    ];
    let actions = ring.poll(&events);
    assert_eq!(
        actions,
        vec![
            CompletionAction::Wake,
            CompletionAction::Wake,
            CompletionAction::WakeUp,
            CompletionAction::Released,
            CompletionAction::Wake,
            CompletionAction::Gone,
        ]
    );
    assert_eq!(
        ring.take_result(single),
        Taken::Result { completion: events[4], done: true, last: true }
    );
    assert_eq!(
        ring.take_result(multi),
        Taken::Result { completion: events[0], done: false, last: false }
    );
    assert_eq!(ring.take_result(multi), Taken::Pending);
    // The released id is handed out again.
    assert_eq!(ring.queue(false), Ok(0));
    assert_eq!(ring.queue(false), Ok(2));
}

#[test]
fn ring_poll_without_events() {
    let mut ring = Ring::new(1);
    assert_eq!(ring.poll(&[]), Vec::new());
    assert_eq!(ring.configuration(), Config::new(1));
}
