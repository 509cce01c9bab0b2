use esp_eventloop::registry::{event_matches, LoopMode, LoopRegistry, Release, Unregistration};
use esp_eventloop::status::{EventLoopError, ANY_EVENT_ID, ANY_SOURCE, ESP_FAIL, ESP_OK};

fn subscribe(
    reg: &mut LoopRegistry,
    l: usize,
    source: u64,
    event_id: i32,
    status: i32,
    token: u64,
) -> Result<usize, EventLoopError> {
    let at = reg.next_subscription_id();
    reg.subscribe(l, at, source, event_id, status, token)
}

#[test]
fn second_singleton_is_refused_until_first_is_dropped() {
    let mut reg = LoopRegistry::new();
    assert_eq!(reg.check_singleton_free(), Ok(()));
    let id = reg.add_loop(LoopMode::System, ESP_OK, 0).unwrap();
    assert_eq!(reg.check_singleton_free(), Err(EventLoopError::AlreadyExists));
    assert_eq!(
        reg.release_handle(id),
        Release::Delete { mode: LoopMode::System, native: 0 }
    );
    // the flag stays set until the native deletion is confirmed
    assert_eq!(reg.check_singleton_free(), Err(EventLoopError::AlreadyExists));
    assert_eq!(reg.finish_delete(id, ESP_OK), Ok(()));
    assert_eq!(reg.check_singleton_free(), Ok(()));
    assert!(reg.add_loop(LoopMode::System, ESP_OK, 0).is_ok());
    assert_eq!(reg.check_singleton_free(), Err(EventLoopError::AlreadyExists));
}

#[test]
fn failed_singleton_creation_leaves_flag_clear() {
    let mut reg = LoopRegistry::new();
    assert_eq!(
        reg.add_loop(LoopMode::System, 0x101, 0),
        Err(EventLoopError::NativeFailure(0x101))
    );
    assert_eq!(reg.check_singleton_free(), Ok(()));
}

#[test]
fn user_loops_do_not_take_the_singleton() {
    let mut reg = LoopRegistry::new();
    assert_eq!(reg.add_loop(LoopMode::Background, ESP_OK, 11), Ok(0));
    assert_eq!(reg.add_loop(LoopMode::Explicit, ESP_OK, 12), Ok(1));
    assert_eq!(reg.check_singleton_free(), Ok(()));
}

#[test]
fn subscription_outlives_dropped_loop_value() {
    let mut reg = LoopRegistry::new();
    let l = reg.add_loop(LoopMode::Background, ESP_OK, 42).unwrap();
    let s = subscribe(&mut reg, l, 5, 1, ESP_OK, 77).unwrap();
    assert_eq!(reg.release_handle(l), Release::Retained);
    assert!(reg.delivers(s, 5, 1));
    let u = reg.unsubscribe(s);
    assert_eq!(
        u,
        Unregistration {
            mode: LoopMode::Background,
            native: 42,
            source: 5,
            event_id: 1,
            token: 77,
        }
    );
    assert_eq!(reg.retire(s), Release::Delete { mode: LoopMode::Background, native: 42 });
}

#[test]
fn failed_registration_records_nothing() {
    let mut reg = LoopRegistry::new();
    let l = reg.add_loop(LoopMode::Explicit, ESP_OK, 3).unwrap();
    assert_eq!(reg.next_subscription_id(), 0);
    assert_eq!(subscribe(&mut reg, l, 1, 1, ESP_FAIL, 0), Err(EventLoopError::NativeFailure(ESP_FAIL)));
    assert_eq!(reg.next_subscription_id(), 0);
    assert_eq!(reg.release_handle(l), Release::Delete { mode: LoopMode::Explicit, native: 3 });
}

#[test]
fn wildcard_and_exact_filters() {
    let mut reg = LoopRegistry::new();
    let l = reg.add_loop(LoopMode::Explicit, ESP_OK, 1).unwrap();
    let any = subscribe(&mut reg, l, 10, ANY_EVENT_ID, ESP_OK, 1).unwrap();
    let exact = subscribe(&mut reg, l, 10, 3, ESP_OK, 2).unwrap();
    for id in [0, 1, 3, 1000] {
        assert!(reg.delivers(any, 10, id));
        assert_eq!(reg.delivers(exact, 10, id), id == 3);
        assert!(!reg.delivers(any, 11, id));
        assert!(!reg.delivers(exact, 11, id));
    }
    assert!(event_matches(10, ANY_EVENT_ID, 10, 7));
    assert!(!event_matches(10, 4, 10, 7));
    assert!(event_matches(10, 4, 10, 4));
    assert!(!event_matches(10, ANY_EVENT_ID, 9, 7));
}

#[test]
fn no_delivery_after_unsubscribe() {
    let mut reg = LoopRegistry::new();
    let l = reg.add_loop(LoopMode::Background, ESP_OK, 8).unwrap();
    let s = subscribe(&mut reg, l, 2, ANY_EVENT_ID, ESP_OK, 5).unwrap();
    let mut counter = 0;
    for id in 0..3 {
        if reg.delivers(s, 2, id) {
            counter += 1;
        }
    }
    assert_eq!(counter, 3);
    reg.unsubscribe(s);
    assert_eq!(reg.retire(s), Release::Retained);
    for id in 0..10 {
        if reg.delivers(s, 2, id) {
            counter += 1;
        }
    }
    assert_eq!(counter, 3);
    assert!(!reg.delivers(99, 2, 0));
}

#[test]
fn clones_keep_loop_until_last_reference() {
    let mut reg = LoopRegistry::new();
    let l = reg.add_loop(LoopMode::Background, ESP_OK, 21).unwrap();
    for _ in 0..5 {
        reg.clone_handle(l);
    }
    for _ in 0..4 {
        assert_eq!(reg.release_handle(l), Release::Retained);
    }
    let s = subscribe(&mut reg, l, 1, ANY_EVENT_ID, ESP_OK, 4).unwrap();
    assert_eq!(reg.release_handle(l), Release::Retained);
    assert_eq!(reg.release_handle(l), Release::Retained);
    reg.unsubscribe(s);
    assert_eq!(reg.retire(s), Release::Delete { mode: LoopMode::Background, native: 21 });
}

#[test]
fn modes() {
    assert!(LoopMode::System.is_system());
    assert!(!LoopMode::Pinned.is_system());
    assert!(!LoopMode::Background.is_system());
}

#[test]
fn loop_records() {
    let mut reg = LoopRegistry::new();
    assert_eq!(reg.loop_count(), 0);
    assert!(reg.loop_record(0).is_none());
    let l = reg.add_loop(LoopMode::Pinned, ESP_OK, 6).unwrap();
    reg.clone_handle(l);
    let rec = reg.loop_record(l).unwrap();
    assert_eq!(reg.loop_count(), 1);
    assert_eq!(rec.mode, LoopMode::Pinned);
    assert_eq!(rec.native, 6);
    assert_eq!(rec.handles, 2);
    assert_eq!(rec.subscriptions, 0);
    assert!(!rec.deleted);
    reg.release_handle(l);
    assert_eq!(reg.release_handle(l), Release::Delete { mode: LoopMode::Pinned, native: 6 });
    assert!(reg.loop_record(l).unwrap().deleted);
}

#[test]
fn failed_default_loop_delete_keeps_flag() {
    let mut reg = LoopRegistry::new();
    let id = reg.add_loop(LoopMode::System, ESP_OK, 0).unwrap();
    let s = subscribe(&mut reg, id, 3, 1, ESP_OK, 8).unwrap();
    assert_eq!(reg.release_handle(id), Release::Retained);
    reg.unsubscribe(s);
    assert_eq!(reg.check_singleton_free(), Err(EventLoopError::AlreadyExists));
    assert_eq!(reg.retire(s), Release::Delete { mode: LoopMode::System, native: 0 });
    assert_eq!(reg.finish_delete(id, ESP_FAIL), Err(EventLoopError::NativeFailure(ESP_FAIL)));
    assert_eq!(reg.check_singleton_free(), Err(EventLoopError::AlreadyExists));
    assert_eq!(reg.finish_delete(id, ESP_OK), Ok(()));
    assert_eq!(reg.check_singleton_free(), Ok(()));
    assert!(reg.loop_record(id).unwrap().confirmed);
}

#[test]
fn any_source_filter_matches_every_source() {
    let mut reg = LoopRegistry::new();
    let l = reg.add_loop(LoopMode::Explicit, ESP_OK, 1).unwrap();
    let s = subscribe(&mut reg, l, ANY_SOURCE, ANY_EVENT_ID, ESP_OK, 1).unwrap();
    assert!(reg.delivers(s, 10, 4));
    assert!(reg.delivers(s, 77, -5));
    assert!(event_matches(ANY_SOURCE, 2, 9, 2));
    assert!(!event_matches(ANY_SOURCE, 2, 9, 3));
}

#[test]
fn slots_are_reused_only_after_retire_and_confirmed_delete() {
    let mut reg = LoopRegistry::new();
    let l = reg.add_loop(LoopMode::Explicit, ESP_OK, 1).unwrap();
    let a = subscribe(&mut reg, l, 5, 1, ESP_OK, 1).unwrap();
    assert_eq!(a, 0);
    reg.unsubscribe(a);
    assert!(!reg.delivers(a, 5, 1));
    assert_eq!(reg.next_subscription_id(), 1);
    assert_eq!(reg.retire(a), Release::Retained);
    assert_eq!(reg.next_subscription_id(), 0);
    let b = subscribe(&mut reg, l, 6, 2, ESP_OK, 2).unwrap();
    assert_eq!(b, 0);
    assert!(reg.delivers(b, 6, 2));
    assert!(!reg.delivers(b, 5, 1));
    reg.unsubscribe(b);
    // the unretired subscription still holds the loop
    assert_eq!(reg.release_handle(l), Release::Retained);
    assert_eq!(reg.retire(b), Release::Delete { mode: LoopMode::Explicit, native: 1 });
    assert_eq!(reg.add_loop(LoopMode::Background, ESP_OK, 2), Ok(1));
    assert_eq!(reg.finish_delete(l, ESP_OK), Ok(()));
    assert_eq!(reg.add_loop(LoopMode::Pinned, ESP_OK, 3), Ok(0));
    assert_eq!(reg.loop_count(), 2);
    assert_eq!(reg.loop_record(0).unwrap().mode, LoopMode::Pinned);
}
