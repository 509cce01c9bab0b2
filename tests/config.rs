use esp_eventloop::config::{BackgroundLoopConfiguration, Core, ExplicitLoopConfiguration};

#[test]
fn background_defaults() {
    let c = BackgroundLoopConfiguration::default();
    assert_eq!(c.queue_size, 64);
    assert_eq!(c.task_name, "(unknown)");
    assert_eq!(c.task_priority, 0);
    assert_eq!(c.task_stack_size, 3072);
    assert_eq!(c.task_pin_to_core, Core::Core0);
}

#[test]
fn explicit_defaults() {
    assert_eq!(ExplicitLoopConfiguration::default().queue_size, 8192);
}

#[test]
fn background_args_pass_values_through() {
    let c = BackgroundLoopConfiguration {
        queue_size: 32,
        task_name: "events",
        task_priority: 5,
        task_stack_size: 4096,
        task_pin_to_core: Core::Core1,
    };
    let a = c.loop_args();
    assert_eq!(a.queue_size, 32);
    assert_eq!(a.task_name, Some("events"));
    assert_eq!(a.task_priority, 5);
    assert_eq!(a.task_stack_size, 4096);
    assert_eq!(a.task_core_id, 1);
}

#[test]
fn explicit_args_have_no_task() {
    let a = ExplicitLoopConfiguration { queue_size: 100 }.loop_args();
    assert_eq!(a.queue_size, 100);
    assert_eq!(a.task_name, None);
    assert_eq!(a.task_priority, 0);
    assert_eq!(a.task_stack_size, 0);
    assert_eq!(a.task_core_id, 0);
}

#[test]
fn core_ids() {
    assert_eq!(Core::Core0.id(), 0);
    assert_eq!(Core::Core1.id(), 1);
}
