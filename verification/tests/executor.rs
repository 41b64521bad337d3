use toru_plugin_host::executor::{
    cancel_task, create_task_registry, get_task, remove_task, store_task, task_exit_code, TaskSlot,
};

#[test]
fn registry_starts_empty() {
    let registry = create_task_registry();
    assert_eq!(get_task("t1", &registry), None);
}

#[test]
fn stored_task_is_live() {
    let mut registry = create_task_registry();
    store_task("t1".to_string(), &mut registry);
    assert_eq!(get_task("t1", &registry), Some(TaskSlot::Live));
    assert_eq!(get_task("t2", &registry), None);
}

#[test]
fn cancel_kills_a_live_task_once() {
    let mut registry = create_task_registry();
    store_task("t1".to_string(), &mut registry);
    assert!(cancel_task("t1", &mut registry));
    assert_eq!(get_task("t1", &registry), Some(TaskSlot::Killed));
    assert!(!cancel_task("t1", &mut registry));
    assert_eq!(get_task("t1", &registry), Some(TaskSlot::Killed));
}

#[test]
fn cancel_of_unknown_task_does_nothing() {
    let mut registry = create_task_registry();
    store_task("t1".to_string(), &mut registry);
    assert!(!cancel_task("other", &mut registry));
    assert_eq!(get_task("t1", &registry), Some(TaskSlot::Live));
    assert_eq!(get_task("other", &registry), None);
}

#[test]
fn removed_task_is_gone() {
    let mut registry = create_task_registry();
    store_task("t1".to_string(), &mut registry);
    store_task("t2".to_string(), &mut registry);
    remove_task("t1", &mut registry);
    assert_eq!(get_task("t1", &registry), None);
    assert_eq!(get_task("t2", &registry), Some(TaskSlot::Live));
    remove_task("t1", &mut registry);
    assert_eq!(get_task("t2", &registry), Some(TaskSlot::Live));
}

#[test]
fn storing_again_revives_the_slot() {
    let mut registry = create_task_registry();
    store_task("t1".to_string(), &mut registry);
    assert!(cancel_task("t1", &mut registry));
    store_task("t1".to_string(), &mut registry);
    assert_eq!(get_task("t1", &registry), Some(TaskSlot::Live));
}

#[test]
fn exit_code_of_a_task_that_ran_to_its_end() {
    assert_eq!(task_exit_code(Some(TaskSlot::Live), Some(0)), 0);
    assert_eq!(task_exit_code(Some(TaskSlot::Live), Some(3)), 3);
    assert_eq!(task_exit_code(Some(TaskSlot::Live), Some(-7)), -7);
}

#[test]
fn exit_code_is_minus_one_when_unavailable() {
    assert_eq!(task_exit_code(Some(TaskSlot::Live), None), -1);
    assert_eq!(task_exit_code(Some(TaskSlot::Killed), Some(0)), -1);
    assert_eq!(task_exit_code(Some(TaskSlot::Killed), None), -1);
    assert_eq!(task_exit_code(None, Some(0)), -1);
    assert_eq!(task_exit_code(None, None), -1);
}
