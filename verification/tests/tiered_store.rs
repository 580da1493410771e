use task_manager_pro::storage::TieredStore;

const NOW: u64 = 12_345;

#[test]
fn benchmark_active_task_write() {
    let mut store = TieredStore::new();
    let task_id = 1u32;
    let assignee = 77u64;
    store.set_active_assignment(task_id, assignee, NOW);
    let result = store.get_active_assignment(task_id);
    assert!(result.is_some());
}

#[test]
fn benchmark_active_task_read() {
    let mut store = TieredStore::new();
    let task_id = 2u32;
    let assignee = 78u64;
    store.set_active_assignment(task_id, assignee, NOW);
    let result = store.get_active_assignment(task_id);
    assert!(result.is_some());
}

#[test]
fn benchmark_active_task_update() {
    let mut store = TieredStore::new();
    let task_id = 3u32;
    let assignee = 79u64;
    store.set_active_assignment(task_id, assignee, NOW);
    store.touch_active_assignment(task_id, NOW + 60);
    let result = store.get_active_assignment(task_id);
    assert!(result.is_some());
    let a = result.unwrap();
    assert_eq!(a.last_activity, NOW + 60);
    assert_eq!(a.assigned_at, NOW);
    assert_eq!(a.assignee, assignee);
}

#[test]
fn benchmark_category_operations() {
    let mut store = TieredStore::new();
    let id = store
        .add_category("development".to_string(), "dev_tasks".to_string(), NOW)
        .unwrap();
    assert_eq!(id, 1);
    assert_eq!(store.get_categories().len(), 1);
    store.increment_category_task_count(id).unwrap();
    let cat = &store.get_categories()[0];
    assert_eq!(cat.task_count, 1);
    assert_eq!(cat.name, "development");
}

#[test]
fn benchmark_session_operations() {
    let mut store = TieredStore::new();
    let user = 80u64;
    store.set_session_nonce(user, 12345, NOW).unwrap();
    let session = store.get_session_nonce(user);
    assert!(session.is_some());
    assert_eq!(session.unwrap().nonce, 12345);
    store.clear_session_nonce(user);
    assert!(store.get_session_nonce(user).is_none());
}

#[test]
fn benchmark_storage_promotion() {
    let mut store = TieredStore::new();
    let task_id = 5u32;
    let url = "https://example.com/submission".to_string();
    store.cache_submission_url(task_id, url.clone());
    let cached = store.get_cached_submission_url(task_id);
    assert_eq!(cached, Some(&url));
    store.clear_submission_cache(task_id);
    assert!(store.get_cached_submission_url(task_id).is_none());
}

#[test]
fn clearing_an_assignment_forgets_it() {
    let mut store = TieredStore::new();
    store.set_active_assignment(9, 81, NOW);
    store.clear_active_assignment(9);
    assert!(store.get_active_assignment(9).is_none());
    // Touching an unknown task changes nothing.
    store.touch_active_assignment(9, NOW + 1);
    assert!(store.get_active_assignment(9).is_none());
}

#[test]
fn category_ids_are_positions_and_unknown_ids_are_ignored() {
    let mut store = TieredStore::new();
    assert_eq!(store.add_category("a".to_string(), "x".to_string(), NOW), Ok(1));
    assert_eq!(store.add_category("b".to_string(), "y".to_string(), NOW), Ok(2));
    assert_eq!(store.increment_category_task_count(7), Ok(()));
    assert_eq!(store.increment_category_task_count(0), Ok(()));
    store.increment_category_task_count(2).unwrap();
    assert_eq!(store.get_categories()[0].task_count, 0);
    assert_eq!(store.get_categories()[1].task_count, 1);
}

#[test]
fn session_expiry_overflow_is_refused() {
    let mut store = TieredStore::new();
    assert!(store.set_session_nonce(1, 5, u64::MAX).is_err());
    assert!(store.get_session_nonce(1).is_none());
}
