use post_sync::sync_job::{
    check_sync_job_exists, create_sync_job, delete_sync_job, JobLock, SyncJob, JOB_ID_KEY,
};

#[test]
fn test_create_sync_job() {
    let mut lock = JobLock::new();

    let result = create_sync_job(&mut lock);

    assert!(result);
}

#[test]
fn test_delete_sync_job_when_no_job_exist() {
    let mut lock = JobLock::new();

    let result = delete_sync_job(&mut lock);

    assert_eq!(result, 0);
}

#[test]
fn test_delete_sync_job_when_job_exist() {
    let mut lock = JobLock::new();
    assert!(lock.try_acquire(SyncJob { id: "123123123".to_string(), started_at: 0 }));

    let result = delete_sync_job(&mut lock);

    assert_eq!(result, 1);
}

#[test]
fn test_check_sync_job_exist_when_no_job_exist() {
    let lock = JobLock::new();

    let result = check_sync_job_exists(&lock);

    assert_eq!(result, false);
}

#[test]
fn test_check_sync_job_exist_when_job_exist() {
    let mut lock = JobLock::new();
    assert!(lock.try_acquire(SyncJob { id: "123123123".to_string(), started_at: 0 }));

    let result = check_sync_job_exists(&lock);

    assert_eq!(result, true);
}

#[test]
fn only_one_of_two_takes_the_lock() {
    let mut lock = JobLock::new();

    assert!(create_sync_job(&mut lock));
    assert!(!create_sync_job(&mut lock));
    assert!(!lock.try_acquire(SyncJob { id: "other".to_string(), started_at: 5 }));
    assert!(lock.is_held());

    assert_eq!(lock.release(), 1);
    assert!(!lock.is_held());
    assert_eq!(lock.release(), 0);

    assert!(lock.try_acquire(SyncJob { id: "other".to_string(), started_at: 5 }));
    assert!(!create_sync_job(&mut lock));
}

#[test]
fn a_token_has_a_fresh_identifier() {
    let first = SyncJob::new();
    let second = SyncJob::new();

    assert_eq!(first.id.len(), 32);
    assert!(first.id.chars().all(|c| c.is_ascii_digit() || ('a'..='f').contains(&c)));
    assert_ne!(first.id, second.id);
    assert!(first.started_at > 1_600_000_000_000);
}

#[test]
fn the_token_is_kept_under_one_key() {
    assert_eq!(JOB_ID_KEY, "job_id");
}
