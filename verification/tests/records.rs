use post_sync::errors::SetupError;
use post_sync::post_store::PostStore;
use post_sync::posts::{new_posts_for_sync, sync_posts, Post};
use post_sync::redis_pubsub::message::Message;
use post_sync::redis_pubsub::CHANNEL;
use post_sync::sync_post::{save_sync_result, PatreonPost, PostUpdate, SyncResult};

fn is_lower_hex(text: &str) -> bool {
    text.chars().all(|c| c.is_ascii_digit() || ('a'..='f').contains(&c))
}

#[test]
fn test_save_sync_result_success() {
    let sync_result = save_sync_result("".to_string(), 30, 0);

    assert_eq!(sync_result.is_success, true);
    assert_eq!(sync_result.sync_count, 30);
}

#[test]
fn test_save_sync_result_fail() {
    let sync_result = save_sync_result("test message".to_string(), 30, 0);

    assert_eq!(sync_result.is_success, false);
    assert_eq!(sync_result.sync_count, 30);
}

#[test]
fn a_record_of_a_run_is_stamped_and_named() {
    let first = save_sync_result("test message".to_string(), 7, 1_000);
    let second = save_sync_result("".to_string(), 0, 1_000);

    assert_eq!(first.message, "test message");
    assert_eq!(first._id.len(), 24);
    assert!(is_lower_hex(&first._id));
    assert_ne!(first._id, second._id);
    assert!(first.synced_at > 1_600_000_000_000);
    assert_eq!(first.elapsed_time, first.synced_at - 1_000);
}

#[test]
fn the_time_a_run_took_is_end_less_start() {
    let result = SyncResult::at("id".to_string(), "".to_string(), 3, 1_000, 4_500);

    assert_eq!(result._id, "id");
    assert_eq!(result.elapsed_time, 3_500);
    assert_eq!(result.synced_at, 4_500);
    assert_eq!(result.sync_count, 3);
    assert_eq!(result.is_success, true);
    assert_eq!(result.message, "");
}

#[test]
fn the_time_a_run_took_stays_within_bounds() {
    let long = SyncResult::at("id".to_string(), "x".to_string(), 0, i64::MIN, i64::MAX);
    let back = SyncResult::at("id".to_string(), "x".to_string(), 0, i64::MAX, i64::MIN);
    let clock_set_back = SyncResult::at("id".to_string(), "x".to_string(), 0, 10, 4);

    assert_eq!(long.elapsed_time, i64::MAX);
    assert_eq!(back.elapsed_time, i64::MIN);
    assert_eq!(clock_set_back.elapsed_time, -6);
    assert_eq!(long.is_success, false);
}

#[test]
fn a_new_record_takes_what_the_feed_sent() {
    let post = Post::for_sync_at(
        "65a000000000000000000009".to_string(),
        1_700_000_000_000,
        "123",
        "T",
        "C",
        "2022-03-14T05:23:49.000+00:00",
    );

    assert_eq!(post._id, "65a000000000000000000009");
    assert_eq!(post.patreon_post_id, "123");
    assert_eq!(post.title, "T");
    assert_eq!(post.content, "C");
    assert_eq!(post.images_url, Vec::<String>::new());
    assert_eq!(post.file_url, "");
    assert_eq!(post.mod_type, "");
    assert_eq!(post.created_at, 1_700_000_000_000);
    assert_eq!(post.updated_at, 1647235429000);
    assert_eq!(post.synced_at, 1_700_000_000_000);
}

#[test]
fn a_new_record_with_an_unreadable_date_is_dated_at_the_epoch() {
    let post = Post::for_sync_at("id".to_string(), 5, "1", "t", "c", "yesterday");

    assert_eq!(post.updated_at, 0);
}

#[test]
fn a_new_record_has_a_fresh_identifier() {
    let first = Post::new_for_sync("123", "T", "C", "2022-03-14T05:23:49.000+00:00");
    let second = Post::new_for_sync("123", "T", "C", "2022-03-14T05:23:49.000+00:00");

    assert_eq!(first._id.len(), 24);
    assert!(is_lower_hex(&first._id));
    assert_ne!(first._id, second._id);
    assert_eq!(first.patreon_post_id, "123");
    assert_eq!(first.updated_at, 1647235429000);
    assert_eq!(first.created_at, first.synced_at);
    assert!(first.created_at > 1_600_000_000_000);
}

#[test]
fn new_records_keep_the_order_of_the_posts() {
    let posts = vec![
        PatreonPost {
            id: "1".to_string(),
            content: "c1".to_string(),
            title: "t1".to_string(),
            published_at: "2022-03-14T05:23:49Z".to_string(),
        },
        PatreonPost {
            id: "2".to_string(),
            content: "c2".to_string(),
            title: "t2".to_string(),
            published_at: "?".to_string(),
        },
    ];

    let records = new_posts_for_sync(&posts);

    assert_eq!(records.len(), 2);
    assert_eq!(records[0].patreon_post_id, "1");
    assert_eq!(records[0].title, "t1");
    assert_eq!(records[0].content, "c1");
    assert_eq!(records[0].updated_at, 1647235429000);
    assert_eq!(records[1].patreon_post_id, "2");
    assert_eq!(records[1].updated_at, 0);
    assert_eq!(new_posts_for_sync(&Vec::new()).len(), 0);
}

#[test]
fn an_update_is_made_of_the_post() {
    let post = PatreonPost {
        id: "123".to_string(),
        content: "C".to_string(),
        title: "T".to_string(),
        published_at: "2022-03-14T05:23:49.000+00:00".to_string(),
    };

    let update = PostUpdate::for_post(&post);

    assert_eq!(update.patreon_post_id, "123");
    assert_eq!(update.title, "T");
    assert_eq!(update.content, "C");
    assert_eq!(update.synced_at, "2022-03-14T05:23:49Z");

    let undated = PostUpdate::for_post(&PatreonPost { published_at: "".to_string(), ..post });
    assert_eq!(undated.synced_at, "1970-01-01T00:00:00Z");
}

#[test]
fn an_update_changes_three_fields_and_no_other() {
    let record = Post::for_sync_at("id".to_string(), 77, "123", "old", "old", "2020-01-01T00:00:00Z");
    let update = PostUpdate {
        patreon_post_id: "ignored".to_string(),
        title: "T".to_string(),
        content: "C".to_string(),
        synced_at: "2022-03-14T05:23:49Z".to_string(),
    };

    let record = record.apply_update(&update);

    assert_eq!(record.title, "T");
    assert_eq!(record.content, "C");
    assert_eq!(record.synced_at, 1647235429000);
    assert_eq!(record._id, "id");
    assert_eq!(record.patreon_post_id, "123");
    assert_eq!(record.created_at, 77);
    assert_eq!(record.updated_at, 1577836800000);
}

#[test]
fn the_store_updates_the_first_record_that_matches() {
    let mut store = PostStore::new();
    let inserted = store.insert_many(vec![
        Post::for_sync_at("a".to_string(), 1, "1", "t1", "c1", ""),
        Post::for_sync_at("b".to_string(), 2, "2", "t2", "c2", ""),
        Post::for_sync_at("c".to_string(), 3, "2", "t3", "c3", ""),
    ]);
    assert_eq!(inserted, 3);
    let update = PostUpdate {
        patreon_post_id: "2".to_string(),
        title: "T".to_string(),
        content: "C".to_string(),
        synced_at: "2022-03-14T05:23:49Z".to_string(),
    };

    assert!(store.find_one_and_update(&update));

    assert_eq!(store.len(), 3);
    assert_eq!(store.get(0).unwrap().title, "t1");
    assert_eq!(store.get(1).unwrap().title, "T");
    assert_eq!(store.get(1).unwrap()._id, "b");
    assert_eq!(store.get(2).unwrap().title, "t3");
    assert_eq!(store.find_one("2").unwrap()._id, "b");
    assert!(store.get(3).is_none());

    let missing = PostUpdate { patreon_post_id: "9".to_string(), ..update };
    assert!(!store.find_one_and_update(&missing));
    assert_eq!(store.len(), 3);
    assert!(store.find_one("9").is_none());
    assert_eq!(store.insert_many(Vec::new()), 0);
    assert_eq!(store.len(), 3);
}

#[test]
fn a_run_is_asked_for_only_when_the_lock_is_free() {
    let published = sync_posts(Ok(false)).unwrap();
    assert_eq!(published.payload, "Sync");
    assert_eq!(published.id.len(), 32);
    assert!(is_lower_hex(&published.id));

    assert!(sync_posts(Ok(true)).is_none());
    assert!(sync_posts(Err("connection refused".to_string())).is_none());
}

#[test]
fn a_message_has_a_fresh_identifier() {
    let first = Message::new("test message".to_string());
    let second = Message::new("test message".to_string());

    assert_eq!(first.payload, "test message");
    assert_eq!(first.id.len(), 32);
    assert!(is_lower_hex(&first.id));
    assert_ne!(first.id, second.id);
}

#[test]
fn the_default_message_is_empty() {
    let message = Message::default();

    assert_eq!(message.id, "");
    assert_eq!(message.payload, "");
    assert_eq!(CHANNEL, "sync");
}

#[test]
fn a_setup_error_reads_as_a_line() {
    assert_eq!(SetupError("no route to host".to_string()).to_string(), "Error: no route to host");
    assert_eq!(SetupError(String::new()).to_string(), "Error: ");
}
