use post_sync::dao::get_collection_name;

#[test]
fn test_get_collection_name() {
    assert_eq!(get_collection_name("post_sync::posts::Post"), "Post");
    assert_eq!(get_collection_name("post_sync::sync_job::SyncJob"), "SyncJob");
    assert_eq!(get_collection_name("post_sync::sync_post::SyncResult"), "SyncResult");
}

#[test]
fn a_name_without_a_path_is_kept() {
    assert_eq!(get_collection_name("Post"), "Post");
    assert_eq!(get_collection_name(""), "");
    assert_eq!(get_collection_name("a:b"), "a:b");
}

#[test]
fn the_path_before_the_name_is_dropped() {
    assert_eq!(get_collection_name("post_sync::posts::Post"), "Post");
    assert_eq!(get_collection_name("::Post"), "Post");
    assert_eq!(get_collection_name("a::b::"), "");
    assert_eq!(get_collection_name("::"), "");
}

#[test]
fn a_third_colon_belongs_to_the_next_piece() {
    assert_eq!(get_collection_name("a:::b"), ":b");
    assert_eq!(get_collection_name("a::::b"), "b");
    assert_eq!(get_collection_name("a:::"), ":");
}

#[test]
fn a_name_is_cut_as_the_standard_library_cuts_it() {
    for name in [
        "",
        ":",
        "::",
        ":::",
        "::::",
        "a",
        "a::b",
        "a:::b",
        "alloc::vec::Vec<alloc::string::String>",
        "caf\u{e9}::th\u{e9}",
    ] {
        let expected = name.split("::").last().unwrap_or("Unknown");
        assert_eq!(get_collection_name(name), expected);
    }
}
