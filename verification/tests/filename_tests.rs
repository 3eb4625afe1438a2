use radio_ondemand::paths::episode_filename;

#[test]
fn filename_matches_example() {
    let path = episode_filename("/tmp/rec", 12345, "朝のニュース です");
    assert_eq!(path, "/tmp/rec/12345_朝のニュース_です.m4a");
}

#[test]
fn filename_is_deterministic() {
    let a = episode_filename("/tmp/rec", 12345, "朝のニュース です");
    let b = episode_filename("/tmp/rec", 12345, "朝のニュース です");
    assert_eq!(a, b);
}

#[test]
fn filename_collapses_doubled_separator() {
    let path = episode_filename("/tmp/rec/", 7, "news");
    assert_eq!(path, "/tmp/rec/7_news.m4a");
}

#[test]
fn filename_collapses_pairs_left_to_right() {
    // Three separators in a row: one pair collapses, the third stands.
    let path = episode_filename("/x//", 1, "a");
    assert_eq!(path, "/x//1_a.m4a");
    assert_eq!(path, format!("{}/{}_{}.m4a", "/x//", 1, "a").replace("//", "/"));
}

#[test]
fn filename_replaces_every_space() {
    let path = episode_filename("d", 2, "a b  c");
    assert_eq!(path, "d/2_a_b__c.m4a");
}

#[test]
fn filename_smallest_and_largest_id() {
    assert_eq!(episode_filename("d", 0, "t"), "d/0_t.m4a");
    assert_eq!(episode_filename("d", u32::MAX, "t"), "d/4294967295_t.m4a");
}
