use bicat::backoff::backoff_seconds;
use bicat::naming::{final_file_name, has_temp_suffix, sanitize, temp_file_name, ResolvedTarget};
use bicat::text::join;

#[test]
fn sanitize_replaces_every_separator() {
    assert_eq!(sanitize("a/b/c"), "a-b-c");
    assert_eq!(sanitize("/"), "-");
    assert_eq!(sanitize("//x//"), "--x--");
}

#[test]
fn sanitize_keeps_everything_else() {
    assert_eq!(sanitize(""), "");
    assert_eq!(sanitize("plain name"), "plain name");
    assert_eq!(sanitize("back\\slash-and.dots"), "back\\slash-and.dots");
    assert_eq!(sanitize("音乐/合集"), "音乐-合集");
}

#[test]
fn final_name_joins_title_and_owner() {
    assert_eq!(final_file_name("Song", "Artist"), "Song-Artist.mp3");
    assert_eq!(final_file_name("AC/DC live", "fan/club"), "AC-DC live-fan-club.mp3");
    assert_eq!(final_file_name("", ""), "-.mp3");
}

#[test]
fn temp_name_is_final_name_with_suffix() {
    assert_eq!(temp_file_name("Song", "Artist"), "Song-Artist.mp3.tmp");
    assert_eq!(temp_file_name("a/b", "c"), "a-b-c.mp3.tmp");
    let both = format!("{}.tmp", final_file_name("x/y", "z"));
    assert_eq!(temp_file_name("x/y", "z"), both);
}

#[test]
fn names_hold_no_separator() {
    let name = final_file_name("/a//b/", "/c/");
    assert!(!name.contains('/'));
    assert!(!temp_file_name("/a//b/", "/c/").contains('/'));
}

#[test]
fn target_names_depend_on_metadata_only() {
    let first = ResolvedTarget {
        display_name: "Title".to_string(),
        owner: "Owner".to_string(),
        source_locator: "https://one.example/a".to_string(),
    };
    let second = ResolvedTarget {
        display_name: "Title".to_string(),
        owner: "Owner".to_string(),
        source_locator: "https://two.example/b".to_string(),
    };
    assert_eq!(first.final_file_name(), "Title-Owner.mp3");
    assert_eq!(first.temp_file_name(), "Title-Owner.mp3.tmp");
    assert_eq!(first.final_file_name(), second.final_file_name());
    assert_eq!(first.temp_file_name(), second.temp_file_name());
}

#[test]
fn temp_suffix_is_recognised() {
    assert!(has_temp_suffix("a-b.mp3.tmp"));
    assert!(has_temp_suffix(".tmp"));
    assert!(has_temp_suffix("音乐.tmp"));
    assert!(!has_temp_suffix("a-b.mp3"));
    assert!(!has_temp_suffix("tmp"));
    assert!(!has_temp_suffix(""));
    assert!(!has_temp_suffix("a.tmp "));
    assert!(!has_temp_suffix("a.TMP"));
    assert!(!has_temp_suffix(&final_file_name("x", "y")));
    assert!(has_temp_suffix(&temp_file_name("x", "y")));
}

#[test]
fn backoff_doubles_from_one_second() {
    assert_eq!(backoff_seconds(0), 1);
    assert_eq!(backoff_seconds(1), 2);
    assert_eq!(backoff_seconds(2), 4);
    assert_eq!(backoff_seconds(3), 8);
    assert_eq!(backoff_seconds(10), 1024);
}

#[test]
fn backoff_reaches_the_largest_exponent() {
    assert_eq!(backoff_seconds(62), 1u64 << 62);
    assert_eq!(backoff_seconds(63), 1u64 << 63);
}

#[test]
fn join_puts_one_separator_between_parts() {
    assert_eq!(join(&vec![], ' '), "");
    assert_eq!(join(&vec!["BV1".to_string()], ' '), "BV1");
    assert_eq!(join(&vec!["BV1".to_string(), "BV2".to_string(), "BV3".to_string()], ' '), "BV1 BV2 BV3");
    assert_eq!(join(&vec!["".to_string(), "".to_string()], ','), ",");
}
