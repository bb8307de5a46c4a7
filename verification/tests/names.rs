use vam_downloader::filename::{
    file_name_for, last_segment, name_from_disposition, name_from_groups, name_from_path, name_from_url, sanitize,
};

fn some(s: &str) -> Option<String> {
    Some(s.to_string())
}

#[test]
fn sanitize_replaces_forbidden_characters() {
    assert_eq!(sanitize("a\\b/c:d*e?f\"g<h>i|j.var"), "a_b_c_d_e_f_g_h_i_j.var");
    assert_eq!(sanitize("plain name.var"), "plain name.var");
}

#[test]
fn sanitize_drops_semicolons_at_the_end_only() {
    assert_eq!(sanitize("a;b.var;;"), "a;b.var");
    assert_eq!(sanitize("/;"), "_");
}

#[test]
fn sanitize_never_gives_an_empty_name() {
    assert_eq!(sanitize(""), "default_filename");
    assert_eq!(sanitize(";;;"), "default_filename");
}

#[test]
fn sanitizing_twice_changes_nothing_more() {
    for s in ["", ";", "a/b;", "x;:;", "\u{4f60}?.var"] {
        let once = sanitize(s);
        assert_eq!(sanitize(&once), once);
        assert!(!once.is_empty());
        assert!(!once.contains(|c| "\\/:*?\"<>|".contains(c)));
        assert!(!once.ends_with(';'));
    }
}

#[test]
fn url_gives_its_last_segment() {
    assert_eq!(name_from_url("https://example.com/a/b.var?x=1#y"), "b.var");
    assert_eq!(name_from_url("https://example.com/a/vi\u{1ec7}t nam"), "vi%E1%BB%87t%20nam");
    assert_eq!(name_from_url("https://example.com/a/"), "");
    assert_eq!(name_from_url("https://example.com"), "");
}

#[test]
fn url_without_segments_gives_the_default() {
    assert_eq!(name_from_url("data:text/plain,HelloWorld"), "default_filename");
    assert_eq!(name_from_url("not a url"), "default_filename");
}

#[test]
fn last_segment_is_taken_from_a_parsed_url() {
    let parts = Ok(Some(vec!["a".to_string(), "b".to_string()]));
    assert_eq!(last_segment(&parts), some("b"));
    assert_eq!(last_segment(&Ok(Some(vec![]))), None);
    assert_eq!(last_segment(&Ok(None)), None);
    assert_eq!(last_segment(&Err("empty host".to_string())), None);
}

#[test]
fn quoted_group_comes_before_the_bare_one() {
    let groups = |one: Option<&str>, two: Option<&str>| {
        Some(Some(vec![some("all"), one.map(String::from), two.map(String::from)]))
    };
    assert_eq!(name_from_groups(&groups(Some("q"), None)), some("q"));
    assert_eq!(name_from_groups(&groups(None, Some("b"))), some("b"));
    assert_eq!(name_from_groups(&groups(Some("q"), Some("b"))), some("q"));
    assert_eq!(name_from_groups(&groups(None, None)), None);
    assert_eq!(name_from_groups(&Some(Some(vec![some("all")]))), None);
    assert_eq!(name_from_groups(&Some(None)), None);
    assert_eq!(name_from_groups(&None), None);
}

#[test]
fn disposition_gives_a_quoted_name() {
    assert_eq!(
        name_from_disposition(b"attachment; filename=\"some file.var\""),
        some("some file.var")
    );
    assert_eq!(
        name_from_disposition(b"attachment; filename=\"a.var\"; size=3"),
        some("a.var")
    );
}

#[test]
fn disposition_gives_a_bare_name() {
    assert_eq!(name_from_disposition(b"attachment; filename=a.var"), some("a.var"));
    assert_eq!(name_from_disposition(b"attachment; filename=a.var;size=3"), some("a.var"));
    assert_eq!(
        name_from_disposition(b"attachment; filename*=UTF-8''a.var"),
        some("UTF-8''a.var")
    );
}

#[test]
fn disposition_is_percent_decoded_first() {
    assert_eq!(
        name_from_disposition(b"attachment; filename=\"%E4%BD%A0%20x.var\""),
        some("\u{4f60} x.var")
    );
    assert_eq!(name_from_disposition(b"filename=100%.var"), some("100%.var"));
    assert_eq!(name_from_disposition(b"filename=a%20b.var"), None);
}

#[test]
fn disposition_without_a_name_gives_none() {
    assert_eq!(name_from_disposition(b""), None);
    assert_eq!(name_from_disposition(b"inline"), None);
    assert_eq!(name_from_disposition(b"attachment; filename="), None);
    assert_eq!(name_from_disposition(b"attachment; filename=\"%FF.var\""), None);
}

#[test]
fn path_gives_its_final_component() {
    assert_eq!(name_from_path("https://example.com/a/b.var?x=1"), "b.var?x=1");
    assert_eq!(name_from_path("https://example.com/a/b.var/"), "b.var");
    assert_eq!(name_from_path("https://example.com/a/./"), "a");
    assert_eq!(name_from_path("https://example.com"), "example.com");
}

#[test]
fn backslashes_are_read_in_one_of_two_ways() {
    let name = name_from_path("https://example.com/a\\b.var");
    assert!(name == "a\\b.var" || name == "b.var");
    let last = name_from_path("https://example.com/a.var\\");
    assert!(last == "a.var\\" || last == "a.var");
}

#[test]
fn path_without_a_final_component_gives_the_default() {
    assert_eq!(name_from_path("https://example.com/.."), "default_filename");
    assert_eq!(name_from_path("/"), "default_filename");
    assert_eq!(name_from_path(""), "default_filename");
    assert_eq!(name_from_path("."), "default_filename");
}

#[test]
fn name_of_the_server_comes_first() {
    assert_eq!(file_name_for(some("a:b"), "c".to_string()), "a_b");
    assert_eq!(file_name_for(None, "c?d;".to_string()), "c_d");
    assert_eq!(file_name_for(some(";"), "c".to_string()), "default_filename");
}
