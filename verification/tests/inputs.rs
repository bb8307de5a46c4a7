use vam_downloader::input::{resolve_url_input, InputError, InputStep};
use vam_downloader::urls::{is_http_url, keep_http_urls, urls_from_file};

fn strings(list: &[&str]) -> Vec<String> {
    list.iter().map(|s| s.to_string()).collect()
}

fn probed(input: &str, is_file: bool) -> InputStep {
    match resolve_url_input(input.to_string()) {
        InputStep::Probe(step) => {
            assert_eq!(step.input(), input);
            step.probed(is_file)
        }
        other => panic!("{:?}", other),
    }
}

fn replied(input: &str, status: Option<u16>) -> InputStep {
    match probed(input, false) {
        InputStep::Fetch(step) => {
            assert_eq!(step.input(), input);
            step.replied(status)
        }
        other => panic!("{:?}", other),
    }
}

fn urls(step: InputStep) -> Vec<String> {
    match step {
        InputStep::Done(Ok(list)) => list,
        other => panic!("{:?}", other),
    }
}

#[test]
fn only_http_and_https_are_urls() {
    assert!(is_http_url("http://x"));
    assert!(is_http_url("https://"));
    assert!(!is_http_url("HTTP://x"));
    assert!(!is_http_url("ftp://x"));
    assert!(!is_http_url(" http://x"));
    assert!(!is_http_url(""));
}

#[test]
fn file_lines_are_trimmed_and_filtered() {
    let content = "  http://a/1 \r\n\r\n# note\nhttps://b/2\nftp://c\n\thttp://d";
    assert_eq!(urls_from_file(content), strings(&["http://a/1", "https://b/2", "http://d"]));
    assert_eq!(urls_from_file(""), strings(&[]));
}

#[test]
fn list_of_urls_is_kept_in_order() {
    let list = strings(&["https://b", "http://a", "https://b"]);
    assert_eq!(keep_http_urls(list.clone()), list);
    assert_eq!(keep_http_urls(strings(&["x", " http://a", "http://c"])), strings(&["http://c"]));
}

#[test]
fn file_input_gives_its_urls() {
    match probed("list.txt", true) {
        InputStep::ReadFile(step) => {
            assert_eq!(step.input(), "list.txt");
            let content = Ok("http://a\nx\n".to_string());
            assert_eq!(urls(step.read(content)), strings(&["http://a"]));
        }
        other => panic!("{:?}", other),
    }
}

#[test]
fn file_comes_before_url() {
    assert!(matches!(probed("http://a", true), InputStep::ReadFile(_)));
}

#[test]
fn unreadable_file_is_an_error() {
    match probed("list.txt", true) {
        InputStep::ReadFile(step) => match step.read(Err("no access".to_string())) {
            InputStep::Done(Err(e)) => {
                assert!(matches!(e, InputError::Unreadable { .. }));
                assert_eq!(e.message(), "Failed to read file list.txt: no access");
            }
            other => panic!("{:?}", other),
        },
        other => panic!("{:?}", other),
    }
}

#[test]
fn neither_file_nor_url_is_an_error() {
    match probed("nonsense", false) {
        InputStep::Done(Err(e)) => {
            assert!(matches!(e, InputError::Invalid { .. }));
            assert_eq!(
                e.message(),
                "Invalid input: nonsense. Must be a file path or an HTTP/S URL."
            );
        }
        other => panic!("{:?}", other),
    }
}

#[test]
fn url_without_a_list_is_the_one_url() {
    assert_eq!(urls(replied("http://a", None)), strings(&["http://a"]));
    assert_eq!(urls(replied("http://a", Some(404))), strings(&["http://a"]));
    assert_eq!(urls(replied("http://a", Some(303))), strings(&["http://a"]));
    match replied("http://a", Some(200)) {
        InputStep::Decode(step) => assert_eq!(urls(step.decoded(None)), strings(&["http://a"])),
        other => panic!("{:?}", other),
    }
}

#[test]
fn url_of_a_list_gives_the_urls_in_it() {
    match replied("http://a", Some(299)) {
        InputStep::Decode(step) => {
            let list = strings(&["http://b", "c", "https://d", " http://e"]);
            assert_eq!(urls(step.decoded(Some(list))), strings(&["http://b", "https://d"]));
        }
        other => panic!("{:?}", other),
    }
}
