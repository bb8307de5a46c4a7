use vam_downloader::retry::{
    is_retryable_error, tells_of_network_fault, Failure, NetworkFault, MAX_RETRIES,
    RETRY_DELAY_SECS,
};

fn text(message: &str) -> Failure {
    Failure { message: message.to_string(), network: None }
}

fn fault(connect: bool, timeout: bool, request: bool) -> Failure {
    Failure {
        message: "builder error".to_string(),
        network: Some(NetworkFault { connect, timeout, request }),
    }
}

#[test]
fn network_texts_are_retryable() {
    assert!(is_retryable_error(&text("error sending request for url (http://x/)")));
    assert!(is_retryable_error(&text("connection reset by peer")));
    assert!(is_retryable_error(&text("operation timeout")));
    assert!(is_retryable_error(&text("dns lookup failed")));
}

#[test]
fn case_of_the_text_does_not_matter() {
    assert!(is_retryable_error(&text("CONNECTION refused")));
    assert!(is_retryable_error(&text("Dns failure")));
    assert!(is_retryable_error(&text("\u{c9}CHEC: TIMEOUT")));
}

#[test]
fn case_does_not_matter_beside_other_letters() {
    let pairs = [
        ("\u{3a3}\u{3a3} Connection \u{3a3}", "\u{3a3}\u{3a3} cONNECTION \u{3a3}"),
        ("\u{c9}chec: DNS", "\u{c9}CHEC: dns"),
        ("A\u{3a3}", "a\u{3a3}"),
    ];
    for (one, other) in pairs {
        assert_eq!(is_retryable_error(&text(one)), is_retryable_error(&text(other)));
    }
    assert!(is_retryable_error(&text(pairs[0].0)));
    assert!(is_retryable_error(&text(pairs[1].0)));
    assert!(!is_retryable_error(&text(pairs[2].0)));
}

#[test]
fn longer_text_stays_retryable() {
    for inner in ["Connection reset", "\u{391}\u{3a3}TIMEOUT\u{3a3}", "dns", "error sending request"] {
        assert!(is_retryable_error(&text(inner)));
        for (before, after) in [("", ""), ("a", "b"), ("\u{3a3}", "\u{3a3}"), ("\u{130}", "\u{212a}")] {
            assert!(is_retryable_error(&text(&format!("{before}{inner}{after}"))));
        }
    }
}

#[test]
fn letters_outside_ascii_make_no_word() {
    assert!(!is_retryable_error(&text("connect\u{130}on")));
    assert!(!is_retryable_error(&text("t\u{131}meout")));
    assert!(!is_retryable_error(&text("\u{ff24}NS")));
}

#[test]
fn each_character_is_lowered_by_itself() {
    for c in '\0'..=char::MAX {
        let by_itself = c.to_string().to_lowercase();
        if c.is_ascii() {
            assert_eq!(by_itself, c.to_ascii_lowercase().to_string());
        }
        let within = format!("A{c}B").to_lowercase();
        assert_eq!(within, format!("a{by_itself}b"));
        let at_the_end = format!("A{c}").to_lowercase();
        if c == '\u{3a3}' {
            assert_eq!(at_the_end, "a\u{3c2}");
        } else {
            assert_eq!(at_the_end, format!("a{by_itself}"));
        }
    }
}

#[test]
fn other_texts_are_not_retryable() {
    assert!(!is_retryable_error(&text("")));
    assert!(!is_retryable_error(&text("404 Not Found")));
    assert!(!is_retryable_error(&text("timed out")));
    assert!(!is_retryable_error(&text("failed to convert header to a str")));
}

#[test]
fn client_faults_are_retryable() {
    assert!(is_retryable_error(&fault(true, false, false)));
    assert!(is_retryable_error(&fault(false, true, false)));
    assert!(is_retryable_error(&fault(false, false, true)));
    assert!(!is_retryable_error(&fault(false, false, false)));
}

#[test]
fn lowered_text_is_searched_as_it_is() {
    assert!(tells_of_network_fault("a connection"));
    assert!(!tells_of_network_fault("a Connection"));
}

#[test]
fn there_are_three_retries_two_seconds_apart() {
    assert_eq!(MAX_RETRIES, 3);
    assert_eq!(RETRY_DELAY_SECS, 2);
}
