use vam_downloader::request::{browser_headers, header_text, is_success, Status};
use vam_downloader::retry::{Failure, NetworkFault};
use vam_downloader::task::{
    begin_transfer, download_file_task, refusal_text, CompareStep, GetReply, GetStep, HeadReply, HeadStep, Step,
    TransferReply, TransferStep,
};
use vam_downloader::task_error::TaskError;

const URL: &str = "https://example.com/files/thing.var";

fn get(step: Step) -> GetStep {
    match step {
        Step::Get(s) => s,
        other => panic!("{:?}", other),
    }
}

fn head(step: Step) -> HeadStep {
    match step {
        Step::Head(s) => s,
        other => panic!("{:?}", other),
    }
}

fn transfer(step: Step) -> TransferStep {
    match step {
        Step::Transfer(s) => s,
        other => panic!("{:?}", other),
    }
}

fn compare(step: Step) -> CompareStep {
    match step {
        Step::Compare(s) => s,
        other => panic!("{:?}", other),
    }
}

fn error(step: Step) -> TaskError {
    match step {
        Step::Done(Err(e)) => e,
        other => panic!("{:?}", other),
    }
}

fn started(skip_head: bool) -> GetStep {
    get(download_file_task(URL.to_string(), skip_head))
}

fn response(status: u16, location: Option<&[u8]>) -> GetReply {
    GetReply::Response {
        status: Status::new(status).unwrap(),
        location: location.map(|l| l.to_vec()),
    }
}

fn failed(message: &str) -> GetReply {
    GetReply::Failed(Failure { message: message.to_string(), network: None })
}

fn fault(connect: bool) -> NetworkFault {
    NetworkFault { connect, timeout: false, request: false }
}

fn named(disposition: Option<&[u8]>) -> TransferStep {
    let step = head(started(false).replied(response(200, None)));
    transfer(step.replied(HeadReply::Response { disposition: disposition.map(|d| d.to_vec()) }))
}

fn completed() -> CompareStep {
    let step = named(Some(b"attachment; filename=\"new name.var\""));
    compare(step.replied(TransferReply::Completed))
}

#[test]
fn other_schemes_are_refused() {
    for url in ["", "ftp://x/y", "example.com/x.data"] {
        let e = error(download_file_task(url.to_string(), false));
        assert!(matches!(e, TaskError::InvalidUrl { .. }));
        assert_eq!(e.message(), format!("Invalid URL: {}. Must be http/https.", url));
        assert_eq!(e.progress(), format!("Download of {} failed: Invalid URL", url));
    }
}

#[test]
fn data_files_are_not_asked_for_their_place() {
    let step = head(download_file_task("http://x/a.data".to_string(), false));
    assert_eq!(step.url(), "http://x/a.data");
    let step = transfer(download_file_task("http://x/a.data".to_string(), true));
    assert_eq!(step.url(), "http://x/a.data");
    assert_eq!(step.name(), "a.data");
}

#[test]
fn redirection_moves_the_file() {
    let step = started(false);
    assert_eq!(step.url(), URL);
    assert_eq!(step.attempt(), 1);
    assert_eq!(step.delay_secs(), 0);
    let place = b"https://cdn.example.com/x";
    assert_eq!(head(step.replied(response(303, Some(place)))).url(), "https://cdn.example.com/x");
}

#[test]
fn only_see_other_moves_the_file() {
    let place: &[u8] = b"https://cdn.example.com/x";
    assert_eq!(head(started(false).replied(response(303, None))).url(), URL);
    assert_eq!(head(started(false).replied(response(200, Some(place)))).url(), URL);
    assert!(matches!(started(false).replied(response(302, Some(place))), Step::Body(_)));
}

#[test]
fn unreadable_redirection_ends_the_download() {
    let e = error(started(false).replied(response(303, Some(b"https://x/\xff"))));
    assert_eq!(
        e.message(),
        format!("Failed to send GET request for {}: failed to convert header to a str", URL)
    );
}

#[test]
fn skipping_head_takes_the_name_from_the_url() {
    let step = transfer(started(true).replied(response(200, None)));
    assert_eq!(step.name(), "thing.var");
    let step = started(true).replied(response(303, Some(b"https://cdn.example.com/")));
    assert_eq!(transfer(step).name(), "default_filename");
}

#[test]
fn get_is_tried_four_times() {
    let mut step = started(false);
    for attempt in 2..=4u8 {
        step = get(step.replied(failed("Connection refused")));
        assert_eq!(step.attempt(), attempt);
        assert_eq!(step.delay_secs(), 2);
        assert_eq!(step.url(), URL);
    }
    let e = error(step.replied(failed("Connection refused")));
    assert!(matches!(e, TaskError::GetFailed { .. }));
    assert_eq!(
        e.message(),
        format!("Failed to send GET request for {}: Connection refused", URL)
    );
    assert_eq!(
        e.progress(),
        format!("Download of {} failed: Network error: Connection refused", URL)
    );
}

#[test]
fn lasting_get_failure_is_final() {
    let e = error(started(false).replied(failed("invalid certificate")));
    assert!(matches!(e, TaskError::GetFailed { .. }));
    let reply = GetReply::Failed(Failure {
        message: "builder error".to_string(),
        network: Some(fault(true)),
    });
    assert_eq!(get(started(false).replied(reply)).attempt(), 2);
}

#[test]
fn refusal_is_judged_by_its_body() {
    let refused = |body: Option<&str>| match started(false).replied(response(503, None)) {
        Step::Body(step) => step.read(body.map(String::from)),
        other => panic!("{:?}", other),
    };
    let e = error(refused(Some("gone")));
    assert_eq!(
        e.message(),
        format!(
            "Failed to send GET request for {}: GET request for {} failed with status 503 Service Unavailable: gone",
            URL, URL
        )
    );
    assert!(matches!(error(refused(None)), TaskError::GetFailed { .. }));
    assert_eq!(get(refused(Some("upstream Timeout"))).attempt(), 2);
}

#[test]
fn refusal_is_judged_by_its_status_too() {
    let refused = |status: u16| match started(false).replied(response(status, None)) {
        Step::Body(step) => step.read(None),
        other => panic!("{:?}", other),
    };
    assert_eq!(get(refused(408)).attempt(), 2);
    assert_eq!(get(refused(504)).attempt(), 2);
    let e = error(refused(404));
    assert_eq!(
        e.message(),
        format!(
            "Failed to send GET request for {}: GET request for {} failed with status 404 Not Found: ",
            URL, URL
        )
    );
    let url = "https://example.com/dns.var";
    let asked = get(download_file_task(url.to_string(), false));
    match asked.replied(response(404, None)) {
        Step::Body(step) => assert_eq!(get(step.read(None)).attempt(), 2),
        other => panic!("{:?}", other),
    }
}

#[test]
fn status_has_a_number_and_a_text() {
    for code in [0, 99, 1000, 65535] {
        assert!(Status::new(code).is_none());
    }
    for (code, text) in [
        (100, "100 Continue"),
        (303, "303 See Other"),
        (408, "408 Request Timeout"),
        (504, "504 Gateway Timeout"),
        (599, "599 <unknown status code>"),
        (999, "999 <unknown status code>"),
    ] {
        let status = Status::new(code).unwrap();
        assert_eq!(status.code(), code);
        assert_eq!(status.text(), text);
    }
}

#[test]
fn refusal_names_url_status_and_body() {
    assert_eq!(
        refusal_text("http://x/", "418 I'm a teapot", "short and stout"),
        "GET request for http://x/ failed with status 418 I'm a teapot: short and stout"
    );
    assert_eq!(refusal_text("", "", ""), "GET request for  failed with status : ");
}

#[test]
fn head_is_tried_four_times() {
    let failed = |passing: bool| HeadReply::Failed {
        message: "connection lost".to_string(),
        fault: fault(passing),
    };
    let mut step = head(started(false).replied(response(200, None)));
    assert_eq!(step.delay_secs(), 0);
    for attempt in 2..=4u8 {
        step = head(step.replied(failed(true)));
        assert_eq!(step.attempt(), attempt);
        assert_eq!(step.delay_secs(), 2);
    }
    let e = error(step.replied(failed(true)));
    assert!(matches!(e, TaskError::HeadFailed { .. }));
    assert_eq!(
        e.message(),
        format!("Failed to send HEAD request for {}: connection lost", URL)
    );
    assert_eq!(
        e.progress(),
        format!("Download of {} failed: HEAD request error: connection lost", URL)
    );
    let step = head(started(false).replied(response(200, None)));
    assert!(matches!(error(step.replied(failed(false))), TaskError::HeadFailed { .. }));
}

#[test]
fn server_names_the_file() {
    let step = named(Some(b"attachment; filename=\"a/b.var\";"));
    assert_eq!(step.name(), "a_b.var");
    assert_eq!(step.url(), URL);
    assert_eq!(step.attempt(), 1);
}

#[test]
fn url_names_the_file_where_the_server_does_not() {
    assert_eq!(named(None).name(), "thing.var");
    assert_eq!(named(Some(b"inline")).name(), "thing.var");
}

#[test]
fn unparsable_place_ends_the_download() {
    let e = error(download_file_task("http://[.data".to_string(), true));
    assert!(matches!(e, TaskError::UnparsableUrl { .. }));
    assert_eq!(e.message(), "Failed to parse URL http://[.data: invalid IPv6 address");
    assert_eq!(
        e.progress(),
        "Download of http://[.data failed: URL parse error: invalid IPv6 address"
    );
}

#[test]
fn transferred_file_is_named_by_the_last_segment() {
    let step = begin_transfer(&Ok(None), "data:x".to_string(), "n".to_string());
    let step = compare(transfer(step).replied(TransferReply::Completed));
    assert_eq!(step.temp_name(), "unknown_temp_file");
    assert_eq!(step.name(), "n");
    assert_eq!(completed().temp_name(), "thing.var");
    let e = error(begin_transfer(&Err("bad".to_string()), "u".to_string(), "n".to_string()));
    assert_eq!(e.message(), "Failed to parse URL u: bad");
}

#[test]
fn slow_transfer_is_tried_four_times() {
    let mut step = named(None);
    assert_eq!(step.delay_secs(), 0);
    for attempt in 2..=4u8 {
        step = transfer(step.replied(TransferReply::TimedOut));
        assert_eq!(step.attempt(), attempt);
        assert_eq!(step.delay_secs(), 2);
    }
    let e = error(step.replied(TransferReply::TimedOut));
    assert!(matches!(e, TaskError::TimedOut { .. }));
    assert_eq!(e.message(), "Download timed out after 4 attempts");
    assert_eq!(e.progress(), "Download of thing.var failed: Timed out");
}

#[test]
fn failed_transfer_is_judged_by_its_text() {
    let broken = || TransferReply::DownloadFailed("Connection reset".to_string());
    assert_eq!(transfer(named(None).replied(broken())).attempt(), 2);
    let e = error(named(None).replied(TransferReply::DownloadFailed("disk full".to_string())));
    assert!(matches!(e, TaskError::TransferFailed { .. }));
    assert_eq!(e.message(), "Download failed: disk full");
    assert_eq!(e.progress(), "Download of thing.var failed: Download failed: disk full");
    let e = error(named(None).replied(TransferReply::PrepareFailed("no file".to_string())));
    assert_eq!(e.message(), "Failed to prepare download: no file");
    let mut step = named(None);
    for _ in 0..3 {
        step = transfer(step.replied(broken()));
    }
    assert_eq!(error(step.replied(broken())).message(), "Download failed: Connection reset");
}

#[test]
fn file_with_its_path_already_is_a_success() {
    let step = completed();
    assert_eq!(step.name(), "new name.var");
    assert_eq!(step.progress(), "Download of new name.var complete");
    assert!(matches!(step.compared(true), Step::Done(Ok(()))));
}

#[test]
fn file_is_never_renamed_onto_itself() {
    for same in [true, false] {
        let step = match named(None).replied(TransferReply::Completed) {
            Step::Compare(step) => step,
            other => panic!("{:?}", other),
        };
        assert_eq!(step.name(), step.temp_name());
        assert!(matches!(step.compared(same), Step::Done(Ok(()))));
    }
}

#[test]
fn transferred_file_is_measured_and_renamed() {
    let measured = |size: Result<u64, String>| match completed().compared(false) {
        Step::ProbeTransferred(probe) => {
            assert_eq!(probe.temp_name(), "thing.var");
            match probe.probed(true) {
                Step::MeasureTransferred(measure) => {
                    assert_eq!(measure.temp_name(), "thing.var");
                    measure.measured(size)
                }
                other => panic!("{:?}", other),
            }
        }
        other => panic!("{:?}", other),
    };
    let rename = |outcome: Result<(), String>| match measured(Ok(1)) {
        Step::Rename(step) => {
            assert_eq!(step.temp_name(), "thing.var");
            assert_eq!(step.name(), "new name.var");
            step.renamed(outcome)
        }
        other => panic!("{:?}", other),
    };
    assert!(matches!(rename(Ok(())), Step::Done(Ok(()))));
    let e = error(rename(Err("in use".to_string())));
    assert!(matches!(e, TaskError::RenameFailed { .. }));
    assert_eq!(e.message(), "File rename failed for new name.var: in use");
    assert_eq!(e.progress(), "Download of new name.var failed: Rename error: in use");
    let e = error(measured(Ok(0)));
    assert!(matches!(e, TaskError::EmptyFile { .. }));
    assert_eq!(e.message(), "Downloaded file new name.var is empty");
    assert_eq!(e.progress(), "Download of new name.var failed: Empty file");
    let e = error(measured(Err("denied".to_string())));
    assert!(matches!(e, TaskError::NoMetadata { .. }));
    assert_eq!(e.message(), "Failed to get metadata for new name.var: denied");
    assert_eq!(e.progress(), "Download of new name.var failed: Metadata error: denied");
}

#[test]
fn file_may_be_under_its_name_already() {
    let target = |found: bool| match completed().compared(false) {
        Step::ProbeTransferred(probe) => match probe.probed(false) {
            Step::ProbeTarget(step) => {
                assert_eq!(step.name(), "new name.var");
                step.probed(found)
            }
            other => panic!("{:?}", other),
        },
        other => panic!("{:?}", other),
    };
    let measured = |size: Result<u64, String>| match target(true) {
        Step::MeasureTarget(step) => {
            assert_eq!(step.name(), "new name.var");
            step.measured(size)
        }
        other => panic!("{:?}", other),
    };
    let e = error(target(false));
    assert!(matches!(e, TaskError::FileMissing { .. }));
    assert_eq!(e.message(), "Final file new name.var not found after download.");
    assert_eq!(e.progress(), "Download of new name.var failed: File not found");
    assert!(matches!(measured(Ok(5)), Step::Done(Ok(()))));
    assert!(matches!(error(measured(Ok(0))), TaskError::EmptyFile { .. }));
    assert!(matches!(error(measured(Err("x".to_string()))), TaskError::NoMetadata { .. }));
}

#[test]
fn statuses_of_success_are_the_two_hundreds() {
    for status in 100..600u16 {
        assert_eq!(is_success(status), status / 100 == 2);
    }
}

#[test]
fn headers_of_visible_characters_are_text() {
    assert_eq!(header_text(b"a\tb ~"), Some("a\tb ~".to_string()));
    assert_eq!(header_text(b""), Some(String::new()));
    assert_eq!(header_text(b"a\x7f"), None);
    assert_eq!(header_text(b"\x1f"), None);
    assert_eq!(header_text("\u{e9}".as_bytes()), None);
}

#[test]
fn browser_headers_are_sent_in_order() {
    let headers = browser_headers();
    assert_eq!(headers.len(), 14);
    assert_eq!(headers[3], ("cookie", "vamhubconsent=yes"));
    assert_eq!(headers[7], ("sec-ch-ua-platform", "\"Windows\""));
    assert_eq!(headers[13].0, "user-agent");
}

#[test]
fn longest_download_takes_nineteen_answers() {
    let mut answers = 0;
    let mut step = download_file_task(URL.to_string(), false);
    loop {
        step = match step {
            Step::Get(s) => {
                let status = if s.attempt() < 4 { 503 } else { 200 };
                s.replied(response(status, None))
            }
            Step::Body(s) => s.read(Some("connection lost".to_string())),
            Step::Head(s) => {
                if s.attempt() < 4 {
                    s.replied(HeadReply::Failed { message: "x".to_string(), fault: fault(true) })
                } else {
                    s.replied(HeadReply::Response { disposition: Some(b"filename=n".to_vec()) })
                }
            }
            Step::Transfer(s) => {
                if s.attempt() < 4 {
                    s.replied(TransferReply::TimedOut)
                } else {
                    s.replied(TransferReply::Completed)
                }
            }
            Step::Compare(s) => s.compared(false),
            Step::ProbeTransferred(s) => s.probed(true),
            Step::MeasureTransferred(s) => s.measured(Ok(1)),
            Step::Rename(s) => s.renamed(Ok(())),
            Step::ProbeTarget(s) => s.probed(false),
            Step::MeasureTarget(s) => s.measured(Ok(1)),
            Step::Done(result) => {
                assert!(result.is_ok());
                break;
            }
        };
        answers += 1;
    }
    assert_eq!(answers, 19);
}
