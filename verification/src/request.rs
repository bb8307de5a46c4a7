//! The requests that the downloader sends and what it reads in the responses.

use vstd::prelude::*;

use crate::outside::status_line;
use crate::outside::status_text;

verus! {

/// The status that sends the client to another place.
pub const SEE_OTHER: u16 = 303;

/// The time limit of a request, in seconds.
pub const REQUEST_TIMEOUT_SECS: u64 = 30;

/// The time limit of one transfer, in seconds.
pub const TRANSFER_TIMEOUT_SECS: u64 = 300;

/// The size of the pieces in which a file is transferred: ten mebibytes.
pub const CHUNK_SIZE: usize = 10485760;

/// The number of connections that share one transfer.
pub const CONNECTIONS: u8 = 4;

/// The status of a response.
#[derive(Debug)]
pub struct Status {
    code: u16,
    text: String,
}

/// A status as text. A number that is no status has none.
pub open spec fn status_words(code: u16) -> Seq<char> {
    match status_line(code) {
        Some(text) => text,
        None => Seq::empty(),
    }
}

impl Status {
    #[verifier::type_invariant]
    spec fn inv(self) -> bool {
        status_line(self.code) == Some(self.text@)
    }

    /// The number of the status.
    pub closed spec fn view(&self) -> u16 {
        self.code
    }

    /// The status with a number, where there is one.
    pub fn new(code: u16) -> (r: Option<Status>)
        ensures
            r is Some <==> 100 <= code <= 999,
            r matches Some(status) ==> status@ == code,
    {
        match status_text(code) {
            Some(text) => Some(Status { code, text }),
            None => None,
        }
    }

    /// The number of the status.
    pub fn code(&self) -> (r: u16)
        ensures
            r == self@,
    {
        self.code
    }

    /// The status as text: its number and the phrase that stands for it.
    pub fn text(&self) -> (r: &str)
        ensures
            status_line(self@) == Some(r@),
            r@ == status_words(self@),
    {
        proof {
            use_type_invariant(self);
        }
        self.text.as_str()
    }
}

/// Whether a status tells of success.
pub open spec fn success(status: u16) -> bool {
    200 <= status < 300
}

/// Whether a status tells of success.
pub fn is_success(status: u16) -> (r: bool)
    ensures
        r == success(status),
{
    200 <= status && status < 300
}

/// Whether a byte of a header is a visible character of ASCII, a space or a tab.
pub open spec fn visible(b: u8) -> bool {
    32 <= b < 127 || b == 9
}

/// Whether a header can be read as text.
pub open spec fn readable(header: Seq<u8>) -> bool {
    forall|i: int| 0 <= i < header.len() ==> visible(#[trigger] header[i])
}

/// The text of a header, one character to a byte.
pub open spec fn header_chars(header: Seq<u8>) -> Seq<char> {
    header.map_values(|b: u8| b as char)
}

/// Reads a header as text.
pub fn header_text(header: &[u8]) -> (r: Option<String>)
    ensures
        r is Some <==> readable(header@),
        r matches Some(s) ==> s@ == header_chars(header@),
{
    let mut out = String::new();
    let mut i: usize = 0;
    while i < header.len()
        invariant
            i <= header@.len(),
            out@ == header_chars(header@.take(i as int)),
            forall|j: int| 0 <= j < i ==> visible(#[trigger] header@[j]),
        decreases header@.len() - i,
    {
        let b = header[i];
        if !((32 <= b && b < 127) || b == 9) {
            return None;
        }
        out.push(b as char);
        assert(out@ =~= header_chars(header@.take(i + 1)));
        i += 1;
    }
    assert(header@.take(i as int) =~= header@);
    Some(out)
}

/// The headers with which a download is asked for, as a browser would send them.
pub open spec fn browser_header_list() -> Seq<(Seq<char>, Seq<char>)> {
    seq![
        (
            "accept"@,
            "text/html,application/xhtml+xml,application/xml;q=0.9,image/avif,image/webp,image/apng,*/*;q=0.8,application/signed-exchange;v=b3;q=0.7"@,
        ),
        ("accept-encoding"@, "gzip, deflate, br, zstd"@),
        ("accept-language"@, "en-US,en;q=0.9"@),
        ("cookie"@, "vamhubconsent=yes"@),
        ("dnt"@, "1"@),
        (
            "sec-ch-ua"@,
            "\"Not)A;Brand\";v=\"99\", \"Microsoft Edge\";v=\"127\", \"Chromium\";v=\"127\""@,
        ),
        ("sec-ch-ua-mobile"@, "?0"@),
        ("sec-ch-ua-platform"@, "\"Windows\""@),
        ("sec-fetch-dest"@, "document"@),
        ("sec-fetch-mode"@, "navigate"@),
        ("sec-fetch-site"@, "none"@),
        ("sec-fetch-user"@, "?1"@),
        ("upgrade-insecure-requests"@, "1"@),
        (
            "user-agent"@,
            "Mozilla/5.0 (Windows NT 10.0; Win64; x64) AppleWebKit/537.36 (KHTML, like Gecko) Chrome/127.0.0.0 Safari/537.36 Edg/127.0.0.0"@,
        ),
    ]
}

/// The headers with which a download is asked for, each with its value.
pub fn browser_headers() -> (r: Vec<(&'static str, &'static str)>)
    ensures
        r@.map_values(|h: (&'static str, &'static str)| (h.0@, h.1@)) == browser_header_list(),
{
    let r = vec![
        (
            "accept",
            "text/html,application/xhtml+xml,application/xml;q=0.9,image/avif,image/webp,image/apng,*/*;q=0.8,application/signed-exchange;v=b3;q=0.7",
        ),
        ("accept-encoding", "gzip, deflate, br, zstd"),
        ("accept-language", "en-US,en;q=0.9"),
        ("cookie", "vamhubconsent=yes"),
        ("dnt", "1"),
        (
            "sec-ch-ua",
            "\"Not)A;Brand\";v=\"99\", \"Microsoft Edge\";v=\"127\", \"Chromium\";v=\"127\"",
        ),
        ("sec-ch-ua-mobile", "?0"),
        ("sec-ch-ua-platform", "\"Windows\""),
        ("sec-fetch-dest", "document"),
        ("sec-fetch-mode", "navigate"),
        ("sec-fetch-site", "none"),
        ("sec-fetch-user", "?1"),
        ("upgrade-insecure-requests", "1"),
        (
            "user-agent",
            "Mozilla/5.0 (Windows NT 10.0; Win64; x64) AppleWebKit/537.36 (KHTML, like Gecko) Chrome/127.0.0.0 Safari/537.36 Edg/127.0.0.0",
        ),
    ];
    assert(r@.map_values(|h: (&'static str, &'static str)| (h.0@, h.1@)) =~= browser_header_list());
    r
}

/// A header of visible characters, spaces and tabs is read as it is; one with any other byte is not
/// read.
pub proof fn header_is_read_byte_by_byte(header: Seq<u8>)
    ensures
        readable(header) <==> forall|i: int|
            0 <= i < header.len() ==> 32 <= #[trigger] header[i] <= 126 || header[i] == 9,
        header_chars(header).len() == header.len(),
        forall|i: int|
            0 <= i < header.len() ==> #[trigger] header_chars(header)[i] == header[i] as char,
{
    if readable(header) {
        assert forall|i: int| 0 <= i < header.len() implies 32 <= #[trigger] header[i] <= 126
            || header[i] == 9 by {
            assert(visible(header[i]));
        }
    }
}

/// The statuses of success are those from 200 to 299.
pub proof fn success_is_two_hundred_and_something(status: u16)
    ensures
        success(status) <==> status / 100 == 2,
{
}

/// A status is told by the words that stand for it.
pub proof fn status_is_told_by_its_words(code: u16, text: Seq<char>)
    requires
        status_line(code) == Some(text),
    ensures
        status_words(code) == text,
{
}

/// A request is given up after half a minute and a transfer after five; a transfer goes over four
/// connections, in pieces of ten mebibytes.
pub proof fn limits_of_requests_and_transfers()
    ensures
        REQUEST_TIMEOUT_SECS == 30,
        TRANSFER_TIMEOUT_SECS == 5 * 60,
        CONNECTIONS == 4,
        CHUNK_SIZE == 10 * 1024 * 1024,
{
}

/// A request has fourteen headers, each name once, and they are those of a browser that opens a
/// page by itself and has agreed to the terms.
pub proof fn request_looks_like_that_of_a_browser()
    ensures
        browser_header_list().len() == 14,
        browser_header_list().contains(
            (
                "accept"@,
                "text/html,application/xhtml+xml,application/xml;q=0.9,image/avif,image/webp,image/apng,*/*;q=0.8,application/signed-exchange;v=b3;q=0.7"@,
            ),
        ),
        browser_header_list().contains(("accept-encoding"@, "gzip, deflate, br, zstd"@)),
        browser_header_list().contains(("accept-language"@, "en-US,en;q=0.9"@)),
        browser_header_list().contains(("cookie"@, "vamhubconsent=yes"@)),
        browser_header_list().contains(("dnt"@, "1"@)),
        browser_header_list().contains(
            (
                "sec-ch-ua"@,
                "\"Not)A;Brand\";v=\"99\", \"Microsoft Edge\";v=\"127\", \"Chromium\";v=\"127\""@,
            ),
        ),
        browser_header_list().contains(("sec-ch-ua-mobile"@, "?0"@)),
        browser_header_list().contains(("sec-ch-ua-platform"@, "\"Windows\""@)),
        browser_header_list().contains(("sec-fetch-dest"@, "document"@)),
        browser_header_list().contains(("sec-fetch-mode"@, "navigate"@)),
        browser_header_list().contains(("sec-fetch-site"@, "none"@)),
        browser_header_list().contains(("sec-fetch-user"@, "?1"@)),
        browser_header_list().contains(("upgrade-insecure-requests"@, "1"@)),
        browser_header_list().contains(
            (
                "user-agent"@,
                "Mozilla/5.0 (Windows NT 10.0; Win64; x64) AppleWebKit/537.36 (KHTML, like Gecko) Chrome/127.0.0.0 Safari/537.36 Edg/127.0.0.0"@,
            ),
        ),
{
    let all = browser_header_list();
    assert(all[0].0 == "accept"@);
    assert(all[1].0 == "accept-encoding"@);
    assert(all[2].0 == "accept-language"@);
    assert(all[3].0 == "cookie"@);
    assert(all[4].0 == "dnt"@);
    assert(all[5].0 == "sec-ch-ua"@);
    assert(all[6].0 == "sec-ch-ua-mobile"@);
    assert(all[7].0 == "sec-ch-ua-platform"@);
    assert(all[8].0 == "sec-fetch-dest"@);
    assert(all[9].0 == "sec-fetch-mode"@);
    assert(all[10].0 == "sec-fetch-site"@);
    assert(all[11].0 == "sec-fetch-user"@);
    assert(all[12].0 == "upgrade-insecure-requests"@);
    assert(all[13].0 == "user-agent"@);
}

} // verus!
