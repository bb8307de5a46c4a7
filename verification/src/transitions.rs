//! What each answer leads to in a download, told by the answer itself.

use vstd::prelude::*;

use crate::filename::disposition_name;
use crate::filename::sanitized;
use crate::outside::possible_file_name;
use crate::outside::status_line;
use crate::outside::url_path_segments;
use crate::retry::retryable;
use crate::retry::FailureView;
use crate::retry::NetworkFault;
use crate::runs::moves;
use crate::runs::unreadable_redirection_is_final;
use crate::runs::Event;
use crate::task::first_phase;
use crate::task::named_phase;
use crate::task::pause;
use crate::task::served_name;
use crate::task::GetReplyView;
use crate::task::HeadReplyView;
use crate::task::Phase;
use crate::task::TransferReplyView;
use crate::task_error::TaskErrorView;

verus! {

/// The last part of a URL's path, where the URL could be parsed and its path has parts.
pub open spec fn last_part(url: Seq<char>) -> Option<Seq<char>> {
    match url_path_segments(url) {
        Ok(Some(parts)) if parts.len() > 0 => Some(parts[parts.len() - 1]),
        _ => None,
    }
}

/// Whether the first transfer from `place` comes next, of a file to be named `name`. A place that
/// cannot be parsed ends the download instead.
pub open spec fn transfers_from(place: Seq<char>, name: Seq<char>, q: Phase) -> bool {
    match url_path_segments(place) {
        Err(cause) => q == Phase::Done(Err(TaskErrorView::UnparsableUrl { url: place, cause })),
        Ok(_) => {
            &&& q matches Phase::Transfer { url, name: named, temp, attempt }
            &&& url == place
            &&& named == name
            &&& attempt == 1
            &&& last_part(place) matches Some(part) ==> temp == part
            &&& last_part(place) is None ==> temp == "unknown_temp_file"@
        },
    }
}

/// Whether a download goes on from the place `place`: with the first HEAD request for it or, where
/// those are skipped, with the transfer of a file that is named after the end of the place.
pub open spec fn goes_on_at(place: Seq<char>, skip_head: bool, q: Phase) -> bool {
    if skip_head {
        transfers_from(
            place,
            sanitized(
                match last_part(place) {
                    Some(part) => part,
                    None => "default_filename"@,
                },
            ),
            q,
        )
    } else {
        q == (Phase::Head { url: place, attempt: 1 })
    }
}

/// The download of an HTTP URL begins with a GET request for it, unless the URL ends with `.data`:
/// then the URL is the file's place already.
pub proof fn download_begins_at_its_url(url: Seq<char>, skip_head: bool)
    requires
        "http://"@.is_prefix_of(url) || "https://"@.is_prefix_of(url),
    ensures
        !".data"@.is_suffix_of(url) ==> first_phase(url, skip_head) == (Phase::Get {
            url,
            skip_head,
            attempt: 1,
        }),
        ".data"@.is_suffix_of(url) ==> goes_on_at(url, skip_head, first_phase(url, skip_head)),
{
}

/// The download of anything but an HTTP URL is over before it begins.
pub proof fn other_urls_are_refused(url: Seq<char>, skip_head: bool)
    requires
        !"http://"@.is_prefix_of(url),
        !"https://"@.is_prefix_of(url),
    ensures
        first_phase(url, skip_head) == Phase::Done(Err(TaskErrorView::InvalidUrl { url })),
{
}

/// A redirection is followed: the text of its header, one character to a byte, is the place of the
/// file, whatever was asked for.
pub proof fn redirection_is_followed(p: Phase, header: Seq<u8>, q: Phase)
    requires
        p is Get,
        forall|i: int|
            0 <= i < header.len() ==> 32 <= #[trigger] header[i] <= 126 || header[i] == 9,
        moves(p, Event::Got(GetReplyView::Response { status: 303, location: Some(header) }), q),
    ensures
        goes_on_at(
            Seq::new(header.len(), |i: int| header[i] as char),
            p->Get_skip_head,
            q,
        ),
        !p->Get_skip_head ==> q == (Phase::Head {
            url: Seq::new(header.len(), |i: int| header[i] as char),
            attempt: 1,
        }),
{
    assert(header.map_values(|b: u8| b as char) =~= Seq::new(
        header.len(),
        |i: int| header[i] as char,
    ));
}

/// A redirection whose header holds a byte that is no text is a lasting failure.
pub proof fn garbled_redirection_is_no_place(p: Phase, header: Seq<u8>, i: int, q: Phase)
    requires
        p is Get,
        0 <= i < header.len(),
        header[i] < 32 && header[i] != 9 || header[i] > 126,
        moves(p, Event::Got(GetReplyView::Response { status: 303, location: Some(header) }), q),
    ensures
        q == Phase::Done(
            Err(
                TaskErrorView::GetFailed {
                    url: p->Get_url,
                    cause: "failed to convert header to a str"@,
                },
            ),
        ),
{
    unreadable_redirection_is_final(p, header, q);
}

/// A response of success, or a redirection without a place, leaves the file at its URL.
pub proof fn url_is_the_place_unless_redirected(
    p: Phase,
    status: u16,
    location: Option<Seq<u8>>,
    q: Phase,
)
    requires
        p is Get,
        200 <= status <= 299 || (status == 303 && location is None),
        moves(p, Event::Got(GetReplyView::Response { status, location }), q),
    ensures
        goes_on_at(p->Get_url, p->Get_skip_head, q),
{
}

/// Any other status is a refusal, of which the body is read.
pub proof fn other_statuses_refuse(p: Phase, status: u16, location: Option<Seq<u8>>, q: Phase)
    requires
        p is Get,
        status < 200 || status > 299,
        status != 303,
        moves(p, Event::Got(GetReplyView::Response { status, location }), q),
    ensures
        q == (Phase::Body {
            url: p->Get_url,
            skip_head: p->Get_skip_head,
            attempt: p->Get_attempt,
            status,
        }),
{
}

/// A GET request without a response is sent again, to the same URL, exactly if the failure is worth
/// it and it was not the fourth attempt; else its error text is the cause with which the download
/// fails.
pub proof fn failed_get_is_sent_again(p: Phase, failure: FailureView, q: Phase)
    requires
        p is Get,
        moves(p, Event::Got(GetReplyView::Failed(failure)), q),
    ensures
        retryable(failure) && p->Get_attempt < 4 ==> q == (Phase::Get {
            url: p->Get_url,
            skip_head: p->Get_skip_head,
            attempt: p->Get_attempt + 1,
        }),
        !retryable(failure) || p->Get_attempt >= 4 ==> q == Phase::Done(
            Err(TaskErrorView::GetFailed { url: p->Get_url, cause: failure.message }),
        ),
{
}

/// A refusal is judged by a text that names the URL, the status and the body; a body that cannot be
/// read counts as empty. The request is sent again or the text is the cause of the failure.
pub proof fn refusal_is_retried_or_final(
    p: Phase,
    text: Seq<char>,
    body: Option<Seq<char>>,
    shown: Seq<char>,
    q: Phase,
)
    requires
        p is Body,
        status_line(p->Body_status) == Some(text),
        body matches Some(b) ==> shown == b,
        body is None ==> shown == Seq::<char>::empty(),
        moves(p, Event::Read(body), q),
    ensures
        ({
            let message = "GET request for "@ + p->Body_url + " failed with status "@ + text + ": "@
                + shown;
            let again = retryable(FailureView { message, network: None }) && p->Body_attempt < 4;
            &&& again ==> q == (Phase::Get {
                url: p->Body_url,
                skip_head: p->Body_skip_head,
                attempt: p->Body_attempt + 1,
            })
            &&& !again ==> q == Phase::Done(
                Err(TaskErrorView::GetFailed { url: p->Body_url, cause: message }),
            )
        }),
{
}

/// A HEAD request that failed for want of a connection, of time or of a way to send it is sent
/// again, unless it was the fourth: each of the three is reason enough, whatever the other two and
/// the error text are. For any other reason the download fails at once.
pub proof fn failed_head_is_sent_again(
    p: Phase,
    message: Seq<char>,
    fault: NetworkFault,
    q: Phase,
)
    requires
        p is Head,
        moves(p, Event::HeadGot(HeadReplyView::Failed { message, fault }), q),
    ensures
        fault.connect && p->Head_attempt < 4 ==> q == (Phase::Head {
            url: p->Head_url,
            attempt: p->Head_attempt + 1,
        }),
        fault.timeout && p->Head_attempt < 4 ==> q == (Phase::Head {
            url: p->Head_url,
            attempt: p->Head_attempt + 1,
        }),
        fault.request && p->Head_attempt < 4 ==> q == (Phase::Head {
            url: p->Head_url,
            attempt: p->Head_attempt + 1,
        }),
        !fault.connect && !fault.timeout && !fault.request || p->Head_attempt >= 4 ==> q
            == Phase::Done(Err(TaskErrorView::HeadFailed { url: p->Head_url, cause: message })),
{
}

/// Where the server gives the file a name, that is its name, whatever the URL is.
pub proof fn name_of_the_server_wins(p: Phase, header: Seq<u8>, given: Seq<char>, q: Phase)
    requires
        p is Head,
        disposition_name(header) == Some(given),
        moves(p, Event::HeadGot(HeadReplyView::Response { disposition: Some(header) }), q),
    ensures
        transfers_from(p->Head_url, sanitized(given), q),
{
}

/// Where the server gives no name, the file is named after the end of the URL, read as a path, and
/// has the default name where the path ends with none.
pub proof fn nameless_file_is_named_after_its_url(
    p: Phase,
    disposition: Option<Seq<u8>>,
    q: Phase,
)
    requires
        p is Head,
        disposition matches Some(header) ==> disposition_name(header) is None,
        moves(p, Event::HeadGot(HeadReplyView::Response { disposition }), q),
    ensures
        (exists|end: Seq<char>| #[trigger]
            possible_file_name(p->Head_url, Some(end)) && transfers_from(
                p->Head_url,
                sanitized(end),
                q,
            )) || (possible_file_name(p->Head_url, None) && transfers_from(
            p->Head_url,
            sanitized("default_filename"@),
            q,
        )),
{
    let url = p->Head_url;
    let end = choose|n: Option<Seq<char>>| #[trigger]
        possible_file_name(url, n) && q == named_phase(
            url,
            sanitized(served_name(disposition, n)),
        );
    assert(possible_file_name(url, end));
    if let Some(n) = end {
        assert(possible_file_name(url, Some(n)));
    }
}

/// A transfer that went through is followed by placing the file.
pub proof fn complete_transfer_is_placed(p: Phase, q: Phase)
    requires
        p is Transfer,
        moves(p, Event::Transferred(TransferReplyView::Completed), q),
    ensures
        q == (Phase::Compare { name: p->Transfer_name, temp: p->Transfer_temp }),
{
}

/// A transfer that took too long is begun again, unless it was the fourth.
pub proof fn slow_transfer_is_begun_again(p: Phase, q: Phase)
    requires
        p is Transfer,
        1 <= p->Transfer_attempt <= 4,
        moves(p, Event::Transferred(TransferReplyView::TimedOut), q),
    ensures
        p->Transfer_attempt < 4 ==> q == (Phase::Transfer {
            url: p->Transfer_url,
            name: p->Transfer_name,
            temp: p->Transfer_temp,
            attempt: p->Transfer_attempt + 1,
        }),
        p->Transfer_attempt == 4 ==> q == Phase::Done(
            Err(TaskErrorView::TimedOut { name: p->Transfer_name, attempts: 4 }),
        ),
{
}

/// A transfer that failed is begun again exactly if its error text tells of a fault of the network
/// and it was not the fourth; else that text is the cause of the failure.
pub proof fn failed_transfer_is_begun_again(
    p: Phase,
    cause: Seq<char>,
    prepared: bool,
    q: Phase,
)
    requires
        p is Transfer,
        prepared ==> moves(p, Event::Transferred(TransferReplyView::DownloadFailed(cause)), q),
        !prepared ==> moves(p, Event::Transferred(TransferReplyView::PrepareFailed(cause)), q),
    ensures
        ({
            let message = if prepared {
                "Download failed: "@ + cause
            } else {
                "Failed to prepare download: "@ + cause
            };
            let again = retryable(FailureView { message, network: None }) && p->Transfer_attempt
                < 4;
            &&& again ==> q == (Phase::Transfer {
                url: p->Transfer_url,
                name: p->Transfer_name,
                temp: p->Transfer_temp,
                attempt: p->Transfer_attempt + 1,
            })
            &&& !again ==> q == Phase::Done(
                Err(TaskErrorView::TransferFailed { name: p->Transfer_name, cause: message }),
            )
        }),
{
}

/// A file that has its path already is in place, and one name is one path; else the transferred
/// file is looked for.
pub proof fn file_is_moved_only_to_another_path(p: Phase, same: bool, q: Phase)
    requires
        p is Compare,
        moves(p, Event::Compared(same), q),
    ensures
        same || p->Compare_name == p->Compare_temp ==> q == Phase::Done(Ok(())),
        !same && p->Compare_name != p->Compare_temp ==> q == (Phase::ProbeTransferred {
            name: p->Compare_name,
            temp: p->Compare_temp,
        }),
{
}

/// A transferred file that is there is measured; for one that is not, the name that it is to have
/// is looked up, and without a file there the download fails.
pub proof fn file_is_looked_for_in_both_places(p: Phase, found: bool, q: Phase)
    requires
        p is ProbeTransferred || p is ProbeTarget,
        moves(p, Event::Probed(found), q),
    ensures
        p matches Phase::ProbeTransferred { name, temp } ==> {
            &&& found ==> q == (Phase::MeasureTransferred { name, temp })
            &&& !found ==> q == (Phase::ProbeTarget { name, temp })
        },
        p matches Phase::ProbeTarget { name, temp } ==> {
            &&& found ==> q == (Phase::MeasureTarget { name, temp })
            &&& !found ==> q == Phase::Done(Err(TaskErrorView::FileMissing { name }))
        },
{
}

/// A file of any size above zero is good: the transferred one is renamed, and the one that has its
/// name already is the result.
pub proof fn filled_file_is_good(p: Phase, size: u64, q: Phase)
    requires
        p is MeasureTransferred || p is MeasureTarget,
        size > 0,
        moves(p, Event::Measured(Ok(size)), q),
    ensures
        p matches Phase::MeasureTransferred { name, temp } ==> q == (Phase::Rename { name, temp }),
        p is MeasureTarget ==> q == Phase::Done(Ok(())),
{
}

/// A file counts as empty exactly if its size is zero.
pub proof fn only_size_zero_is_empty(
    p: Phase,
    size: Result<u64, Seq<char>>,
    name: Seq<char>,
    q: Phase,
)
    requires
        p matches Phase::MeasureTransferred { name: n, temp: _ } ==> n == name,
        p matches Phase::MeasureTarget { name: n, temp: _ } ==> n == name,
        p is MeasureTransferred || p is MeasureTarget,
        moves(p, Event::Measured(size), q),
    ensures
        q == Phase::Done(Err(TaskErrorView::EmptyFile { name })) <==> size == Ok::<u64, Seq<char>>(
            0,
        ),
        size matches Err(cause) ==> q == Phase::Done(
            Err(TaskErrorView::NoMetadata { name, cause }),
        ),
{
}

/// A download ends with success if its file could be given its name, and with the cause if not.
pub proof fn renaming_ends_the_download(p: Phase, outcome: Result<(), Seq<char>>, q: Phase)
    requires
        p is Rename,
        moves(p, Event::Renamed(outcome), q),
    ensures
        outcome is Ok ==> q == Phase::Done(Ok(())),
        outcome matches Err(cause) ==> q == Phase::Done(
            Err(TaskErrorView::RenameFailed { name: p->Rename_name, cause }),
        ),
{
}

/// Each attempt but the first is made two seconds after the one before it.
pub proof fn attempts_are_two_seconds_apart(attempt: int)
    requires
        1 <= attempt <= 4,
    ensures
        attempt == 1 ==> pause(attempt) == 0,
        attempt > 1 ==> pause(attempt) == 2,
{
}

} // verus!
