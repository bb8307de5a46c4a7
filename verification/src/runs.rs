//! What holds of every download from its beginning to its end.

use vstd::prelude::*;

use crate::filename::clean_name;
use crate::filename::sanitized;
use crate::filename::sanitized_name_is_clean;
use crate::filename::segment_name;
use crate::outside::in_lower_case;
use crate::outside::possible_file_name;
use crate::request::header_chars;
use crate::request::readable;
use crate::request::status_words;
use crate::retry::ascii_text_in_lower_case;
use crate::retry::longer_text_stays_retryable;
use crate::retry::retryable;
use crate::retry::FailureView;
use crate::retry::MAX_RETRIES;
use crate::task::after_body;
use crate::task::after_compare;
use crate::task::after_get;
use crate::task::after_probe_target;
use crate::task::after_probe_transferred;
use crate::task::after_rename;
use crate::task::after_size;
use crate::task::after_transfer;
use crate::task::first_phase;
use crate::task::follows_head;
use crate::task::named_phase;
use crate::task::refusal_message;
use crate::task::served_name;
use crate::task::valid_attempt;
use crate::task::GetReplyView;
use crate::task::HeadReplyView;
use crate::task::Phase;
use crate::task::TransferReplyView;
use crate::task_error::TaskErrorView;
use crate::text::occurs_at;
use crate::urls::http_url;

verus! {

/// What the world answers to a step.
pub enum Event {
    Got(GetReplyView),
    Read(Option<Seq<char>>),
    HeadGot(HeadReplyView),
    Transferred(TransferReplyView),
    Compared(bool),
    Probed(bool),
    Measured(Result<u64, Seq<char>>),
    Renamed(Result<(), Seq<char>>),
}

/// Whether the phase `q` can follow the phase `p` when the world answers with `e`.
pub open spec fn moves(p: Phase, e: Event, q: Phase) -> bool {
    match (p, e) {
        (Phase::Get { url, skip_head, attempt }, Event::Got(reply)) => q == after_get(
            url,
            skip_head,
            attempt,
            reply,
        ),
        (Phase::Body { url, skip_head, attempt, status }, Event::Read(body)) => q == after_body(
            url,
            skip_head,
            attempt,
            status,
            body,
        ),
        (Phase::Head { url, attempt }, Event::HeadGot(reply)) => follows_head(
            url,
            attempt,
            reply,
            q,
        ),
        (Phase::Transfer { url, name, temp, attempt }, Event::Transferred(reply)) => q
            == after_transfer(url, name, temp, attempt, reply),
        (Phase::Compare { name, temp }, Event::Compared(same)) => q == after_compare(
            name,
            temp,
            same,
        ),
        (Phase::ProbeTransferred { name, temp }, Event::Probed(found)) => q
            == after_probe_transferred(name, temp, found),
        (Phase::MeasureTransferred { name, temp }, Event::Measured(size)) => q == after_size(
            name,
            size,
            Phase::Rename { name, temp },
        ),
        (Phase::Rename { name, temp }, Event::Renamed(outcome)) => q == after_rename(name, outcome),
        (Phase::ProbeTarget { name, temp }, Event::Probed(found)) => q == after_probe_target(
            name,
            temp,
            found,
        ),
        (Phase::MeasureTarget { name, temp }, Event::Measured(size)) => q == after_size(
            name,
            size,
            Phase::Done(Ok(())),
        ),
        _ => false,
    }
}

/// A download as it went: the phases, and the answer that led from each of them to the next.
pub struct Run {
    pub phases: Seq<Phase>,
    pub events: Seq<Event>,
}

impl Run {
    /// Whether the run is one that the download of `url` can take, up to some point.
    pub open spec fn of(self, url: Seq<char>, skip_head: bool) -> bool {
        &&& self.phases.len() == self.events.len() + 1
        &&& self.phases[0] == first_phase(url, skip_head)
        &&& forall|i: int|
            0 <= i < self.events.len() ==> moves(
                self.phases[i],
                #[trigger] self.events[i],
                self.phases[i + 1],
            )
    }

    /// How many of the first `n` phases are of a kind.
    pub open spec fn count(self, kind: spec_fn(Phase) -> bool, n: int) -> int
        decreases n,
    {
        if n <= 0 {
            0
        } else {
            self.count(kind, n - 1) + if kind(self.phases[n - 1]) {
                1int
            } else {
                0
            }
        }
    }
}

/// Whether a phase can come up: its attempt has a possible number, the name of its file is clean,
/// and a file is looked for, measured or renamed only where the transfer gave it another name.
pub open spec fn sound(p: Phase) -> bool {
    match p {
        Phase::Get { url, skip_head, attempt } => http_url(url) && valid_attempt(attempt),
        Phase::Body { url, skip_head, attempt, status } => http_url(url) && valid_attempt(attempt),
        Phase::Head { url, attempt } => valid_attempt(attempt),
        Phase::Transfer { url, name, temp, attempt } => valid_attempt(attempt) && clean_name(
            name,
        ),
        Phase::Compare { name, temp } => clean_name(name),
        Phase::ProbeTransferred { name, temp } => clean_name(name) && name != temp,
        Phase::MeasureTransferred { name, temp } => clean_name(name) && name != temp,
        Phase::Rename { name, temp } => clean_name(name) && name != temp,
        Phase::ProbeTarget { name, temp } => clean_name(name) && name != temp,
        Phase::MeasureTarget { name, temp } => clean_name(name) && name != temp,
        Phase::Done(_) => true,
    }
}

/// A bound on the answers that a download still needs.
pub open spec fn rank(p: Phase) -> int {
    match p {
        Phase::Get { url, skip_head, attempt } => 13 + 2 * (MAX_RETRIES + 1 - attempt),
        Phase::Body { url, skip_head, attempt, status } => 12 + 2 * (MAX_RETRIES + 1 - attempt),
        Phase::Head { url, attempt } => 9 + (MAX_RETRIES + 1 - attempt),
        Phase::Transfer { url, name, temp, attempt } => 5 + (MAX_RETRIES + 1 - attempt),
        Phase::Compare { name, temp } => 4,
        Phase::ProbeTransferred { name, temp } => 3,
        Phase::MeasureTransferred { name, temp } => 2,
        Phase::ProbeTarget { name, temp } => 2,
        Phase::Rename { name, temp } => 1,
        Phase::MeasureTarget { name, temp } => 1,
        Phase::Done(_) => 0,
    }
}

proof fn lemma_first(url: Seq<char>, skip_head: bool)
    ensures
        sound(first_phase(url, skip_head)),
        rank(first_phase(url, skip_head)) <= 19,
{
    sanitized_name_is_clean(segment_name(url));
}

proof fn lemma_move(p: Phase, e: Event, q: Phase)
    requires
        sound(p),
        moves(p, e, q),
    ensures
        sound(q),
        0 <= rank(q) < rank(p),
{
    match (p, e) {
        (Phase::Get { url, skip_head, attempt }, Event::Got(reply)) => {
            sanitized_name_is_clean(segment_name(url));
            if let GetReplyView::Response { status, location } = reply {
                if let Some(header) = location {
                    sanitized_name_is_clean(
                        segment_name(header_chars(header)),
                    );
                }
            }
        },
        (Phase::Head { url, attempt }, Event::HeadGot(reply)) => {
            if let HeadReplyView::Response { disposition } = reply {
                let path_name = choose|n: Option<Seq<char>>| #[trigger]
                    possible_file_name(url, n) && q == named_phase(
                        url,
                        sanitized(served_name(disposition, n)),
                    );
                sanitized_name_is_clean(served_name(disposition, path_name));
            }
        },
        _ => {},
    }
}

/// Every phase that comes up is sound: no GET request is sent for anything but an HTTP URL, no
/// attempt has a number above four, and the name of a file is never empty, holds none of the nine
/// forbidden characters and does not end with a semicolon.
pub proof fn every_phase_is_sound(run: Run, url: Seq<char>, skip_head: bool, n: int)
    requires
        run.of(url, skip_head),
        0 <= n < run.phases.len(),
    ensures
        sound(run.phases[n]),
        0 <= rank(run.phases[n]) <= 19 - n,
    decreases n,
{
    if n == 0 {
        lemma_first(url, skip_head);
    } else {
        every_phase_is_sound(run, url, skip_head, n - 1);
        lemma_move(run.phases[n - 1], run.events[n - 1], run.phases[n]);
    }
}

/// A file is never renamed onto itself, whatever is said of its paths.
pub proof fn no_file_is_renamed_onto_itself(run: Run, url: Seq<char>, skip_head: bool, n: int)
    requires
        run.of(url, skip_head),
        0 <= n < run.phases.len(),
    ensures
        run.phases[n] matches Phase::Rename { name, temp } ==> name != temp,
{
    every_phase_is_sound(run, url, skip_head, n);
}

/// A download ends whatever the world answers: it is over after nineteen answers at the most.
pub proof fn every_download_ends(run: Run, url: Seq<char>, skip_head: bool)
    requires
        run.of(url, skip_head),
    ensures
        run.events.len() <= 19,
        run.events.len() == 19 ==> run.phases.last() is Done,
{
    every_phase_is_sound(run, url, skip_head, run.phases.len() - 1);
}

/// What is over stays over: no answer leads on from the end of a download.
pub proof fn end_is_final(result: Result<(), TaskErrorView>, e: Event, q: Phase)
    ensures
        !moves(Phase::Done(result), e, q),
{
}

/// How many GET requests a download can still send, the one of this phase among them.
pub open spec fn gets_left(p: Phase) -> int {
    match p {
        Phase::Get { url, skip_head, attempt } => MAX_RETRIES + 2 - attempt,
        Phase::Body { url, skip_head, attempt, status } => MAX_RETRIES + 1 - attempt,
        _ => 0,
    }
}

/// How many HEAD requests a download can still send, the one of this phase among them.
pub open spec fn heads_left(p: Phase) -> int {
    match p {
        Phase::Get { url, skip_head, attempt } => MAX_RETRIES + 1,
        Phase::Body { url, skip_head, attempt, status } => MAX_RETRIES + 1,
        Phase::Head { url, attempt } => MAX_RETRIES + 2 - attempt,
        _ => 0,
    }
}

/// How many transfers a download can still begin, the one of this phase among them.
pub open spec fn transfers_left(p: Phase) -> int {
    match p {
        Phase::Get { url, skip_head, attempt } => MAX_RETRIES + 1,
        Phase::Body { url, skip_head, attempt, status } => MAX_RETRIES + 1,
        Phase::Head { url, attempt } => MAX_RETRIES + 1,
        Phase::Transfer { url, name, temp, attempt } => MAX_RETRIES + 2 - attempt,
        _ => 0,
    }
}

proof fn lemma_counts(run: Run, url: Seq<char>, skip_head: bool, n: int)
    requires
        run.of(url, skip_head),
        0 <= n < run.phases.len(),
    ensures
        run.count(|p: Phase| p is Get, n) + gets_left(run.phases[n]) <= MAX_RETRIES + 1,
        run.count(|p: Phase| p is Head, n) + heads_left(run.phases[n]) <= MAX_RETRIES + 1,
        run.count(|p: Phase| p is Transfer, n) + transfers_left(run.phases[n]) <= MAX_RETRIES + 1,
    decreases n,
{
    if n > 0 {
        lemma_counts(run, url, skip_head, n - 1);
        every_phase_is_sound(run, url, skip_head, n - 1);
        let p = run.phases[n - 1];
        assert(moves(p, run.events[n - 1], run.phases[n]));
        lemma_after_head(p, run.events[n - 1], run.phases[n]);
    }
}

/// No request is sent and no transfer begun more than four times: once, and three times again.
pub proof fn at_most_four_attempts(run: Run, url: Seq<char>, skip_head: bool)
    requires
        run.of(url, skip_head),
    ensures
        run.count(|p: Phase| p is Get, run.phases.len() as int) <= 4,
        run.count(|p: Phase| p is Head, run.phases.len() as int) <= 4,
        run.count(|p: Phase| p is Transfer, run.phases.len() as int) <= 4,
{
    let n = run.phases.len() - 1;
    lemma_counts(run, url, skip_head, n);
    every_phase_is_sound(run, url, skip_head, n);
}

/// Whether an answer is a failure and, if so, whether it is worth another attempt.
pub open spec fn worth_another_attempt(p: Phase, e: Event) -> Option<bool> {
    match (p, e) {
        (Phase::Get { .. }, Event::Got(GetReplyView::Failed(failure))) => Some(retryable(failure)),
        (Phase::Body { url, skip_head, attempt, status }, Event::Read(body)) => {
            let text = match body {
                Some(b) => b,
                None => Seq::empty(),
            };
            Some(
                retryable(
                    FailureView {
                        message: refusal_message(url, status_words(status), text),
                        network: None,
                    },
                ),
            )
        },
        (
            Phase::Head { .. },
            Event::HeadGot(HeadReplyView::Failed { message, fault }),
        ) => Some(fault.connect || fault.timeout || fault.request),
        (
            Phase::Transfer { .. },
            Event::Transferred(TransferReplyView::PrepareFailed(cause)),
        ) => Some(
            retryable(
                FailureView { message: "Failed to prepare download: "@ + cause, network: None },
            ),
        ),
        (
            Phase::Transfer { .. },
            Event::Transferred(TransferReplyView::DownloadFailed(cause)),
        ) => Some(
            retryable(FailureView { message: "Download failed: "@ + cause, network: None }),
        ),
        (Phase::Transfer { .. }, Event::Transferred(TransferReplyView::TimedOut)) => Some(true),
        _ => None,
    }
}

/// The number of the attempt that a phase belongs to.
pub open spec fn attempt_of(p: Phase) -> Option<int> {
    match p {
        Phase::Get { url, skip_head, attempt } => Some(attempt),
        Phase::Body { url, skip_head, attempt, status } => Some(attempt),
        Phase::Head { url, attempt } => Some(attempt),
        Phase::Transfer { url, name, temp, attempt } => Some(attempt),
        _ => None,
    }
}

/// After a failure the same operation is tried again, as the next attempt, exactly if the failure
/// is worth it and fewer than four attempts have been made; else the download fails at once.
pub proof fn failure_is_retried_or_final(p: Phase, e: Event, q: Phase)
    requires
        sound(p),
        moves(p, e, q),
        worth_another_attempt(p, e) is Some,
    ensures
        worth_another_attempt(p, e) == Some(true) && attempt_of(p)->0 < 4 ==> {
            &&& attempt_of(q) == Some(attempt_of(p)->0 + 1)
            &&& q is Get <==> p is Get || p is Body
            &&& q is Head <==> p is Head
            &&& q is Transfer <==> p is Transfer
        },
        worth_another_attempt(p, e) == Some(false) || attempt_of(p)->0 == 4 ==> (q matches
            Phase::Done(result) && result is Err),
{
}

/// A refusal is worth another attempt where its URL, its status or its body tells of a fault of the
/// network, whatever the other two are.
pub proof fn refusal_is_judged_by_each_part(p: Phase, body: Seq<char>, part: Seq<char>)
    requires
        p is Body,
        part == p->Body_url || part == status_words(p->Body_status) || part == body,
        retryable(FailureView { message: part, network: None }),
    ensures
        worth_another_attempt(p, Event::Read(Some(body))) == Some(true),
{
    let url = p->Body_url;
    let status = status_words(p->Body_status);
    let to_url = "GET request for "@;
    let to_status = to_url + url + " failed with status "@;
    let to_body = to_status + status + ": "@;
    let whole = FailureView { message: refusal_message(url, status, body), network: None };
    let failure = FailureView { message: part, network: None };
    if part == url {
        let after = " failed with status "@ + status + ": "@ + body;
        assert(whole.message =~= to_url + part + after);
        longer_text_stays_retryable(failure, to_url, after, whole);
    } else if part == status {
        let after = ": "@ + body;
        assert(whole.message =~= to_status + part + after);
        longer_text_stays_retryable(failure, to_status, after, whole);
    } else {
        assert(whole.message =~= to_body + part + Seq::<char>::empty());
        longer_text_stays_retryable(failure, to_body, Seq::empty(), whole);
    }
}

/// Whether some transfer among the first `n` answers went through.
pub open spec fn transferred_before(run: Run, n: int) -> bool {
    exists|i: int|
        0 <= i < n && #[trigger] run.events[i] == Event::Transferred(TransferReplyView::Completed)
}

/// Whether the phase deals with a file that has been transferred.
pub open spec fn placing(p: Phase) -> bool {
    ||| p is Compare
    ||| p is ProbeTransferred
    ||| p is MeasureTransferred
    ||| p is Rename
    ||| p is ProbeTarget
    ||| p is MeasureTarget
    ||| p == Phase::Done(Ok(()))
}

proof fn lemma_placing(run: Run, url: Seq<char>, skip_head: bool, n: int)
    requires
        run.of(url, skip_head),
        0 <= n < run.phases.len(),
        placing(run.phases[n]),
    ensures
        transferred_before(run, n),
    decreases n,
{
    if n > 0 {
        let p = run.phases[n - 1];
        let e = run.events[n - 1];
        assert(moves(p, e, run.phases[n]));
        lemma_after_head(p, e, run.phases[n]);
        if placing(p) {
            lemma_placing(run, url, skip_head, n - 1);
            let i = choose|i: int|
                0 <= i < n - 1 && #[trigger] run.events[i] == Event::Transferred(
                    TransferReplyView::Completed,
                );
            assert(run.events[i] == Event::Transferred(TransferReplyView::Completed));
        } else {
            assert(run.events[n - 1] == Event::Transferred(TransferReplyView::Completed));
        }
    }
}

/// A download succeeds only if a transfer went through and left a file: the file already had its
/// path, or a file that is not empty was given its name, or one that is not empty was found under
/// its name.
pub proof fn success_means_a_file(run: Run, url: Seq<char>, skip_head: bool)
    requires
        run.of(url, skip_head),
        run.phases.last() == Phase::Done(Ok(())),
    ensures
        transferred_before(run, run.events.len() as int),
        ({
            let n = run.events.len() as int;
            ||| run.phases[n - 1] matches Phase::Compare { name, temp } && (run.events[n - 1]
                == Event::Compared(true) || name == temp)
            ||| run.phases[n - 1] is MeasureTarget && (run.events[n - 1] matches Event::Measured(
                Ok(size),
            ) && size > 0)
            ||| run.events[n - 1] matches Event::Renamed(Ok(_)) && n >= 2
                && run.phases[n - 2] is MeasureTransferred && (run.events[n
                - 2] matches Event::Measured(Ok(size)) && size > 0)
        }),
{
    let n = run.events.len() as int;
    lemma_placing(run, url, skip_head, n);
    assert(n > 0);
    let p = run.phases[n - 1];
    assert(moves(p, run.events[n - 1], run.phases[n]));
    lemma_after_head(p, run.events[n - 1], run.phases[n]);
    if p is Rename {
        assert(n >= 2);
        let before = run.phases[n - 2];
        assert(moves(before, run.events[n - 2], p));
        lemma_after_head(before, run.events[n - 2], p);
    }
}

/// The name that the file of a phase is to have, once there is one.
pub open spec fn name_of(p: Phase) -> Option<Seq<char>> {
    match p {
        Phase::Transfer { url, name, temp, attempt } => Some(name),
        Phase::Compare { name, temp } => Some(name),
        Phase::ProbeTransferred { name, temp } => Some(name),
        Phase::MeasureTransferred { name, temp } => Some(name),
        Phase::Rename { name, temp } => Some(name),
        Phase::ProbeTarget { name, temp } => Some(name),
        Phase::MeasureTarget { name, temp } => Some(name),
        _ => None,
    }
}

/// The name that is chosen for a file stays its name until the download is over.
pub proof fn name_is_kept(run: Run, url: Seq<char>, skip_head: bool, i: int, j: int)
    requires
        run.of(url, skip_head),
        0 <= i <= j < run.phases.len(),
        name_of(run.phases[i]) is Some,
    ensures
        run.phases[j] is Done || name_of(run.phases[j]) == name_of(run.phases[i]),
    decreases j - i,
{
    if i < j {
        name_is_kept(run, url, skip_head, i, j - 1);
        assert(moves(run.phases[j - 1], run.events[j - 1], run.phases[j]));
    }
}

/// The place of the file in a phase, once it is known.
pub open spec fn place_of(p: Phase) -> Option<Seq<char>> {
    match p {
        Phase::Head { url, attempt } => Some(url),
        Phase::Transfer { url, name, temp, attempt } => Some(url),
        _ => None,
    }
}

/// Whether a redirection among the first `n` answers named the place.
pub open spec fn redirected_to(run: Run, place: Seq<char>, n: int) -> bool {
    exists|i: int|
        0 <= i < n && (#[trigger] run.events[i] matches Event::Got(
            GetReplyView::Response { status, location: Some(header) },
        ) && status == 303 && header_chars(header) == place)
}

/// A file is fetched from the URL that was asked for, or from a place that a redirection named.
pub proof fn place_is_url_or_redirection(run: Run, url: Seq<char>, skip_head: bool, n: int)
    requires
        run.of(url, skip_head),
        0 <= n < run.phases.len(),
    ensures
        place_of(run.phases[n]) matches Some(place) ==> place == url || redirected_to(
            run,
            place,
            n,
        ),
        run.phases[n] matches Phase::Get { url: asked, skip_head: _, attempt: _ } ==> asked == url,
        run.phases[n] matches Phase::Body { url: asked, skip_head: _, attempt: _, status: _ }
            ==> asked == url,
    decreases n,
{
    if n > 0 {
        place_is_url_or_redirection(run, url, skip_head, n - 1);
        let p = run.phases[n - 1];
        let e = run.events[n - 1];
        let q = run.phases[n];
        assert(moves(p, e, q));
        lemma_after_head(p, e, q);
        if let Some(place) = place_of(q) {
            if place != url {
                if place_of(p) == Some(place) {
                    assert(redirected_to(run, place, n - 1));
                    let i = choose|i: int|
                        0 <= i < n - 1 && (#[trigger] run.events[i] matches Event::Got(
                            GetReplyView::Response { status, location: Some(header) },
                        ) && status == 303 && header_chars(header) == place);
                    assert(0 <= i < n);
                    assert(run.events[i] is Got);
                } else {
                    assert(run.events[n - 1] is Got);
                }
            }
        }
    }
}

/// A redirection to a place that is no text ends the download.
pub proof fn unreadable_redirection_is_final(p: Phase, header: Seq<u8>, q: Phase)
    requires
        p is Get,
        !readable(header),
        moves(
            p,
            Event::Got(GetReplyView::Response { status: 303, location: Some(header) }),
            q,
        ),
    ensures
        q == Phase::Done(
            Err(
                TaskErrorView::GetFailed {
                    url: p->Get_url,
                    cause: "failed to convert header to a str"@,
                },
            ),
        ),
{
    lemma_unreadable_header_is_lasting();
}

proof fn lemma_unreadable_header_is_lasting()
    ensures
        !retryable(
            FailureView { message: "failed to convert header to a str"@, network: None },
        ),
{
    let message = "failed to convert header to a str"@;
    reveal_strlit("failed to convert header to a str");
    reveal_strlit("error sending request");
    reveal_strlit("connection");
    reveal_strlit("timeout");
    reveal_strlit("dns");
    ascii_text_in_lower_case(message);
    assert(in_lower_case(message) =~= message);
    assert forall|i: int| !occurs_at("error sending request"@, message, i) by {
        if occurs_at("error sending request"@, message, i) {
            assert(message[i + 12] == message.subrange(i, i + 21)[12]);
        }
    }
    assert forall|i: int| !occurs_at("connection"@, message, i) by {
        if occurs_at("connection"@, message, i) {
            assert(message[i + 2] == message.subrange(i, i + 10)[2]);
            assert(message[i + 3] == message.subrange(i, i + 10)[3]);
        }
    }
    assert forall|i: int| !occurs_at("timeout"@, message, i) by {
        if occurs_at("timeout"@, message, i) {
            assert(message[i + 2] == message.subrange(i, i + 7)[2]);
        }
    }
    assert forall|i: int| !occurs_at("dns"@, message, i) by {
        if occurs_at("dns"@, message, i) {
            assert(message[i] == message.subrange(i, i + 3)[0]);
            assert(message[i + 1] == message.subrange(i, i + 3)[1]);
        }
    }
}

/// Nothing is sent for anything but an HTTP URL: such a download is over before it begins.
pub proof fn nothing_is_sent_for_other_schemes(run: Run, url: Seq<char>, skip_head: bool)
    requires
        run.of(url, skip_head),
        !http_url(url),
    ensures
        run.events.len() == 0,
        run.phases == seq![Phase::Done(Err(TaskErrorView::InvalidUrl { url }))],
{
    if run.events.len() > 0 {
        assert(moves(run.phases[0], run.events[0], run.phases[1]));
    }
    assert(run.phases =~= seq![first_phase(url, skip_head)]);
}

/// A URL that ends with `.data` is the place of its file: no GET request asks for another.
pub proof fn data_urls_are_not_asked_for(run: Run, url: Seq<char>, skip_head: bool, n: int)
    requires
        run.of(url, skip_head),
        ".data"@.is_suffix_of(url),
        0 <= n < run.phases.len(),
    ensures
        !(run.phases[n] is Get),
        !(run.phases[n] is Body),
        place_of(run.phases[n]) matches Some(place) ==> place == url,
    decreases n,
{
    if n > 0 {
        data_urls_are_not_asked_for(run, url, skip_head, n - 1);
        assert(moves(run.phases[n - 1], run.events[n - 1], run.phases[n]));
        lemma_after_head(run.phases[n - 1], run.events[n - 1], run.phases[n]);
    }
}

/// What follows a HEAD request: another one, the transfer or the end.
proof fn lemma_after_head(p: Phase, e: Event, q: Phase)
    requires
        moves(p, e, q),
    ensures
        p matches Phase::Head { url, attempt } ==> {
            ||| q == (Phase::Head { url, attempt: attempt + 1 })
            ||| q is Done
            ||| q matches Phase::Transfer { url: place, name: _, temp: _, attempt: _ }
                && place == url
        },
{
    if let Phase::Head { url, attempt } = p {
        if let Event::HeadGot(reply) = e {
            assert(follows_head(url, attempt, reply, q));
        }
    }
}

/// Without HEAD requests, the file gets its name from the last segment of its place.
pub proof fn skipping_head_takes_name_from_place(run: Run, url: Seq<char>, n: int)
    requires
        run.of(url, true),
        0 <= n < run.phases.len(),
    ensures
        !(run.phases[n] is Head),
        run.phases[n] matches Phase::Transfer { url: place, name, temp: _, attempt: _ } ==> name
            == sanitized(segment_name(place)),
        run.phases[n] matches Phase::Get { url: _, skip_head, attempt: _ } ==> skip_head,
        run.phases[n] matches Phase::Body { url: _, skip_head, attempt: _, status: _ }
            ==> skip_head,
    decreases n,
{
    if n > 0 {
        skipping_head_takes_name_from_place(run, url, n - 1);
        assert(moves(run.phases[n - 1], run.events[n - 1], run.phases[n]));
    }
}

/// Whether the server was asked for the file's name among the first `n` answers.
pub open spec fn head_before(run: Run, n: int) -> bool {
    exists|i: int| 0 <= i < n && #[trigger] run.events[i] is HeadGot
}

/// With HEAD requests, no transfer begins before the server has been asked for the file's name.
pub proof fn server_is_asked_before_transfer(run: Run, url: Seq<char>, n: int)
    requires
        run.of(url, false),
        0 <= n < run.phases.len(),
    ensures
        run.phases[n] is Transfer || placing(run.phases[n]) ==> head_before(run, n),
        run.phases[n] matches Phase::Get { url: _, skip_head, attempt: _ } ==> !skip_head,
        run.phases[n] matches Phase::Body { url: _, skip_head, attempt: _, status: _ }
            ==> !skip_head,
    decreases n,
{
    if n > 0 {
        server_is_asked_before_transfer(run, url, n - 1);
        let p = run.phases[n - 1];
        assert(moves(p, run.events[n - 1], run.phases[n]));
        if head_before(run, n - 1) {
            let i = choose|i: int| 0 <= i < n - 1 && #[trigger] run.events[i] is HeadGot;
            assert(run.events[i] is HeadGot);
            assert(head_before(run, n));
        }
        if p is Head {
            assert(run.events[n - 1] is HeadGot);
            assert(head_before(run, n));
        }
    }
}

/// Once the place of the file is known, every HEAD request and every transfer goes there.
pub proof fn place_is_kept(run: Run, url: Seq<char>, skip_head: bool, i: int, j: int)
    requires
        run.of(url, skip_head),
        0 <= i <= j < run.phases.len(),
        place_of(run.phases[i]) is Some,
    ensures
        !(run.phases[j] is Get),
        !(run.phases[j] is Body),
        place_of(run.phases[j]) is Some ==> place_of(run.phases[j]) == place_of(run.phases[i]),
        placing(run.phases[j]) || run.phases[j] is Done || place_of(run.phases[j]) is Some,
    decreases j - i,
{
    if i < j {
        place_is_kept(run, url, skip_head, i, j - 1);
        let p = run.phases[j - 1];
        assert(moves(p, run.events[j - 1], run.phases[j]));
        lemma_after_head(p, run.events[j - 1], run.phases[j]);
        if placing(p) {
            assert(place_of(run.phases[j]) is None);
        }
    }
}

} // verus!
