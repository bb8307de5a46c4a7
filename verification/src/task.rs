//! One download, step by step.
//!
//! A download is a chain of requests, file operations and decisions. The decisions are made here:
//! [`download_file_task`] gives the first [`Step`], and each step that asks for something is
//! answered with what came of it and gives the next one.

use vstd::prelude::*;
use vstd::string::StringExecFns;

use crate::filename::disposition_name;
use crate::filename::file_name_for;
use crate::filename::last_segment;
use crate::filename::last_segment_of;
use crate::filename::name_from_disposition;
use crate::filename::name_from_path;
use crate::filename::name_from_url;
use crate::filename::or_default;
use crate::filename::sanitize;
use crate::filename::sanitized;
use crate::filename::segment_name;
use crate::filename::UNKNOWN_TEMP_NAME;
use crate::outside::parse_url;
use crate::outside::possible_file_name;
use crate::outside::segments_view;
use crate::outside::url_path_segments;
use crate::request::header_chars;
use crate::request::header_text;
use crate::request::is_success;
use crate::request::readable;
use crate::request::status_words;
use crate::request::success;
use crate::request::Status;
use crate::request::SEE_OTHER;
use crate::retry::attempts_left;
use crate::retry::is_retryable_error;
use crate::retry::retryable;
use crate::retry::Failure;
use crate::retry::FailureView;
use crate::retry::NetworkFault;
use crate::retry::MAX_RETRIES;
use crate::retry::RETRY_DELAY_SECS;
use crate::runs::moves;
use crate::runs::Event;
use crate::task_error::TaskError;
use crate::task_error::TaskErrorView;
use crate::text::ends_with;
use crate::text::join2;
use crate::text::join3;
use crate::text::join4;
use crate::text::optional_text;
use crate::text::same_text;
use crate::urls::http_url;
use crate::urls::is_http_url;

verus! {

/// Where a download stands.
#[verifier::ext_equal]
pub enum Phase {
    /// The place of the file is asked for.
    Get { url: Seq<char>, skip_head: bool, attempt: int },
    /// The server refused with a status, and the body of its response is read.
    Body { url: Seq<char>, skip_head: bool, attempt: int, status: u16 },
    /// The headers of the file are asked for.
    Head { url: Seq<char>, attempt: int },
    /// The file is transferred. `temp` is the name that the transfer gives it, `name` the one that
    /// it is to have.
    Transfer { url: Seq<char>, name: Seq<char>, temp: Seq<char>, attempt: int },
    /// The two paths are compared.
    Compare { name: Seq<char>, temp: Seq<char> },
    /// The transferred file is looked for.
    ProbeTransferred { name: Seq<char>, temp: Seq<char> },
    /// The size of the transferred file is asked for.
    MeasureTransferred { name: Seq<char>, temp: Seq<char> },
    /// The transferred file is given its name.
    Rename { name: Seq<char>, temp: Seq<char> },
    /// The file is looked for under its name.
    ProbeTarget { name: Seq<char>, temp: Seq<char> },
    /// The size of the file under its name is asked for.
    MeasureTarget { name: Seq<char>, temp: Seq<char> },
    /// The download is over.
    Done(Result<(), TaskErrorView>),
}

/// The answer to a GET request.
#[derive(Debug)]
pub enum GetReply {
    /// A response: its status and the `Location` header.
    Response { status: Status, location: Option<Vec<u8>> },
    /// No response.
    Failed(Failure),
}

/// The content of a [`GetReply`].
#[verifier::ext_equal]
pub enum GetReplyView {
    Response { status: u16, location: Option<Seq<u8>> },
    Failed(FailureView),
}

/// The bytes of an optional header.
pub open spec fn header_view(header: Option<Vec<u8>>) -> Option<Seq<u8>> {
    match header {
        Some(bytes) => Some(bytes@),
        None => None,
    }
}

impl View for GetReply {
    type V = GetReplyView;

    open spec fn view(&self) -> GetReplyView {
        match self {
            GetReply::Response { status, location } => GetReplyView::Response {
                status: status@,
                location: header_view(*location),
            },
            GetReply::Failed(failure) => GetReplyView::Failed(failure@),
        }
    }
}

/// The answer to a HEAD request.
#[derive(Debug)]
pub enum HeadReply {
    /// A response, with its `Content-Disposition` header.
    Response { disposition: Option<Vec<u8>> },
    /// No response.
    Failed { message: String, fault: NetworkFault },
}

/// The content of a [`HeadReply`].
#[verifier::ext_equal]
pub enum HeadReplyView {
    Response { disposition: Option<Seq<u8>> },
    Failed { message: Seq<char>, fault: NetworkFault },
}

impl View for HeadReply {
    type V = HeadReplyView;

    open spec fn view(&self) -> HeadReplyView {
        match self {
            HeadReply::Response { disposition } => HeadReplyView::Response {
                disposition: header_view(*disposition),
            },
            HeadReply::Failed { message, fault } => HeadReplyView::Failed {
                message: message@,
                fault: *fault,
            },
        }
    }
}

/// What came of a transfer.
#[derive(Debug)]
pub enum TransferReply {
    /// It went through to its end.
    Completed,
    /// It could not be begun.
    PrepareFailed(String),
    /// It broke off.
    DownloadFailed(String),
    /// It took too long.
    TimedOut,
}

/// The content of a [`TransferReply`].
#[verifier::ext_equal]
pub enum TransferReplyView {
    Completed,
    PrepareFailed(Seq<char>),
    DownloadFailed(Seq<char>),
    TimedOut,
}

impl View for TransferReply {
    type V = TransferReplyView;

    open spec fn view(&self) -> TransferReplyView {
        match self {
            TransferReply::Completed => TransferReplyView::Completed,
            TransferReply::PrepareFailed(cause) => TransferReplyView::PrepareFailed(cause@),
            TransferReply::DownloadFailed(cause) => TransferReplyView::DownloadFailed(cause@),
            TransferReply::TimedOut => TransferReplyView::TimedOut,
        }
    }
}

/// The text of the error in a result.
pub open spec fn outcome_view<T>(r: Result<T, String>) -> Result<T, Seq<char>> {
    match r {
        Ok(value) => Ok(value),
        Err(cause) => Err(cause@),
    }
}

/// The content of the error in a finished download.
pub open spec fn result_view(r: Result<(), TaskError>) -> Result<(), TaskErrorView> {
    match r {
        Ok(_) => Ok(()),
        Err(e) => Err(e@),
    }
}

/// The name that the transfer gives to the file: the last segment of the URL's path.
pub open spec fn temp_name_of(parsed: Result<Option<Seq<Seq<char>>>, Seq<char>>) -> Seq<char> {
    match last_segment_of(parsed) {
        Some(segment) => segment,
        None => UNKNOWN_TEMP_NAME@,
    }
}

/// The download once the file's place and name are known, and what parsing the place has given.
pub open spec fn transfer_phase(
    parsed: Result<Option<Seq<Seq<char>>>, Seq<char>>,
    url: Seq<char>,
    name: Seq<char>,
) -> Phase {
    match parsed {
        Ok(_) => Phase::Transfer { url, name, temp: temp_name_of(parsed), attempt: 1 },
        Err(cause) => Phase::Done(Err(TaskErrorView::UnparsableUrl { url, cause })),
    }
}

/// The download once the file's place and name are known.
pub open spec fn named_phase(url: Seq<char>, name: Seq<char>) -> Phase {
    transfer_phase(url_path_segments(url), url, name)
}

/// The download once the file's place is known.
pub open spec fn resolved_phase(url: Seq<char>, skip_head: bool) -> Phase {
    if skip_head {
        named_phase(url, sanitized(segment_name(url)))
    } else {
        Phase::Head { url, attempt: 1 }
    }
}

/// The download at its beginning.
pub open spec fn first_phase(url: Seq<char>, skip_head: bool) -> Phase {
    if !http_url(url) {
        Phase::Done(Err(TaskErrorView::InvalidUrl { url }))
    } else if ".data"@.is_suffix_of(url) {
        resolved_phase(url, skip_head)
    } else {
        Phase::Get { url, skip_head, attempt: 1 }
    }
}

/// The download after an attempt to find the file's place has failed.
pub open spec fn after_failed_get(
    url: Seq<char>,
    skip_head: bool,
    attempt: int,
    failure: FailureView,
) -> Phase {
    if attempts_left(attempt) && retryable(failure) {
        Phase::Get { url, skip_head, attempt: attempt + 1 }
    } else {
        Phase::Done(Err(TaskErrorView::GetFailed { url, cause: failure.message }))
    }
}

/// The download after the answer to a GET request. Only the status 303 moves the file to another
/// place; any other status of success leaves it where it is.
pub open spec fn after_get(
    url: Seq<char>,
    skip_head: bool,
    attempt: int,
    reply: GetReplyView,
) -> Phase {
    match reply {
        GetReplyView::Failed(failure) => after_failed_get(url, skip_head, attempt, failure),
        GetReplyView::Response { status, location } => if status == SEE_OTHER {
            match location {
                None => resolved_phase(url, skip_head),
                Some(header) => if readable(header) {
                    resolved_phase(header_chars(header), skip_head)
                } else {
                    after_failed_get(
                        url,
                        skip_head,
                        attempt,
                        FailureView {
                            message: "failed to convert header to a str"@,
                            network: None,
                        },
                    )
                },
            }
        } else if success(status) {
            resolved_phase(url, skip_head)
        } else {
            Phase::Body { url, skip_head, attempt, status }
        },
    }
}

/// The text of the error that a refusal stands for, `status` being the status as text.
pub open spec fn refusal_message(url: Seq<char>, status: Seq<char>, body: Seq<char>) -> Seq<char> {
    "GET request for "@ + url + " failed with status "@ + status + ": "@ + body
}

/// The download after a refusal whose body has been read. A body that cannot be read counts as
/// empty.
pub open spec fn after_body(
    url: Seq<char>,
    skip_head: bool,
    attempt: int,
    status: u16,
    body: Option<Seq<char>>,
) -> Phase {
    let text = match body {
        Some(b) => b,
        None => Seq::empty(),
    };
    after_failed_get(
        url,
        skip_head,
        attempt,
        FailureView { message: refusal_message(url, status_words(status), text), network: None },
    )
}

/// The name that the server gives or, failing that, the one that the URL ends with.
pub open spec fn served_name(
    disposition: Option<Seq<u8>>,
    path_name: Option<Seq<char>>,
) -> Seq<char> {
    match disposition {
        Some(header) => match disposition_name(header) {
            Some(name) => name,
            None => or_default(path_name),
        },
        None => or_default(path_name),
    }
}

/// The download after a HEAD request has failed. Here only the HTTP client is asked whether another
/// attempt is worth while.
pub open spec fn after_failed_head(
    url: Seq<char>,
    attempt: int,
    message: Seq<char>,
    fault: NetworkFault,
) -> Phase {
    if attempts_left(attempt) && fault.passing() {
        Phase::Head { url, attempt: attempt + 1 }
    } else {
        Phase::Done(Err(TaskErrorView::HeadFailed { url, cause: message }))
    }
}

/// Whether `next` can follow the answer to a HEAD request. Where the server gives no name, the URL
/// is read as a path and its file name is taken.
pub open spec fn follows_head(
    url: Seq<char>,
    attempt: int,
    reply: HeadReplyView,
    next: Phase,
) -> bool {
    match reply {
        HeadReplyView::Failed { message, fault } => next == after_failed_head(
            url,
            attempt,
            message,
            fault,
        ),
        HeadReplyView::Response { disposition } => exists|path_name: Option<Seq<char>>| #[trigger]
            possible_file_name(url, path_name) && next == named_phase(
                url,
                sanitized(served_name(disposition, path_name)),
            ),
    }
}

/// The download after a transfer has failed with an error text.
pub open spec fn after_failed_transfer(
    url: Seq<char>,
    name: Seq<char>,
    temp: Seq<char>,
    attempt: int,
    cause: Seq<char>,
) -> Phase {
    if attempts_left(attempt) && retryable(FailureView { message: cause, network: None }) {
        Phase::Transfer { url, name, temp, attempt: attempt + 1 }
    } else {
        Phase::Done(Err(TaskErrorView::TransferFailed { name, cause }))
    }
}

/// The download after a transfer. One that took too long is tried again whatever the cause.
pub open spec fn after_transfer(
    url: Seq<char>,
    name: Seq<char>,
    temp: Seq<char>,
    attempt: int,
    reply: TransferReplyView,
) -> Phase {
    match reply {
        TransferReplyView::Completed => Phase::Compare { name, temp },
        TransferReplyView::PrepareFailed(cause) => after_failed_transfer(
            url,
            name,
            temp,
            attempt,
            "Failed to prepare download: "@ + cause,
        ),
        TransferReplyView::DownloadFailed(cause) => after_failed_transfer(
            url,
            name,
            temp,
            attempt,
            "Download failed: "@ + cause,
        ),
        TransferReplyView::TimedOut => if attempts_left(attempt) {
            Phase::Transfer { url, name, temp, attempt: attempt + 1 }
        } else {
            Phase::Done(Err(TaskErrorView::TimedOut { name, attempts: attempt }))
        },
    }
}

/// The download after the paths of the transferred and of the wanted file have been compared. The
/// same name stands for the same path.
pub open spec fn after_compare(name: Seq<char>, temp: Seq<char>, same: bool) -> Phase {
    if same || name == temp {
        Phase::Done(Ok(()))
    } else {
        Phase::ProbeTransferred { name, temp }
    }
}

/// The download after the transferred file has been looked for. Where it is not to be found, the
/// transfer may have given the file its name already.
pub open spec fn after_probe_transferred(
    name: Seq<char>,
    temp: Seq<char>,
    exists_there: bool,
) -> Phase {
    if exists_there {
        Phase::MeasureTransferred { name, temp }
    } else {
        Phase::ProbeTarget { name, temp }
    }
}

/// The download after the file has been looked for under its name.
pub open spec fn after_probe_target(name: Seq<char>, temp: Seq<char>, exists_there: bool) -> Phase {
    if exists_there {
        Phase::MeasureTarget { name, temp }
    } else {
        Phase::Done(Err(TaskErrorView::FileMissing { name }))
    }
}

/// The download after a file's size has been asked for, `filled` being what follows where the file
/// is not empty.
pub open spec fn after_size(
    name: Seq<char>,
    size: Result<u64, Seq<char>>,
    filled: Phase,
) -> Phase {
    match size {
        Ok(bytes) => if bytes == 0 {
            Phase::Done(Err(TaskErrorView::EmptyFile { name }))
        } else {
            filled
        },
        Err(cause) => Phase::Done(Err(TaskErrorView::NoMetadata { name, cause })),
    }
}

/// The download after the attempt to give the file its name.
pub open spec fn after_rename(name: Seq<char>, outcome: Result<(), Seq<char>>) -> Phase {
    match outcome {
        Ok(_) => Phase::Done(Ok(())),
        Err(cause) => Phase::Done(Err(TaskErrorView::RenameFailed { name, cause })),
    }
}

/// Whether an attempt has a number that attempts can have.
pub open spec fn valid_attempt(attempt: int) -> bool {
    1 <= attempt <= MAX_RETRIES + 1
}

/// Asks for the place of the file with a GET request for [`GetStep::url`].
#[derive(Debug)]
pub struct GetStep {
    url: String,
    skip_head: bool,
    attempt: u8,
}

/// Asks for the body of the response with which the server refused.
#[derive(Debug)]
pub struct BodyStep {
    url: String,
    skip_head: bool,
    attempt: u8,
    status: Status,
}

/// Asks for the headers of the file with a HEAD request for [`HeadStep::url`].
#[derive(Debug)]
pub struct HeadStep {
    url: String,
    attempt: u8,
}

/// Asks for the transfer of the file at [`TransferStep::url`].
#[derive(Debug)]
pub struct TransferStep {
    url: String,
    name: String,
    temp: String,
    attempt: u8,
}

/// Asks whether the transferred file already has the path that it is to have.
#[derive(Debug)]
pub struct CompareStep {
    name: String,
    temp: String,
}

/// Asks whether the transferred file exists.
#[derive(Debug)]
pub struct ProbeTransferredStep {
    name: String,
    temp: String,
}

/// Asks for the size of the transferred file.
#[derive(Debug)]
pub struct MeasureTransferredStep {
    name: String,
    temp: String,
}

/// Asks for the transferred file to be given its name.
#[derive(Debug)]
pub struct RenameStep {
    name: String,
    temp: String,
}

/// Asks whether the file exists under its name.
#[derive(Debug)]
pub struct ProbeTargetStep {
    name: String,
    temp: String,
}

/// Asks for the size of the file under its name.
#[derive(Debug)]
pub struct MeasureTargetStep {
    name: String,
    temp: String,
}

/// What is to be done next for a download.
#[derive(Debug)]
pub enum Step {
    Get(GetStep),
    Body(BodyStep),
    Head(HeadStep),
    Transfer(TransferStep),
    Compare(CompareStep),
    ProbeTransferred(ProbeTransferredStep),
    MeasureTransferred(MeasureTransferredStep),
    Rename(RenameStep),
    ProbeTarget(ProbeTargetStep),
    MeasureTarget(MeasureTargetStep),
    /// Nothing: the download is over.
    Done(Result<(), TaskError>),
}

impl View for Step {
    type V = Phase;

    open spec fn view(&self) -> Phase {
        match self {
            Step::Get(step) => step@,
            Step::Body(step) => step@,
            Step::Head(step) => step@,
            Step::Transfer(step) => step@,
            Step::Compare(step) => step@,
            Step::ProbeTransferred(step) => step@,
            Step::MeasureTransferred(step) => step@,
            Step::Rename(step) => step@,
            Step::ProbeTarget(step) => step@,
            Step::MeasureTarget(step) => step@,
            Step::Done(result) => Phase::Done(result_view(*result)),
        }
    }
}

/// A step and its phase tell of the same thing to do.
pub proof fn phase_tells_step(step: Step)
    ensures
        step is Get <==> step@ is Get,
        step is Body <==> step@ is Body,
        step is Head <==> step@ is Head,
        step is Transfer <==> step@ is Transfer,
        step is Compare <==> step@ is Compare,
        step is ProbeTransferred <==> step@ is ProbeTransferred,
        step is MeasureTransferred <==> step@ is MeasureTransferred,
        step is Rename <==> step@ is Rename,
        step is ProbeTarget <==> step@ is ProbeTarget,
        step is MeasureTarget <==> step@ is MeasureTarget,
        step is Done <==> step@ is Done,
{
}

/// Goes on to the transfer, once the file's place and name are known and the place has been
/// parsed.
pub fn begin_transfer(
    parsed: &Result<Option<Vec<String>>, String>,
    url: String,
    name: String,
) -> (r: Step)
    ensures
        r@ == transfer_phase(segments_view(*parsed), url@, name@),
{
    match parsed {
        Ok(_) => {
            let temp = match last_segment(parsed) {
                Some(segment) => segment,
                None => UNKNOWN_TEMP_NAME.to_owned(),
            };
            Step::Transfer(TransferStep { url, name, temp, attempt: 1 })
        },
        Err(cause) => Step::Done(Err(TaskError::UnparsableUrl { url, cause: cause.clone() })),
    }
}

/// Goes on to the transfer, once the file's place and name are known.
fn named(url: String, name: String) -> (r: Step)
    ensures
        r@ == named_phase(url@, name@),
{
    let parsed = parse_url(url.as_str());
    begin_transfer(&parsed, url, name)
}

/// Goes on to the file's name, once its place is known.
fn resolved(url: String, skip_head: bool) -> (r: Step)
    ensures
        r@ == resolved_phase(url@, skip_head),
{
    if skip_head {
        let given = name_from_url(url.as_str());
        let name = sanitize(given.as_str());
        named(url, name)
    } else {
        Step::Head(HeadStep { url, attempt: 1 })
    }
}

/// Begins the download of `url`. With `skip_head` the file gets its name from the URL, without
/// asking the server for it.
pub fn download_file_task(url: String, skip_head: bool) -> (r: Step)
    ensures
        r@ == first_phase(url@, skip_head),
{
    if !is_http_url(url.as_str()) {
        return Step::Done(Err(TaskError::InvalidUrl { url }));
    }
    if ends_with(url.as_str(), ".data") {
        return resolved(url, skip_head);
    }
    Step::Get(GetStep { url, skip_head, attempt: 1 })
}

/// Decides on an attempt that has failed to find the file's place.
fn get_failed(url: String, skip_head: bool, attempt: u8, failure: Failure) -> (r: Step)
    requires
        valid_attempt(attempt as int),
    ensures
        r@ == after_failed_get(url@, skip_head, attempt as int, failure@),
{
    if attempt <= MAX_RETRIES && is_retryable_error(&failure) {
        Step::Get(GetStep { url, skip_head, attempt: attempt + 1 })
    } else {
        Step::Done(Err(TaskError::GetFailed { url, cause: failure.message }))
    }
}

/// Writes the text of the error that a refusal stands for, `status` being the status as text.
pub fn refusal_text(url: &str, status: &str, body: &str) -> (r: String)
    ensures
        r@ == refusal_message(url@, status@, body@),
{
    let mut message = join4("GET request for ", url, " failed with status ", status);
    message.append(": ");
    message.append(body);
    message
}

/// Names the file after the server's header or, failing that, after the end of the URL.
fn choose_name(url: &str, disposition: Option<Vec<u8>>) -> (r: String)
    ensures
        exists|path_name: Option<Seq<char>>| #[trigger]
            possible_file_name(url@, path_name) && r@ == sanitized(
                served_name(header_view(disposition), path_name),
            ),
{
    let given = match &disposition {
        Some(header) => name_from_disposition(header.as_slice()),
        None => None,
    };
    let fallback = name_from_path(url);
    let ghost path_name = choose|n: Option<Seq<char>>| #[trigger]
        possible_file_name(url@, n) && fallback@ == or_default(n);
    assert(possible_file_name(url@, path_name));
    file_name_for(given, fallback)
}

/// The pause before an attempt, in seconds: none before the first.
pub open spec fn pause(attempt: int) -> u64 {
    if attempt == 1 {
        0
    } else {
        RETRY_DELAY_SECS
    }
}

fn pause_before(attempt: u8) -> (r: u64)
    ensures
        r == pause(attempt as int),
{
    if attempt == 1 {
        0
    } else {
        RETRY_DELAY_SECS
    }
}

impl GetStep {
    #[verifier::type_invariant]
    spec fn inv(self) -> bool {
        valid_attempt(self.attempt as int)
    }

    /// The phase in which the request is sent.
    pub closed spec fn view(&self) -> Phase {
        Phase::Get { url: self.url@, skip_head: self.skip_head, attempt: self.attempt as int }
    }

    /// The URL to send the request to.
    pub fn url(&self) -> (r: &str)
        ensures
            self@ is Get,
            r@ == self@->Get_url,
    {
        self.url.as_str()
    }

    /// The number of the attempt, from one on.
    pub fn attempt(&self) -> (r: u8)
        ensures
            self@ is Get,
            r == self@->Get_attempt,
            valid_attempt(r as int),
    {
        proof {
            use_type_invariant(self);
        }
        self.attempt
    }

    /// The seconds to wait before the request is sent.
    pub fn delay_secs(&self) -> (r: u64)
        ensures
            self@ is Get,
            r == pause(self@->Get_attempt),
    {
        pause_before(self.attempt)
    }

    /// Takes the answer to the request.
    pub fn replied(self, reply: GetReply) -> (r: Step)
        ensures
            self@ is Get,
            r@ == after_get(self@->Get_url, self@->Get_skip_head, self@->Get_attempt, reply@),
            moves(self@, Event::Got(reply@), r@),
    {
        proof {
            use_type_invariant(&self);
        }
        let GetStep { url, skip_head, attempt } = self;
        match reply {
            GetReply::Failed(failure) => get_failed(url, skip_head, attempt, failure),
            GetReply::Response { status, location } => {
                if status.code() == SEE_OTHER {
                    match location {
                        None => resolved(url, skip_head),
                        Some(header) => match header_text(header.as_slice()) {
                            Some(place) => resolved(place, skip_head),
                            None => get_failed(
                                url,
                                skip_head,
                                attempt,
                                Failure {
                                    message: "failed to convert header to a str".to_owned(),
                                    network: None,
                                },
                            ),
                        },
                    }
                } else if is_success(status.code()) {
                    resolved(url, skip_head)
                } else {
                    Step::Body(BodyStep { url, skip_head, attempt, status })
                }
            },
        }
    }
}

impl BodyStep {
    #[verifier::type_invariant]
    spec fn inv(self) -> bool {
        valid_attempt(self.attempt as int)
    }

    /// The phase in which the body is read.
    pub closed spec fn view(&self) -> Phase {
        Phase::Body {
            url: self.url@,
            skip_head: self.skip_head,
            attempt: self.attempt as int,
            status: self.status@,
        }
    }

    /// Takes the body, or nothing where it could not be read.
    pub fn read(self, body: Option<String>) -> (r: Step)
        ensures
            self@ is Body,
            r@ == after_body(
                self@->Body_url,
                self@->Body_skip_head,
                self@->Body_attempt,
                self@->Body_status,
                optional_text(body),
            ),
            moves(self@, Event::Read(optional_text(body)), r@),
    {
        proof {
            use_type_invariant(&self);
        }
        let BodyStep { url, skip_head, attempt, status } = self;
        let text = match body {
            Some(b) => b,
            None => String::new(),
        };
        let message = refusal_text(url.as_str(), status.text(), text.as_str());
        get_failed(url, skip_head, attempt, Failure { message, network: None })
    }
}

impl HeadStep {
    #[verifier::type_invariant]
    spec fn inv(self) -> bool {
        valid_attempt(self.attempt as int)
    }

    /// The phase in which the request is sent.
    pub closed spec fn view(&self) -> Phase {
        Phase::Head { url: self.url@, attempt: self.attempt as int }
    }

    /// The URL to send the request to.
    pub fn url(&self) -> (r: &str)
        ensures
            self@ is Head,
            r@ == self@->Head_url,
    {
        self.url.as_str()
    }

    /// The number of the attempt, from one on.
    pub fn attempt(&self) -> (r: u8)
        ensures
            self@ is Head,
            r == self@->Head_attempt,
            valid_attempt(r as int),
    {
        proof {
            use_type_invariant(self);
        }
        self.attempt
    }

    /// The seconds to wait before the request is sent.
    pub fn delay_secs(&self) -> (r: u64)
        ensures
            self@ is Head,
            r == pause(self@->Head_attempt),
    {
        pause_before(self.attempt)
    }

    /// Takes the answer to the request.
    pub fn replied(self, reply: HeadReply) -> (r: Step)
        ensures
            self@ is Head,
            follows_head(self@->Head_url, self@->Head_attempt, reply@, r@),
            moves(self@, Event::HeadGot(reply@), r@),
    {
        proof {
            use_type_invariant(&self);
        }
        let HeadStep { url, attempt } = self;
        match reply {
            HeadReply::Response { disposition } => {
                let name = choose_name(url.as_str(), disposition);
                named(url, name)
            },
            HeadReply::Failed { message, fault } => {
                if attempt <= MAX_RETRIES && fault.is_passing() {
                    Step::Head(HeadStep { url, attempt: attempt + 1 })
                } else {
                    Step::Done(Err(TaskError::HeadFailed { url, cause: message }))
                }
            },
        }
    }
}

impl TransferStep {
    #[verifier::type_invariant]
    spec fn inv(self) -> bool {
        valid_attempt(self.attempt as int)
    }

    /// The phase in which the file is transferred.
    pub closed spec fn view(&self) -> Phase {
        Phase::Transfer {
            url: self.url@,
            name: self.name@,
            temp: self.temp@,
            attempt: self.attempt as int,
        }
    }

    /// The URL of the file.
    pub fn url(&self) -> (r: &str)
        ensures
            self@ is Transfer,
            r@ == self@->Transfer_url,
    {
        self.url.as_str()
    }

    /// The name that the file is to have.
    pub fn name(&self) -> (r: &str)
        ensures
            self@ is Transfer,
            r@ == self@->Transfer_name,
    {
        self.name.as_str()
    }

    /// The number of the attempt, from one on.
    pub fn attempt(&self) -> (r: u8)
        ensures
            self@ is Transfer,
            r == self@->Transfer_attempt,
            valid_attempt(r as int),
    {
        proof {
            use_type_invariant(self);
        }
        self.attempt
    }

    /// The seconds to wait before the transfer is begun.
    pub fn delay_secs(&self) -> (r: u64)
        ensures
            self@ is Transfer,
            r == pause(self@->Transfer_attempt),
    {
        pause_before(self.attempt)
    }

    /// Decides on a transfer that has failed with an error text.
    fn failed(self, cause: String) -> (r: Step)
        ensures
            self@ is Transfer,
            r@ == after_failed_transfer(
                self@->Transfer_url,
                self@->Transfer_name,
                self@->Transfer_temp,
                self@->Transfer_attempt,
                cause@,
            ),
    {
        proof {
            use_type_invariant(&self);
        }
        let TransferStep { url, name, temp, attempt } = self;
        let failure = Failure { message: cause, network: None };
        if attempt <= MAX_RETRIES && is_retryable_error(&failure) {
            Step::Transfer(TransferStep { url, name, temp, attempt: attempt + 1 })
        } else {
            Step::Done(Err(TaskError::TransferFailed { name, cause: failure.message }))
        }
    }

    /// Takes what came of the transfer.
    pub fn replied(self, reply: TransferReply) -> (r: Step)
        ensures
            self@ is Transfer,
            r@ == after_transfer(
                self@->Transfer_url,
                self@->Transfer_name,
                self@->Transfer_temp,
                self@->Transfer_attempt,
                reply@,
            ),
            moves(self@, Event::Transferred(reply@), r@),
    {
        proof {
            use_type_invariant(&self);
        }
        match reply {
            TransferReply::Completed => Step::Compare(
                CompareStep { name: self.name, temp: self.temp },
            ),
            TransferReply::PrepareFailed(cause) => self.failed(
                join2("Failed to prepare download: ", cause.as_str()),
            ),
            TransferReply::DownloadFailed(cause) => self.failed(
                join2("Download failed: ", cause.as_str()),
            ),
            TransferReply::TimedOut => {
                let TransferStep { url, name, temp, attempt } = self;
                if attempt <= MAX_RETRIES {
                    Step::Transfer(TransferStep { url, name, temp, attempt: attempt + 1 })
                } else {
                    Step::Done(Err(TaskError::TimedOut { name, attempts: attempt }))
                }
            },
        }
    }
}

impl CompareStep {
    /// The phase in which the paths are compared.
    pub closed spec fn view(&self) -> Phase {
        Phase::Compare { name: self.name@, temp: self.temp@ }
    }

    /// The name that the file is to have.
    pub fn name(&self) -> (r: &str)
        ensures
            self@ is Compare,
            r@ == self@->Compare_name,
    {
        self.name.as_str()
    }

    /// The name of the transferred file.
    pub fn temp_name(&self) -> (r: &str)
        ensures
            self@ is Compare,
            r@ == self@->Compare_temp,
    {
        self.temp.as_str()
    }

    /// The line of the progress display once the transfer is through.
    pub fn progress(&self) -> (r: String)
        ensures
            self@ is Compare,
            r@ == "Download of "@ + self@->Compare_name + " complete"@,
    {
        join3("Download of ", self.name.as_str(), " complete")
    }

    /// Takes whether the two names stand for the same path. Where they are one name, they do.
    pub fn compared(self, same: bool) -> (r: Step)
        ensures
            self@ is Compare,
            r@ == after_compare(self@->Compare_name, self@->Compare_temp, same),
            moves(self@, Event::Compared(same), r@),
    {
        let CompareStep { name, temp } = self;
        if same || same_text(name.as_str(), temp.as_str()) {
            Step::Done(Ok(()))
        } else {
            Step::ProbeTransferred(ProbeTransferredStep { name, temp })
        }
    }
}

impl ProbeTransferredStep {
    /// The phase in which the transferred file is looked for.
    pub closed spec fn view(&self) -> Phase {
        Phase::ProbeTransferred { name: self.name@, temp: self.temp@ }
    }

    /// The name of the transferred file.
    pub fn temp_name(&self) -> (r: &str)
        ensures
            self@ is ProbeTransferred,
            r@ == self@->ProbeTransferred_temp,
    {
        self.temp.as_str()
    }

    /// Takes whether the transferred file exists.
    pub fn probed(self, exists_there: bool) -> (r: Step)
        ensures
            self@ is ProbeTransferred,
            r@ == after_probe_transferred(
                self@->ProbeTransferred_name,
                self@->ProbeTransferred_temp,
                exists_there,
            ),
            moves(self@, Event::Probed(exists_there), r@),
    {
        let ProbeTransferredStep { name, temp } = self;
        if exists_there {
            Step::MeasureTransferred(MeasureTransferredStep { name, temp })
        } else {
            Step::ProbeTarget(ProbeTargetStep { name, temp })
        }
    }
}

impl MeasureTransferredStep {
    /// The phase in which the size of the transferred file is asked for.
    pub closed spec fn view(&self) -> Phase {
        Phase::MeasureTransferred { name: self.name@, temp: self.temp@ }
    }

    /// The name of the transferred file.
    pub fn temp_name(&self) -> (r: &str)
        ensures
            self@ is MeasureTransferred,
            r@ == self@->MeasureTransferred_temp,
    {
        self.temp.as_str()
    }

    /// Takes the size in bytes, or the text of the error.
    pub fn measured(self, size: Result<u64, String>) -> (r: Step)
        ensures
            self@ is MeasureTransferred,
            r@ == after_size(
                self@->MeasureTransferred_name,
                outcome_view(size),
                Phase::Rename {
                    name: self@->MeasureTransferred_name,
                    temp: self@->MeasureTransferred_temp,
                },
            ),
            moves(self@, Event::Measured(outcome_view(size)), r@),
    {
        let MeasureTransferredStep { name, temp } = self;
        match size {
            Ok(bytes) => {
                if bytes == 0 {
                    Step::Done(Err(TaskError::EmptyFile { name }))
                } else {
                    Step::Rename(RenameStep { name, temp })
                }
            },
            Err(cause) => Step::Done(Err(TaskError::NoMetadata { name, cause })),
        }
    }
}

impl RenameStep {
    /// The phase in which the file is given its name.
    pub closed spec fn view(&self) -> Phase {
        Phase::Rename { name: self.name@, temp: self.temp@ }
    }

    /// The name that the file is to have.
    pub fn name(&self) -> (r: &str)
        ensures
            self@ is Rename,
            r@ == self@->Rename_name,
    {
        self.name.as_str()
    }

    /// The name of the transferred file.
    pub fn temp_name(&self) -> (r: &str)
        ensures
            self@ is Rename,
            r@ == self@->Rename_temp,
    {
        self.temp.as_str()
    }

    /// Takes what came of it.
    pub fn renamed(self, outcome: Result<(), String>) -> (r: Step)
        ensures
            self@ is Rename,
            r@ == after_rename(self@->Rename_name, outcome_view(outcome)),
            moves(self@, Event::Renamed(outcome_view(outcome)), r@),
    {
        match outcome {
            Ok(_) => Step::Done(Ok(())),
            Err(cause) => Step::Done(Err(TaskError::RenameFailed { name: self.name, cause })),
        }
    }
}

impl ProbeTargetStep {
    /// The phase in which the file is looked for under its name.
    pub closed spec fn view(&self) -> Phase {
        Phase::ProbeTarget { name: self.name@, temp: self.temp@ }
    }

    /// The name of the file.
    pub fn name(&self) -> (r: &str)
        ensures
            self@ is ProbeTarget,
            r@ == self@->ProbeTarget_name,
    {
        self.name.as_str()
    }

    /// Takes whether the file exists under its name.
    pub fn probed(self, exists_there: bool) -> (r: Step)
        ensures
            self@ is ProbeTarget,
            r@ == after_probe_target(
                self@->ProbeTarget_name,
                self@->ProbeTarget_temp,
                exists_there,
            ),
            moves(self@, Event::Probed(exists_there), r@),
    {
        let ProbeTargetStep { name, temp } = self;
        if exists_there {
            Step::MeasureTarget(MeasureTargetStep { name, temp })
        } else {
            Step::Done(Err(TaskError::FileMissing { name }))
        }
    }
}

impl MeasureTargetStep {
    /// The phase in which the size of the file under its name is asked for.
    pub closed spec fn view(&self) -> Phase {
        Phase::MeasureTarget { name: self.name@, temp: self.temp@ }
    }

    /// The name of the file.
    pub fn name(&self) -> (r: &str)
        ensures
            self@ is MeasureTarget,
            r@ == self@->MeasureTarget_name,
    {
        self.name.as_str()
    }

    /// Takes the size in bytes, or the text of the error.
    pub fn measured(self, size: Result<u64, String>) -> (r: Step)
        ensures
            self@ is MeasureTarget,
            r@ == after_size(
                self@->MeasureTarget_name,
                outcome_view(size),
                Phase::Done(Ok(())),
            ),
            moves(self@, Event::Measured(outcome_view(size)), r@),
    {
        match size {
            Ok(bytes) => {
                if bytes == 0 {
                    Step::Done(Err(TaskError::EmptyFile { name: self.name }))
                } else {
                    Step::Done(Ok(()))
                }
            },
            Err(cause) => Step::Done(Err(TaskError::NoMetadata { name: self.name, cause })),
        }
    }
}

/// An answer is told as it came: nothing of it is left out or altered before it is judged.
pub proof fn answers_are_told_in_full(
    status: Status,
    header: Vec<u8>,
    failure: Failure,
    text: String,
    fault: NetworkFault,
    size: u64,
)
    ensures
        (GetReply::Response { status, location: Some(header) })@ == (GetReplyView::Response {
            status: status@,
            location: Some(header@),
        }),
        (GetReply::Response { status, location: None })@ == (GetReplyView::Response {
            status: status@,
            location: None,
        }),
        GetReply::Failed(failure)@ == GetReplyView::Failed(failure@),
        failure@.message == failure.message@,
        failure@.network == failure.network,
        (HeadReply::Response { disposition: Some(header) })@ == (HeadReplyView::Response {
            disposition: Some(header@),
        }),
        (HeadReply::Response { disposition: None })@ == (HeadReplyView::Response {
            disposition: None,
        }),
        (HeadReply::Failed { message: text, fault })@ == (HeadReplyView::Failed {
            message: text@,
            fault,
        }),
        TransferReply::Completed@ == TransferReplyView::Completed,
        TransferReply::PrepareFailed(text)@ == TransferReplyView::PrepareFailed(text@),
        TransferReply::DownloadFailed(text)@ == TransferReplyView::DownloadFailed(text@),
        TransferReply::TimedOut@ == TransferReplyView::TimedOut,
        outcome_view::<u64>(Ok(size)) == Ok::<u64, Seq<char>>(size),
        outcome_view::<u64>(Err(text)) == Err::<u64, Seq<char>>(text@),
        outcome_view::<()>(Ok(())) == Ok::<(), Seq<char>>(()),
        outcome_view::<()>(Err(text)) == Err::<(), Seq<char>>(text@),
        optional_text(Some(text)) == Some(text@),
        optional_text(None) is None,
{
}

/// The end of a download is told as it is: success as success, and an error by its content.
pub proof fn end_is_told_in_full(e: TaskError)
    ensures
        Step::Done(Ok(()))@ == Phase::Done(Ok(())),
        Step::Done(Err(e))@ == Phase::Done(Err(e@)),
{
}

} // verus!
