//! Which URLs the user's input stands for.
//!
//! The input is the path of a file that names URLs, the URL of a JSON list of URLs, or a URL to
//! download. [`resolve_url_input`] gives the first [`InputStep`]; each step that asks for
//! something is answered with what came of it and gives the next one.

use vstd::prelude::*;

use crate::request::is_success;
use crate::request::success;
use crate::text::join3;
use crate::text::join4;
use crate::text::texts;
use crate::urls::http_url;
use crate::urls::http_urls;
use crate::urls::is_http_url;
use crate::urls::keep_http_urls;
use crate::urls::kept_urls_are_urls;
use crate::urls::urls_from_file;
use crate::urls::urls_in_file;

verus! {

/// Why an input stands for no list of URLs.
#[derive(Debug)]
pub enum InputError {
    /// The input is a file that cannot be read.
    Unreadable { input: String, cause: String },
    /// The input is neither a file nor a URL.
    Invalid { input: String },
}

/// The content of an [`InputError`].
#[verifier::ext_equal]
pub enum InputErrorView {
    Unreadable { input: Seq<char>, cause: Seq<char> },
    Invalid { input: Seq<char> },
}

impl View for InputError {
    type V = InputErrorView;

    open spec fn view(&self) -> InputErrorView {
        match self {
            InputError::Unreadable { input, cause } => InputErrorView::Unreadable {
                input: input@,
                cause: cause@,
            },
            InputError::Invalid { input } => InputErrorView::Invalid { input: input@ },
        }
    }
}

impl InputErrorView {
    /// The text of the error.
    pub open spec fn message(self) -> Seq<char> {
        match self {
            InputErrorView::Unreadable { input, cause } => "Failed to read file "@ + input + ": "@
                + cause,
            InputErrorView::Invalid { input } => "Invalid input: "@ + input
                + ". Must be a file path or an HTTP/S URL."@,
        }
    }
}

impl InputError {
    /// The text of the error.
    pub fn message(&self) -> (r: String)
        ensures
            r@ == self@.message(),
    {
        match self {
            InputError::Unreadable { input, cause } => join4(
                "Failed to read file ",
                input.as_str(),
                ": ",
                cause.as_str(),
            ),
            InputError::Invalid { input } => join3(
                "Invalid input: ",
                input.as_str(),
                ". Must be a file path or an HTTP/S URL.",
            ),
        }
    }
}

/// Where the resolution of an input stands.
#[verifier::ext_equal]
pub enum InputPhase {
    /// A file of that name is looked for.
    Probe { input: Seq<char> },
    /// The file is read.
    ReadFile { input: Seq<char> },
    /// The URL is asked for a list.
    Fetch { input: Seq<char> },
    /// The response is read as a list.
    Decode { input: Seq<char> },
    /// The URLs are known, or there is an error.
    Done(Result<Seq<Seq<char>>, InputErrorView>),
}

/// The resolution once it is known whether the input is a file.
pub open spec fn after_probe(input: Seq<char>, is_file: bool) -> InputPhase {
    if is_file {
        InputPhase::ReadFile { input }
    } else if http_url(input) {
        InputPhase::Fetch { input }
    } else {
        InputPhase::Done(Err(InputErrorView::Invalid { input }))
    }
}

/// The resolution once the file has been read.
pub open spec fn after_read(input: Seq<char>, content: Result<Seq<char>, Seq<char>>) -> InputPhase {
    match content {
        Ok(text) => InputPhase::Done(Ok(urls_in_file(text))),
        Err(cause) => InputPhase::Done(Err(InputErrorView::Unreadable { input, cause })),
    }
}

/// The resolution once the URL has answered with a status, or not at all. A URL that gives no
/// list is the one URL to download.
pub open spec fn after_fetch(input: Seq<char>, status: Option<u16>) -> InputPhase {
    match status {
        Some(code) => if success(code) {
            InputPhase::Decode { input }
        } else {
            InputPhase::Done(Ok(seq![input]))
        },
        None => InputPhase::Done(Ok(seq![input])),
    }
}

/// The resolution once the response has been read as a list. A response that is no list makes the
/// URL the one URL to download.
pub open spec fn after_decode(input: Seq<char>, list: Option<Seq<Seq<char>>>) -> InputPhase {
    match list {
        Some(urls) => InputPhase::Done(Ok(http_urls(urls))),
        None => InputPhase::Done(Ok(seq![input])),
    }
}

/// Asks whether [`ProbeStep::input`] is a file.
#[derive(Debug)]
pub struct ProbeStep {
    input: String,
}

/// Asks for the content of the file [`ReadFileStep::input`].
#[derive(Debug)]
pub struct ReadFileStep {
    input: String,
}

/// Asks for the response to a GET request for [`FetchStep::input`].
#[derive(Debug)]
pub struct FetchStep {
    input: String,
}

/// Asks for the response to be read as a JSON list of strings.
#[derive(Debug)]
pub struct DecodeStep {
    input: String,
}

/// What is to be done next for the input.
#[derive(Debug)]
pub enum InputStep {
    Probe(ProbeStep),
    ReadFile(ReadFileStep),
    Fetch(FetchStep),
    Decode(DecodeStep),
    /// Nothing: the URLs are known, or there is an error.
    Done(Result<Vec<String>, InputError>),
}

/// The content of a resolved input.
pub open spec fn resolution_view(r: Result<Vec<String>, InputError>) -> Result<
    Seq<Seq<char>>,
    InputErrorView,
> {
    match r {
        Ok(urls) => Ok(texts(urls@)),
        Err(e) => Err(e@),
    }
}

impl View for InputStep {
    type V = InputPhase;

    open spec fn view(&self) -> InputPhase {
        match self {
            InputStep::Probe(step) => step@,
            InputStep::ReadFile(step) => step@,
            InputStep::Fetch(step) => step@,
            InputStep::Decode(step) => step@,
            InputStep::Done(result) => InputPhase::Done(resolution_view(*result)),
        }
    }
}

/// A step and its phase tell of the same thing to do.
pub proof fn phase_tells_step(step: InputStep)
    ensures
        step is Probe <==> step@ is Probe,
        step is ReadFile <==> step@ is ReadFile,
        step is Fetch <==> step@ is Fetch,
        step is Decode <==> step@ is Decode,
        step is Done <==> step@ is Done,
{
}

/// Begins to resolve an input.
pub fn resolve_url_input(input: String) -> (r: InputStep)
    ensures
        r@ == (InputPhase::Probe { input: input@ }),
{
    InputStep::Probe(ProbeStep { input })
}

/// Ends with one URL.
fn single(input: String) -> (r: InputStep)
    ensures
        r@ == InputPhase::Done(Ok(seq![input@])),
{
    let mut urls: Vec<String> = Vec::new();
    urls.push(input);
    assert(texts(urls@) =~= seq![input@]);
    InputStep::Done(Ok(urls))
}

impl ProbeStep {
    /// The phase in which the file is looked for.
    pub closed spec fn view(&self) -> InputPhase {
        InputPhase::Probe { input: self.input@ }
    }

    /// The input.
    pub fn input(&self) -> (r: &str)
        ensures
            self@ is Probe,
            r@ == self@->Probe_input,
    {
        self.input.as_str()
    }

    /// Takes whether the input is a file.
    pub fn probed(self, is_file: bool) -> (r: InputStep)
        ensures
            self@ is Probe,
            r@ == after_probe(self@->Probe_input, is_file),
            input_moves(self@, InputEvent::Probed(is_file), r@),
    {
        let ProbeStep { input } = self;
        if is_file {
            InputStep::ReadFile(ReadFileStep { input })
        } else if is_http_url(input.as_str()) {
            InputStep::Fetch(FetchStep { input })
        } else {
            InputStep::Done(Err(InputError::Invalid { input }))
        }
    }
}

/// The characters in a file's content or in the error that stands in its place.
pub open spec fn content_view(r: Result<String, String>) -> Result<Seq<char>, Seq<char>> {
    match r {
        Ok(text) => Ok(text@),
        Err(cause) => Err(cause@),
    }
}

impl ReadFileStep {
    /// The phase in which the file is read.
    pub closed spec fn view(&self) -> InputPhase {
        InputPhase::ReadFile { input: self.input@ }
    }

    /// The path of the file.
    pub fn input(&self) -> (r: &str)
        ensures
            self@ is ReadFile,
            r@ == self@->ReadFile_input,
    {
        self.input.as_str()
    }

    /// Takes the content of the file, or the text of the error.
    pub fn read(self, content: Result<String, String>) -> (r: InputStep)
        ensures
            self@ is ReadFile,
            r@ == after_read(self@->ReadFile_input, content_view(content)),
            input_moves(self@, InputEvent::Read(content_view(content)), r@),
    {
        match content {
            Ok(text) => InputStep::Done(Ok(urls_from_file(text.as_str()))),
            Err(cause) => InputStep::Done(
                Err(InputError::Unreadable { input: self.input, cause }),
            ),
        }
    }
}

impl FetchStep {
    /// The phase in which the URL is asked.
    pub closed spec fn view(&self) -> InputPhase {
        InputPhase::Fetch { input: self.input@ }
    }

    /// The URL.
    pub fn input(&self) -> (r: &str)
        ensures
            self@ is Fetch,
            r@ == self@->Fetch_input,
    {
        self.input.as_str()
    }

    /// Takes the status of the response, or nothing where none came.
    pub fn replied(self, status: Option<u16>) -> (r: InputStep)
        ensures
            self@ is Fetch,
            r@ == after_fetch(self@->Fetch_input, status),
            input_moves(self@, InputEvent::Replied(status), r@),
    {
        let FetchStep { input } = self;
        match status {
            Some(code) => {
                if is_success(code) {
                    InputStep::Decode(DecodeStep { input })
                } else {
                    single(input)
                }
            },
            None => single(input),
        }
    }
}

/// The characters in the strings of an optional list.
pub open spec fn list_view(list: Option<Vec<String>>) -> Option<Seq<Seq<char>>> {
    match list {
        Some(urls) => Some(texts(urls@)),
        None => None,
    }
}

impl DecodeStep {
    /// The phase in which the response is read.
    pub closed spec fn view(&self) -> InputPhase {
        InputPhase::Decode { input: self.input@ }
    }

    /// Takes the list, or nothing where the response is none.
    pub fn decoded(self, list: Option<Vec<String>>) -> (r: InputStep)
        ensures
            self@ is Decode,
            r@ == after_decode(self@->Decode_input, list_view(list)),
            input_moves(self@, InputEvent::Decoded(list_view(list)), r@),
    {
        match list {
            Some(urls) => InputStep::Done(Ok(keep_http_urls(urls))),
            None => single(self.input),
        }
    }
}

/// What the world answers to a step.
pub enum InputEvent {
    Probed(bool),
    Read(Result<Seq<char>, Seq<char>>),
    Replied(Option<u16>),
    Decoded(Option<Seq<Seq<char>>>),
}

/// Whether the phase `q` can follow the phase `p` when the world answers with `e`.
pub open spec fn input_moves(p: InputPhase, e: InputEvent, q: InputPhase) -> bool {
    match (p, e) {
        (InputPhase::Probe { input }, InputEvent::Probed(is_file)) => q == after_probe(
            input,
            is_file,
        ),
        (InputPhase::ReadFile { input }, InputEvent::Read(content)) => q == after_read(
            input,
            content,
        ),
        (InputPhase::Fetch { input }, InputEvent::Replied(status)) => q == after_fetch(
            input,
            status,
        ),
        (InputPhase::Decode { input }, InputEvent::Decoded(list)) => q == after_decode(input, list),
        _ => false,
    }
}

/// Whether the phases and the answers between them are a way in which `input` can be resolved, up
/// to some point.
pub open spec fn resolution_of(
    input: Seq<char>,
    phases: Seq<InputPhase>,
    events: Seq<InputEvent>,
) -> bool {
    &&& phases.len() == events.len() + 1
    &&& phases[0] == (InputPhase::Probe { input })
    &&& forall|i: int|
        0 <= i < events.len() ==> input_moves(phases[i], #[trigger] events[i], phases[i + 1])
}

/// Whether a phase can come up in the resolution of `input` after `n` answers.
pub open spec fn input_sound(input: Seq<char>, p: InputPhase, n: int) -> bool {
    match p {
        InputPhase::Probe { input: i } => i == input && n == 0,
        InputPhase::ReadFile { input: i } => i == input && n == 1,
        InputPhase::Fetch { input: i } => i == input && http_url(input) && n == 1,
        InputPhase::Decode { input: i } => i == input && http_url(input) && n == 2,
        InputPhase::Done(result) => {
            &&& 1 <= n <= 3
            &&& result matches Ok(urls) ==> forall|k: int|
                0 <= k < urls.len() ==> http_url(#[trigger] urls[k])
        },
    }
}

/// Whatever the world answers, an input is resolved after three answers at the most, and every URL
/// that comes of it is an HTTP URL.
pub proof fn resolution_ends_with_urls(
    input: Seq<char>,
    phases: Seq<InputPhase>,
    events: Seq<InputEvent>,
    n: int,
)
    requires
        resolution_of(input, phases, events),
        0 <= n < phases.len(),
    ensures
        input_sound(input, phases[n], n),
        n == 3 ==> phases[n] is Done,
        n <= 3,
    decreases n,
{
    if n > 0 {
        resolution_ends_with_urls(input, phases, events, n - 1);
        let p = phases[n - 1];
        let e = events[n - 1];
        assert(input_moves(p, e, phases[n]));
        match (p, e) {
            (InputPhase::ReadFile { input: i }, InputEvent::Read(Ok(text))) => {
                kept_urls_are_urls(
                    crate::text::text_lines(text).map_values(
                        |line: Seq<char>| crate::text::trimmed(line),
                    ),
                );
            },
            (InputPhase::Decode { input: i }, InputEvent::Decoded(Some(list))) => {
                kept_urls_are_urls(list);
            },
            _ => {},
        }
    }
}

/// A URL that is not the name of a file is always resolved: whatever the server answers, there is
/// no error.
pub proof fn url_input_never_fails(
    input: Seq<char>,
    phases: Seq<InputPhase>,
    events: Seq<InputEvent>,
    n: int,
)
    requires
        resolution_of(input, phases, events),
        http_url(input),
        events.len() > 0 ==> events[0] == InputEvent::Probed(false),
        0 <= n < phases.len(),
    ensures
        phases[n] matches InputPhase::Done(result) ==> result is Ok,
        !(phases[n] is ReadFile),
        phases[n] is Probe ==> n == 0,
    decreases n,
{
    resolution_ends_with_urls(input, phases, events, n);
    if n > 0 {
        url_input_never_fails(input, phases, events, n - 1);
        resolution_ends_with_urls(input, phases, events, n - 1);
        assert(input_moves(phases[n - 1], events[n - 1], phases[n]));
    }
}

/// A file is read whatever its name is; an input that is no file is asked for a list if it begins
/// as an HTTP URL does, and refused if not.
pub proof fn file_comes_before_url(p: InputPhase, is_file: bool, q: InputPhase)
    requires
        p is Probe,
        input_moves(p, InputEvent::Probed(is_file), q),
    ensures
        ({
            let input = p->Probe_input;
            let url = "http://"@.is_prefix_of(input) || "https://"@.is_prefix_of(input);
            &&& is_file ==> q == (InputPhase::ReadFile { input })
            &&& !is_file && url ==> q == (InputPhase::Fetch { input })
            &&& !is_file && !url ==> q == InputPhase::Done(Err(InputErrorView::Invalid { input }))
        }),
{
}

/// A file that can be read stands for the URLs on its lines; one that cannot is an error.
pub proof fn file_stands_for_its_urls(
    p: InputPhase,
    content: Result<Seq<char>, Seq<char>>,
    q: InputPhase,
)
    requires
        p is ReadFile,
        input_moves(p, InputEvent::Read(content), q),
    ensures
        content matches Ok(text) ==> q == InputPhase::Done(Ok(urls_in_file(text))),
        content matches Err(cause) ==> q == InputPhase::Done(
            Err(InputErrorView::Unreadable { input: p->ReadFile_input, cause }),
        ),
{
}

/// A URL is read as a list if it answers with success. If it does not, or gives no list, it is
/// itself the one URL to download; a list stands for the URLs in it.
pub proof fn url_stands_for_its_list_or_itself(p: InputPhase, e: InputEvent, q: InputPhase)
    requires
        p is Fetch || p is Decode,
        input_moves(p, e, q),
    ensures
        p matches InputPhase::Fetch { input } ==> {
            &&& e matches InputEvent::Replied(Some(status)) ==> q == if 200 <= status <= 299 {
                InputPhase::Decode { input }
            } else {
                InputPhase::Done(Ok(seq![input]))
            }
            &&& e == InputEvent::Replied(None) ==> q == InputPhase::Done(Ok(seq![input]))
        },
        p matches InputPhase::Decode { input } ==> {
            &&& e matches InputEvent::Decoded(Some(list)) ==> q == InputPhase::Done(
                Ok(http_urls(list)),
            )
            &&& e == InputEvent::Decoded(None) ==> q == InputPhase::Done(Ok(seq![input]))
        },
{
}

/// An answer is told as it came, and so is the end.
pub proof fn answers_are_told_in_full(text: String, list: Vec<String>, e: InputError)
    ensures
        content_view(Ok(text)) == Ok::<Seq<char>, Seq<char>>(text@),
        content_view(Err(text)) == Err::<Seq<char>, Seq<char>>(text@),
        list_view(None) is None,
        list_view(Some(list)) matches Some(told) && told.len() == list@.len() && forall|i: int|
            0 <= i < told.len() ==> #[trigger] told[i] == list@[i]@,
        InputStep::Done(Ok(list))@ matches InputPhase::Done(Ok(told)) && told.len() == list@.len()
            && forall|i: int| 0 <= i < told.len() ==> #[trigger] told[i] == list@[i]@,
        InputStep::Done(Err(e))@ == InputPhase::Done(Err(e@)),
        (InputError::Unreadable { input: text, cause: text })@ == (InputErrorView::Unreadable {
            input: text@,
            cause: text@,
        }),
        (InputError::Invalid { input: text })@ == (InputErrorView::Invalid { input: text@ }),
{
}

/// An error names the input as it was given, and the cause where there is one.
pub proof fn error_names_input_and_cause(input: Seq<char>, cause: Seq<char>)
    ensures
        (InputErrorView::Unreadable { input, cause }).message() == "Failed to read file "@ + input
            + ": "@ + cause,
        (InputErrorView::Invalid { input }).message() == "Invalid input: "@ + input
            + ". Must be a file path or an HTTP/S URL."@,
{
}

} // verus!
