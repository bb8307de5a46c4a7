//! The command line.

use vstd::prelude::*;

use crate::number::decimal;
use crate::number::parse_number;
use crate::number::parsed_number;
use crate::number::to_decimal;
use crate::text::join2;
use crate::text::join3;
use crate::text::optional_text;
use crate::text::same_text;
use crate::text::starts_with;
use crate::text::texts;

verus! {

/// The number of downloads at a time where the user names none.
pub const DEFAULT_CONCURRENCY: usize = 3;

/// The directory for the files, below the current one, where the user names none.
pub const DEFAULT_SAVE_DIR: &'static str = "downloaded_files";

/// The name of the program where it is not told.
pub const DEFAULT_PROGRAM: &'static str = "downloader";

/// What is said where the user names no input.
pub const MISSING_INPUT_NOTICE: &'static str =
    "Error: URL_OR_FILE_OR_JSON_URL is required. Use -h or --help for usage information.";

/// The error where the user names no input.
pub const MISSING_INPUT_ERROR: &'static str = "URL_OR_FILE_OR_JSON_URL is required.";

/// The arguments that a user may give, behind the program's name in the usage line, and what they
/// mean.
pub const USAGE_TAIL: &'static str =
    " [URL_OR_FILE_OR_JSON_URL] [SAVE_DIR] [--concurrent <NUM>] [-c <NUM>] [--skip-head] [-s]\nArguments:\n\tURL_OR_FILE_OR_JSON_URL: Single HTTP/HTTPS URL, path to a local file with HTTP/HTTPS URLs (one per line), or an HTTP/HTTPS URL to a JSON list of HTTP/HTTPS URLs.\n\tSAVE_DIR (optional): Directory to save downloaded files. Defaults to './downloaded_files'.\n\t--concurrent <NUM> or -c <NUM> (optional): Number of concurrent downloads. Defaults to 3. Must be > 0.\n\t--skip-head or -s (optional): Skip HEAD request, extract filename from URL directly. Useful when HEAD requests fail or are slow.\n\t-h, --help\tShow this help message\n\t-v, --version\tShow version information";

/// What the user wants of a run.
#[derive(Debug)]
pub struct Options {
    /// How many downloads there may be at a time.
    pub concurrent_downloads: usize,
    /// The input that stands for the URLs.
    pub url_input: String,
    /// The directory for the files.
    pub save_dir: Option<String>,
    /// Whether a file gets its name from its URL, without asking the server for it.
    pub skip_head: bool,
}

/// What the user asks for.
#[derive(Debug)]
pub enum Command {
    /// To be shown the usage text.
    Help(String),
    /// To be shown the version.
    Version,
    /// A download, but of what is not said.
    MissingInput,
    /// A download.
    Run(Options),
}

/// A command line as it is understood, with the remarks to make on it.
#[derive(Debug)]
pub struct Invocation {
    pub command: Command,
    pub notices: Vec<String>,
}

/// The content of [`Options`].
#[verifier::ext_equal]
pub struct OptionsView {
    pub concurrent_downloads: usize,
    pub url_input: Seq<char>,
    pub save_dir: Option<Seq<char>>,
    pub skip_head: bool,
}

impl View for Options {
    type V = OptionsView;

    open spec fn view(&self) -> OptionsView {
        OptionsView {
            concurrent_downloads: self.concurrent_downloads,
            url_input: self.url_input@,
            save_dir: optional_text(self.save_dir),
            skip_head: self.skip_head,
        }
    }
}

/// The content of a [`Command`].
#[verifier::ext_equal]
pub enum CommandView {
    Help(Seq<char>),
    Version,
    MissingInput,
    Run(OptionsView),
}

impl View for Command {
    type V = CommandView;

    open spec fn view(&self) -> CommandView {
        match self {
            Command::Help(usage) => CommandView::Help(usage@),
            Command::Version => CommandView::Version,
            Command::MissingInput => CommandView::MissingInput,
            Command::Run(options) => CommandView::Run(options@),
        }
    }
}

/// The content of an [`Invocation`].
#[verifier::ext_equal]
pub struct InvocationView {
    pub command: CommandView,
    pub notices: Seq<Seq<char>>,
}

impl View for Invocation {
    type V = InvocationView;

    open spec fn view(&self) -> InvocationView {
        InvocationView { command: self.command@, notices: texts(self.notices@) }
    }
}

/// What has been learned from the arguments so far.
#[verifier::ext_equal]
pub struct Settings {
    pub concurrent: usize,
    pub url_input: Option<Seq<char>>,
    pub save_dir: Option<Seq<char>>,
    pub skip_head: bool,
    /// How many arguments have been taken that are no options.
    pub positionals: nat,
    pub notices: Seq<Seq<char>>,
}

/// What holds before any argument is read.
pub open spec fn initial_settings() -> Settings {
    Settings {
        concurrent: DEFAULT_CONCURRENCY,
        url_input: None,
        save_dir: None,
        skip_head: false,
        positionals: 0,
        notices: Seq::empty(),
    }
}

/// Whether an argument asks for the usage text.
pub open spec fn asks_help(arg: Seq<char>) -> bool {
    arg == "-h"@ || arg == "--help"@
}

/// Whether an argument asks for the version.
pub open spec fn asks_version(arg: Seq<char>) -> bool {
    arg == "-v"@ || arg == "--version"@
}

/// Whether an argument is the concurrency option, whose value follows.
pub open spec fn sets_concurrency(arg: Seq<char>) -> bool {
    arg == "--concurrent"@ || arg == "-c"@
}

/// Whether an argument is the option to skip HEAD requests.
pub open spec fn skips_head(arg: Seq<char>) -> bool {
    arg == "--skip-head"@ || arg == "-s"@
}

/// Whether an argument has the look of an option.
pub open spec fn is_option(arg: Seq<char>) -> bool {
    arg.len() > 0 && arg.first() == '-'
}

impl Settings {
    /// The same, with one more remark.
    pub open spec fn noting(self, notice: Seq<char>) -> Settings {
        Settings { notices: self.notices.push(notice), ..self }
    }

    /// The value of the concurrency option: a number above zero, or a remark.
    pub open spec fn with_concurrency(self, value: Seq<char>) -> Settings {
        match parsed_number(value) {
            Some(number) => if number > 0 {
                Settings { concurrent: number, ..self }
            } else {
                self.noting(
                    "--concurrent value must be a positive integer, using default "@ + decimal(
                        self.concurrent as nat,
                    ) + "."@,
                )
            },
            None => self.noting(
                "Invalid number for --concurrent: '"@ + value + "', using default "@ + decimal(
                    self.concurrent as nat,
                ) + "."@,
            ),
        }
    }

    /// The concurrency option without a value.
    pub open spec fn lacking_concurrency(self) -> Settings {
        self.noting(
            "--concurrent option requires a value, using default "@ + decimal(
                self.concurrent as nat,
            ) + "."@,
        )
    }

    /// Any argument but the concurrency option: the first that is no option is the input, the
    /// second the directory.
    pub open spec fn with_argument(self, arg: Seq<char>) -> Settings {
        if skips_head(arg) {
            Settings { skip_head: true, ..self }
        } else if is_option(arg) {
            self.noting("Ignoring unknown option: "@ + arg)
        } else if self.positionals == 0 {
            Settings { url_input: Some(arg), positionals: 1, ..self }
        } else if self.positionals == 1 {
            Settings { save_dir: Some(arg), positionals: 2, ..self }
        } else {
            Settings {
                positionals: self.positionals + 1,
                ..self.noting("Ignoring extra positional argument: "@ + arg)
            }
        }
    }

    /// What is known once the arguments have been read, too.
    pub open spec fn after(self, args: Seq<Seq<char>>) -> Settings
        decreases args.len(),
    {
        if args.len() == 0 {
            self
        } else if !sets_concurrency(args[0]) {
            self.with_argument(args[0]).after(args.skip(1))
        } else if args.len() == 1 {
            self.lacking_concurrency()
        } else {
            self.with_concurrency(args[1]).after(args.skip(2))
        }
    }
}

/// The usage text for a program.
pub open spec fn usage_text(program: Seq<char>) -> Seq<char> {
    "Usage: "@ + program + USAGE_TAIL@
}

/// The arguments behind the program's name.
pub open spec fn behind_program(args: Seq<Seq<char>>) -> Seq<Seq<char>> {
    if args.len() == 0 {
        args
    } else {
        args.skip(1)
    }
}

/// What a command line means, the program's name being its first part. A wish for help comes before
/// a wish for the version, and both before anything else.
pub open spec fn understood(args: Seq<Seq<char>>) -> InvocationView {
    if exists|i: int| 0 <= i < args.len() && asks_help(#[trigger] args[i]) {
        InvocationView {
            command: CommandView::Help(
                usage_text(
                    if args.len() > 0 {
                        args[0]
                    } else {
                        DEFAULT_PROGRAM@
                    },
                ),
            ),
            notices: Seq::empty(),
        }
    } else if exists|i: int| 0 <= i < args.len() && asks_version(#[trigger] args[i]) {
        InvocationView { command: CommandView::Version, notices: Seq::empty() }
    } else {
        let settings = initial_settings().after(behind_program(args));
        InvocationView {
            command: match settings.url_input {
                Some(url_input) => CommandView::Run(
                    OptionsView {
                        concurrent_downloads: settings.concurrent,
                        url_input,
                        save_dir: settings.save_dir,
                        skip_head: settings.skip_head,
                    },
                ),
                None => CommandView::MissingInput,
            },
            notices: settings.notices,
        }
    }
}

/// The usage text for a program.
pub fn usage(program: &str) -> (r: String)
    ensures
        r@ == usage_text(program@),
{
    join3("Usage: ", program, USAGE_TAIL)
}

/// Whether one of the arguments is one of two words.
fn any_is(args: &Vec<String>, short: &str, long: &str) -> (r: bool)
    ensures
        r == exists|i: int|
            0 <= i < args@.len() && ((#[trigger] args@[i])@ == short@ || args@[i]@ == long@),
{
    let mut i: usize = 0;
    while i < args.len()
        invariant
            i <= args@.len(),
            forall|j: int|
                0 <= j < i ==> !((#[trigger] args@[j])@ == short@ || args@[j]@ == long@),
        decreases args@.len() - i,
    {
        if same_text(args[i].as_str(), short) || same_text(args[i].as_str(), long) {
            return true;
        }
        i += 1;
    }
    false
}

/// Settings while they are collected.
struct Draft {
    concurrent: usize,
    url_input: Option<String>,
    save_dir: Option<String>,
    skip_head: bool,
    positionals: usize,
    notices: Vec<String>,
}

impl Draft {
    spec fn view(&self) -> Settings {
        Settings {
            concurrent: self.concurrent,
            url_input: optional_text(self.url_input),
            save_dir: optional_text(self.save_dir),
            skip_head: self.skip_head,
            positionals: self.positionals as nat,
            notices: texts(self.notices@),
        }
    }

    fn note(&mut self, notice: String)
        ensures
            final(self)@ == old(self)@.noting(notice@),
            final(self).positionals == old(self).positionals,
    {
        self.notices.push(notice);
        assert(texts(self.notices@) =~= texts(old(self).notices@).push(notice@));
    }

    fn set_concurrency(&mut self, value: &str)
        ensures
            final(self)@ == old(self)@.with_concurrency(value@),
            final(self).positionals == old(self).positionals,
    {
        match parse_number(value) {
            Some(number) => {
                if number > 0 {
                    self.concurrent = number;
                } else {
                    let current = to_decimal(self.concurrent);
                    self.note(
                        join3(
                            "--concurrent value must be a positive integer, using default ",
                            current.as_str(),
                            ".",
                        ),
                    );
                }
            },
            None => {
                let current = to_decimal(self.concurrent);
                let subject = join3(
                    "Invalid number for --concurrent: '",
                    value,
                    "', using default ",
                );
                self.note(join3(subject.as_str(), current.as_str(), "."));
            },
        }
    }

    fn lack_concurrency(&mut self)
        ensures
            final(self)@ == old(self)@.lacking_concurrency(),
            final(self).positionals == old(self).positionals,
    {
        let current = to_decimal(self.concurrent);
        self.note(
            join3(
                "--concurrent option requires a value, using default ",
                current.as_str(),
                ".",
            ),
        );
    }

    fn take_argument(&mut self, arg: &String)
        requires
            old(self).positionals < usize::MAX,
        ensures
            final(self)@ == old(self)@.with_argument(arg@),
            final(self).positionals <= old(self).positionals + 1,
    {
        if same_text(arg.as_str(), "--skip-head") || same_text(arg.as_str(), "-s") {
            self.skip_head = true;
            return ;
        }
        let option = starts_with(arg.as_str(), "-");
        proof {
            reveal_strlit("-");
            assert(option == is_option(arg@)) by {
                if is_option(arg@) {
                    assert(arg@.subrange(0, 1) =~= "-"@);
                } else if option {
                    assert("-"@[0] == arg@.subrange(0, 1)[0]);
                }
            }
        }
        if option {
            self.note(join2("Ignoring unknown option: ", arg.as_str()));
        } else if self.positionals == 0 {
            self.url_input = Some(arg.clone());
            self.positionals = 1;
        } else if self.positionals == 1 {
            self.save_dir = Some(arg.clone());
            self.positionals = 2;
        } else {
            self.note(join2("Ignoring extra positional argument: ", arg.as_str()));
            self.positionals = self.positionals + 1;
        }
    }
}

/// Reads a command line, the program's name being its first part.
pub fn parse_arguments(args: &Vec<String>) -> (r: Invocation)
    ensures
        r@ == understood(texts(args@)),
{
    let ghost all = texts(args@);
    if any_is(args, "-h", "--help") {
        proof {
            let i = choose|i: int|
                0 <= i < args@.len() && ((#[trigger] args@[i])@ == "-h"@ || args@[i]@
                    == "--help"@);
            assert(asks_help(all[i]));
        }
        let text = if args.len() > 0 {
            usage(args[0].as_str())
        } else {
            usage(DEFAULT_PROGRAM)
        };
        let notices: Vec<String> = Vec::new();
        assert(texts(notices@) =~= Seq::<Seq<char>>::empty());
        return Invocation { command: Command::Help(text), notices };
    }
    assert forall|i: int| 0 <= i < all.len() implies !asks_help(#[trigger] all[i]) by {
        assert(all[i] == args@[i]@);
    }
    if any_is(args, "-v", "--version") {
        proof {
            let i = choose|i: int|
                0 <= i < args@.len() && ((#[trigger] args@[i])@ == "-v"@ || args@[i]@
                    == "--version"@);
            assert(asks_version(all[i]));
        }
        let notices: Vec<String> = Vec::new();
        assert(texts(notices@) =~= Seq::<Seq<char>>::empty());
        return Invocation { command: Command::Version, notices };
    }
    assert forall|i: int| 0 <= i < all.len() implies !asks_version(#[trigger] all[i]) by {
        assert(all[i] == args@[i]@);
    }
    let mut draft = Draft {
        concurrent: DEFAULT_CONCURRENCY,
        url_input: None,
        save_dir: None,
        skip_head: false,
        positionals: 0,
        notices: Vec::new(),
    };
    assert(texts(draft.notices@) =~= Seq::<Seq<char>>::empty());
    let ghost rest = behind_program(all);
    let ghost settings = initial_settings().after(rest);
    if args.len() > 0 {
        let mut i: usize = 1;
        assert(rest.skip(0) =~= rest);
        while i < args.len()
            invariant
                1 <= i <= args@.len(),
                draft.positionals < i,
                rest == texts(args@).skip(1),
                draft@.after(rest.skip(i - 1)) == settings,
            decreases args@.len() - i,
        {
            let ghost here = rest.skip(i - 1);
            assert(here[0] == args@[i as int]@);
            assert(here.skip(1) =~= rest.skip(i as int));
            if same_text(args[i].as_str(), "--concurrent") || same_text(args[i].as_str(), "-c") {
                if i + 1 < args.len() {
                    assert(here[1] == args@[i + 1]@);
                    assert(here.skip(2) =~= rest.skip(i + 1));
                    draft.set_concurrency(args[i + 1].as_str());
                    i += 2;
                } else {
                    draft.lack_concurrency();
                    i += 1;
                }
            } else {
                draft.take_argument(&args[i]);
                i += 1;
            }
        }
        assert(rest.skip(i - 1).len() == 0);
    }
    assert(draft@ == settings);
    match draft.url_input {
        Some(url_input) => Invocation {
            command: Command::Run(
                Options {
                    concurrent_downloads: draft.concurrent,
                    url_input,
                    save_dir: draft.save_dir,
                    skip_head: draft.skip_head,
                },
            ),
            notices: draft.notices,
        },
        None => Invocation { command: Command::MissingInput, notices: draft.notices },
    }
}

/// However the command line reads, at least one download may run at a time.
pub proof fn concurrency_is_positive(args: Seq<Seq<char>>)
    ensures
        understood(args).command matches CommandView::Run(options) ==> options.concurrent_downloads
            > 0,
{
    lemma_concurrency_stays_positive(initial_settings(), behind_program(args));
}

proof fn lemma_concurrency_stays_positive(s: Settings, args: Seq<Seq<char>>)
    requires
        s.concurrent > 0,
    ensures
        s.after(args).concurrent > 0,
    decreases args.len(),
{
    if args.len() == 0 {
    } else if !sets_concurrency(args[0]) {
        lemma_concurrency_stays_positive(s.with_argument(args[0]), args.skip(1));
    } else if args.len() > 1 {
        lemma_concurrency_stays_positive(s.with_concurrency(args[1]), args.skip(2));
    }
}

/// Where the user does not set it, the number of downloads at a time is three.
pub proof fn concurrency_defaults_to_three(args: Seq<Seq<char>>)
    requires
        forall|i: int| 0 < i < args.len() ==> !sets_concurrency(#[trigger] args[i]),
    ensures
        understood(args).command matches CommandView::Run(options) ==> options.concurrent_downloads
            == 3,
{
    let rest = behind_program(args);
    assert forall|i: int| 0 <= i < rest.len() implies !sets_concurrency(#[trigger] rest[i]) by {
        assert(rest[i] == args[i + 1]);
    }
    lemma_concurrency_unchanged(initial_settings(), rest);
}

proof fn lemma_concurrency_unchanged(s: Settings, args: Seq<Seq<char>>)
    requires
        forall|i: int| 0 <= i < args.len() ==> !sets_concurrency(#[trigger] args[i]),
    ensures
        s.after(args).concurrent == s.concurrent,
    decreases args.len(),
{
    if args.len() > 0 {
        let rest = args.skip(1);
        assert forall|i: int| 0 <= i < rest.len() implies !sets_concurrency(#[trigger] rest[i]) by {
            assert(rest[i] == args[i + 1]);
        }
        lemma_concurrency_unchanged(s.with_argument(args[0]), rest);
    }
}

/// Without options, the first argument is the input and the second the directory.
pub proof fn plain_arguments_are_input_and_directory(args: Seq<Seq<char>>)
    requires
        args.len() >= 2,
        !asks_help(args[0]),
        !asks_version(args[0]),
        forall|i: int| 0 < i < args.len() ==> !is_option(#[trigger] args[i]),
    ensures
        understood(args).command == CommandView::Run(
            OptionsView {
                concurrent_downloads: 3,
                url_input: args[1],
                save_dir: if args.len() > 2 {
                    Some(args[2])
                } else {
                    None
                },
                skip_head: false,
            },
        ),
{
    reveal_strlit("-h");
    reveal_strlit("--help");
    reveal_strlit("-v");
    reveal_strlit("--version");
    assert forall|i: int| 0 <= i < args.len() implies !asks_help(#[trigger] args[i])
        && !asks_version(args[i]) by {
        if i > 0 {
            assert(!is_option(args[i]));
        }
    }
    let rest = behind_program(args);
    assert forall|i: int| 0 <= i < rest.len() implies !is_option(#[trigger] rest[i]) by {
        assert(rest[i] == args[i + 1]);
    }
    let s = initial_settings();
    let s1 = s.with_argument(args[1]);
    lemma_plain_argument(rest[0]);
    assert(s.after(rest) == s1.after(rest.skip(1)));
    if args.len() > 2 {
        let last = rest.skip(1);
        assert(last[0] == args[2]);
        assert(!is_option(rest[1]));
        lemma_plain_argument(args[2]);
        let s2 = s1.with_argument(args[2]);
        assert(s1.after(last) == s2.after(last.skip(1)));
        assert forall|i: int| 0 <= i < last.skip(1).len() implies !is_option(
            #[trigger] last.skip(1)[i],
        ) by {
            assert(last.skip(1)[i] == rest[i + 2]);
        }
        lemma_extra_arguments(s2, last.skip(1));
    }
}

proof fn lemma_plain_argument(arg: Seq<char>)
    requires
        !is_option(arg),
    ensures
        !sets_concurrency(arg),
        !skips_head(arg),
{
    reveal_strlit("--concurrent");
    reveal_strlit("-c");
    reveal_strlit("--skip-head");
    reveal_strlit("-s");
}

proof fn lemma_extra_arguments(s: Settings, args: Seq<Seq<char>>)
    requires
        s.positionals >= 2,
        forall|i: int| 0 <= i < args.len() ==> !is_option(#[trigger] args[i]),
    ensures
        s.after(args).concurrent == s.concurrent,
        s.after(args).url_input == s.url_input,
        s.after(args).save_dir == s.save_dir,
        s.after(args).skip_head == s.skip_head,
    decreases args.len(),
{
    if args.len() > 0 {
        lemma_plain_argument(args[0]);
        let rest = args.skip(1);
        assert forall|i: int| 0 <= i < rest.len() implies !is_option(#[trigger] rest[i]) by {
            assert(rest[i] == args[i + 1]);
        }
        lemma_extra_arguments(s.with_argument(args[0]), rest);
    }
}

/// Arguments are read in turn: the concurrency option together with the value behind it, any other
/// argument by itself.
pub proof fn arguments_are_read_in_turn(
    s: Settings,
    first: Seq<char>,
    second: Seq<char>,
    rest: Seq<Seq<char>>,
)
    ensures
        first != "--concurrent"@ && first != "-c"@ ==> s.after(seq![first] + rest) == s.after(
            seq![first],
        ).after(rest),
        first == "--concurrent"@ || first == "-c"@ ==> s.after(seq![first, second] + rest)
            == s.after(seq![first, second]).after(rest),
        s.after(Seq::empty()) == s,
{
    assert((seq![first] + rest).skip(1) =~= rest);
    assert(seq![first].skip(1) =~= Seq::<Seq<char>>::empty());
    assert((seq![first, second] + rest).skip(2) =~= rest);
    assert(seq![first, second].skip(2) =~= Seq::<Seq<char>>::empty());
    reveal_with_fuel(Settings::after, 2);
}

/// The option to skip HEAD requests, in either spelling, does that and nothing else.
pub proof fn skip_option_skips_head(s: Settings, arg: Seq<char>)
    requires
        arg == "--skip-head"@ || arg == "-s"@,
    ensures
        s.after(seq![arg]) == (Settings { skip_head: true, ..s }),
{
    reveal_strlit("--skip-head");
    reveal_strlit("-s");
    reveal_strlit("--concurrent");
    reveal_strlit("-c");
    assert("-s"@[1] != "-c"@[1]);
    assert("--skip-head"@[2] != "--concurrent"@[2]);
    lemma_single(s, arg);
}

proof fn lemma_single(s: Settings, arg: Seq<char>)
    requires
        arg != "--concurrent"@,
        arg != "-c"@,
    ensures
        s.after(seq![arg]) == s.with_argument(arg),
{
    assert(seq![arg].skip(1) =~= Seq::<Seq<char>>::empty());
    reveal_with_fuel(Settings::after, 2);
}

/// Any other argument that begins with a dash is ignored, with a remark that names it.
pub proof fn unknown_option_is_ignored(s: Settings, arg: Seq<char>)
    requires
        arg.len() > 0,
        arg[0] == '-',
        arg != "--skip-head"@,
        arg != "-s"@,
        arg != "--concurrent"@,
        arg != "-c"@,
    ensures
        s.after(seq![arg]) == (Settings {
            notices: s.notices.push("Ignoring unknown option: "@ + arg),
            ..s
        }),
{
    lemma_single(s, arg);
}

/// An argument that begins otherwise is the input, or the directory if there is an input already;
/// a third one is ignored, with a remark that names it.
pub proof fn plain_argument_is_input_then_directory(s: Settings, arg: Seq<char>)
    requires
        arg.len() == 0 || arg[0] != '-',
    ensures
        s.positionals == 0 ==> s.after(seq![arg]) == (Settings {
            url_input: Some(arg),
            positionals: 1,
            ..s
        }),
        s.positionals == 1 ==> s.after(seq![arg]) == (Settings {
            save_dir: Some(arg),
            positionals: 2,
            ..s
        }),
        s.positionals >= 2 ==> s.after(seq![arg]) == (Settings {
            positionals: s.positionals + 1,
            notices: s.notices.push("Ignoring extra positional argument: "@ + arg),
            ..s
        }),
{
    lemma_plain_argument(arg);
    lemma_single(s, arg);
}

/// The concurrency option, in either spelling, takes the number behind it if that is above zero.
/// Anything else behind it, or nothing, changes no setting and is remarked on.
pub proof fn concurrency_option_takes_a_positive_number(
    s: Settings,
    option: Seq<char>,
    value: Seq<char>,
)
    requires
        option == "--concurrent"@ || option == "-c"@,
    ensures
        ({
            let taken = s.after(seq![option, value]);
            let default = decimal(s.concurrent as nat);
            &&& parsed_number(value) matches Some(n) ==> (n > 0 ==> taken == (Settings {
                concurrent: n,
                ..s
            }))
            &&& parsed_number(value) == Some(0usize) ==> taken == (Settings {
                notices: s.notices.push(
                    "--concurrent value must be a positive integer, using default "@ + default
                        + "."@,
                ),
                ..s
            })
            &&& parsed_number(value) is None ==> taken == (Settings {
                notices: s.notices.push(
                    "Invalid number for --concurrent: '"@ + value + "', using default "@ + default
                        + "."@,
                ),
                ..s
            })
            &&& s.after(seq![option]) == (Settings {
                notices: s.notices.push(
                    "--concurrent option requires a value, using default "@ + default + "."@,
                ),
                ..s
            })
        }),
{
    assert(seq![option, value].skip(2) =~= Seq::<Seq<char>>::empty());
    reveal_with_fuel(Settings::after, 2);
}

/// A wish for help, anywhere on the command line, is all that counts; without one, a wish for the
/// version is.
pub proof fn help_and_version_come_first(args: Seq<Seq<char>>, i: int)
    requires
        0 <= i < args.len(),
    ensures
        args[i] == "-h"@ || args[i] == "--help"@ ==> understood(args) == (InvocationView {
            command: CommandView::Help("Usage: "@ + args[0] + USAGE_TAIL@),
            notices: Seq::empty(),
        }),
        (args[i] == "-v"@ || args[i] == "--version"@) && (forall|k: int|
            0 <= k < args.len() ==> #[trigger] args[k] != "-h"@ && args[k] != "--help"@)
            ==> understood(args) == (InvocationView {
            command: CommandView::Version,
            notices: Seq::empty(),
        }),
{
    if args[i] == "-h"@ || args[i] == "--help"@ {
        assert(asks_help(args[i]));
    } else if (args[i] == "-v"@ || args[i] == "--version"@) && (forall|k: int|
        0 <= k < args.len() ==> #[trigger] args[k] != "-h"@ && args[k] != "--help"@) {
        assert(asks_version(args[i]));
    }
}

/// Any other command line is a wish for downloads, with what the arguments behind the program's
/// name say: three at a time, no directory and no skipping unless they say otherwise. Without an
/// input among them there is nothing to do. The remarks come out in their order.
pub proof fn other_command_lines_ask_for_downloads(args: Seq<Seq<char>>)
    requires
        args.len() > 0,
        forall|k: int|
            0 <= k < args.len() ==> #[trigger] args[k] != "-h"@ && args[k] != "--help"@ && args[k]
                != "-v"@ && args[k] != "--version"@,
    ensures
        ({
            let told = (Settings {
                concurrent: 3,
                url_input: None,
                save_dir: None,
                skip_head: false,
                positionals: 0,
                notices: Seq::empty(),
            }).after(args.skip(1));
            &&& understood(args).notices == told.notices
            &&& told.url_input is None ==> understood(args).command == CommandView::MissingInput
            &&& told.url_input matches Some(input) ==> understood(args).command
                == CommandView::Run(
                OptionsView {
                    concurrent_downloads: told.concurrent,
                    url_input: input,
                    save_dir: told.save_dir,
                    skip_head: told.skip_head,
                },
            )
        }),
{
    assert forall|k: int| 0 <= k < args.len() implies !asks_help(#[trigger] args[k])
        && !asks_version(args[k]) by {}
}

/// Without an argument at all there is nothing to do and nothing to remark on.
pub proof fn empty_command_line_lacks_input()
    ensures
        understood(Seq::empty()) == (InvocationView {
            command: CommandView::MissingInput,
            notices: Seq::empty(),
        }),
{
}

/// An option to skip HEAD requests is heeded wherever it stands, unless it is the value of the
/// concurrency option, and nothing takes it back.
pub proof fn skipping_is_never_taken_back(s: Settings, args: Seq<Seq<char>>)
    requires
        s.skip_head,
    ensures
        s.after(args).skip_head,
    decreases args.len(),
{
    if args.len() == 0 {
    } else if !sets_concurrency(args[0]) {
        skipping_is_never_taken_back(s.with_argument(args[0]), args.skip(1));
    } else if args.len() > 1 {
        skipping_is_never_taken_back(s.with_concurrency(args[1]), args.skip(2));
    }
}

/// What was understood is handed on in full.
pub proof fn invocation_is_told_in_full(options: Options, text: String, invocation: Invocation)
    ensures
        options@.concurrent_downloads == options.concurrent_downloads,
        options@.url_input == options.url_input@,
        options@.save_dir is Some <==> options.save_dir is Some,
        options.save_dir matches Some(dir) ==> options@.save_dir == Some(dir@),
        options@.skip_head == options.skip_head,
        Command::Help(text)@ == CommandView::Help(text@),
        Command::Version@ == CommandView::Version,
        Command::MissingInput@ == CommandView::MissingInput,
        Command::Run(options)@ == CommandView::Run(options@),
        invocation@.command == invocation.command@,
        invocation@.notices.len() == invocation.notices@.len(),
        forall|i: int|
            0 <= i < invocation.notices@.len() ==> #[trigger] invocation@.notices[i]
                == invocation.notices@[i]@,
{
}

/// Where the user names no directory, the files go to `downloaded_files`.
pub proof fn directory_defaults_to_downloaded_files()
    ensures
        DEFAULT_SAVE_DIR@ == "downloaded_files"@,
{
}

} // verus!
