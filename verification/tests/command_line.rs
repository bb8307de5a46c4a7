use vam_downloader::cli::{parse_arguments, usage, Command, Invocation, Options};

fn parse(args: &[&str]) -> Invocation {
    let mut all = vec!["downloader.exe".to_string()];
    all.extend(args.iter().map(|s| s.to_string()));
    parse_arguments(&all)
}

fn run(args: &[&str]) -> (Options, Vec<String>) {
    let invocation = parse(args);
    match invocation.command {
        Command::Run(options) => (options, invocation.notices),
        other => panic!("{:?}", other),
    }
}

#[test]
fn defaults_are_three_at_a_time_and_no_directory() {
    let (options, notices) = run(&["http://a"]);
    assert_eq!(options.concurrent_downloads, 3);
    assert_eq!(options.url_input, "http://a");
    assert_eq!(options.save_dir, None);
    assert!(!options.skip_head);
    assert!(notices.is_empty());
}

#[test]
fn all_options_are_understood() {
    let (options, notices) = run(&["-c", "8", "http://a", "--skip-head", "out"]);
    assert_eq!(options.concurrent_downloads, 8);
    assert_eq!(options.url_input, "http://a");
    assert_eq!(options.save_dir, Some("out".to_string()));
    assert!(options.skip_head);
    assert!(notices.is_empty());
    assert!(run(&["-s", "x"]).0.skip_head);
    assert_eq!(run(&["x", "--concurrent", "+2"]).0.concurrent_downloads, 2);
}

#[test]
fn bad_concurrency_leaves_the_number_as_it_is() {
    let (options, notices) = run(&["x", "-c", "5", "-c", "0", "-c", "many", "-c"]);
    assert_eq!(options.concurrent_downloads, 5);
    assert_eq!(
        notices,
        vec![
            "--concurrent value must be a positive integer, using default 5.",
            "Invalid number for --concurrent: 'many', using default 5.",
            "--concurrent option requires a value, using default 5.",
        ]
    );
}

#[test]
fn concurrency_takes_the_next_argument_whatever_it_is() {
    let (options, notices) = run(&["-c", "--skip-head", "x"]);
    assert!(!options.skip_head);
    assert_eq!(
        notices,
        vec!["Invalid number for --concurrent: '--skip-head', using default 3."]
    );
}

#[test]
fn unknown_and_extra_arguments_are_ignored() {
    let (options, notices) = run(&["--fast", "x", "-", "dir", "more", ""]);
    assert_eq!(options.url_input, "x");
    assert_eq!(options.save_dir, Some("dir".to_string()));
    assert_eq!(
        notices,
        vec![
            "Ignoring unknown option: --fast",
            "Ignoring unknown option: -",
            "Ignoring extra positional argument: more",
            "Ignoring extra positional argument: ",
        ]
    );
}

#[test]
fn input_is_required() {
    let invocation = parse(&["--fast"]);
    assert!(matches!(invocation.command, Command::MissingInput));
    assert_eq!(invocation.notices, vec!["Ignoring unknown option: --fast"]);
    assert!(matches!(parse(&[]).command, Command::MissingInput));
    assert!(matches!(parse_arguments(&vec![]).command, Command::MissingInput));
}

#[test]
fn help_comes_before_everything() {
    let invocation = parse(&["--fast", "-v", "x", "-h"]);
    assert!(invocation.notices.is_empty());
    match invocation.command {
        Command::Help(text) => assert_eq!(text, usage("downloader.exe")),
        other => panic!("{:?}", other),
    }
    assert!(matches!(parse(&["-c", "--help"]).command, Command::Help(_)));
}

#[test]
fn version_comes_before_the_rest() {
    assert!(matches!(parse(&["x", "--version"]).command, Command::Version));
    assert!(matches!(parse(&["-v"]).command, Command::Version));
}

#[test]
fn usage_names_the_program_and_its_arguments() {
    let text = usage("prog");
    let shown: Vec<&str> = text.lines().collect();
    assert_eq!(shown.len(), 8);
    assert_eq!(
        shown[0],
        "Usage: prog [URL_OR_FILE_OR_JSON_URL] [SAVE_DIR] [--concurrent <NUM>] [-c <NUM>] [--skip-head] [-s]"
    );
    assert_eq!(shown[1], "Arguments:");
    assert_eq!(
        shown[4],
        "\t--concurrent <NUM> or -c <NUM> (optional): Number of concurrent downloads. Defaults to 3. Must be > 0."
    );
    assert_eq!(shown[7], "\t-v, --version\tShow version information");
}
