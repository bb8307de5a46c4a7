use vam_downloader::batch::{
    plan_batch, plan_save_dir, preparing_notice, refused_dir_error, refused_dir_notice, summarize,
    BatchPlan, SaveDirPlan, TaskReport,
};
use vam_downloader::input::InputError;

#[test]
fn directory_is_made_used_or_refused() {
    assert_eq!(plan_save_dir(false, false), SaveDirPlan::Create);
    assert_eq!(plan_save_dir(true, true), SaveDirPlan::Use);
    assert_eq!(plan_save_dir(true, false), SaveDirPlan::Refuse);
    assert_eq!(
        refused_dir_notice("\"f\""),
        "Save path \"f\" exists but is not a directory."
    );
    assert_eq!(refused_dir_error("\"f\""), "Save path \"f\" is not a directory.");
}

#[test]
fn plan_follows_the_resolution() {
    match plan_batch(Err(InputError::Invalid { input: "x".to_string() })) {
        BatchPlan::Abort { notice, error } => {
            assert_eq!(error, "Invalid input: x. Must be a file path or an HTTP/S URL.");
            assert_eq!(notice, format!("Failed to resolve input URLs: {}", error));
        }
        other => panic!("{:?}", other),
    }
    assert!(matches!(plan_batch(Ok(vec![])), BatchPlan::Nothing));
    match plan_batch(Ok(vec!["http://a".to_string()])) {
        BatchPlan::Download(urls) => assert_eq!(urls, vec!["http://a"]),
        other => panic!("{:?}", other),
    }
}

#[test]
fn preparing_notice_tells_the_numbers() {
    assert_eq!(
        preparing_notice(12, 3, "\"out\""),
        "Preparing to download 12 file(s) concurrently (max 3). Save directory: \"out\""
    );
}

#[test]
fn summary_counts_every_download_once() {
    let reports = vec![
        ("http://a".to_string(), TaskReport::Succeeded),
        ("http://b".to_string(), TaskReport::Failed("broken".to_string())),
        ("http://c".to_string(), TaskReport::Panicked("task 3 panicked".to_string())),
        ("http://d".to_string(), TaskReport::Succeeded),
    ];
    let summary = summarize(reports);
    assert_eq!(summary.successful, 2);
    assert_eq!(summary.failed.len(), 2);
    assert_eq!(
        summary.lines(),
        vec![
            "Batch download summary: 2 successful, 2 failed.",
            "Failed downloads:",
            "- http://b: broken",
            "- http://c: Task panicked: task 3 panicked",
        ]
    );
    assert_eq!(summary.error(), Some("2 download(s) failed.".to_string()));
}

#[test]
fn batch_without_failures_is_no_error() {
    let summary = summarize(vec![("http://a".to_string(), TaskReport::Succeeded)]);
    assert_eq!(summary.lines(), vec!["Batch download summary: 1 successful, 0 failed."]);
    assert_eq!(summary.error(), None);
}
