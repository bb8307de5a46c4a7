//! A batch of downloads: what it needs before it begins, and what is said of it at the end.

use vstd::prelude::*;
use vstd::string::StringExecFns;

use crate::input::resolution_view;
use crate::input::InputError;
use crate::input::InputErrorView;
use crate::number::decimal;
use crate::number::to_decimal;
use crate::text::join2;
use crate::text::join3;
use crate::text::join4;
use crate::text::texts;

verus! {

/// What is said where there is nothing to download.
pub const NO_URLS_NOTICE: &'static str = "No valid URLs to download.";

/// What to do with the directory for the files.
#[derive(Clone, Copy, Debug, PartialEq, Eq, Structural)]
pub enum SaveDirPlan {
    /// Make it.
    Create,
    /// Take it as it is.
    Use,
    /// Refuse it: something else has its path.
    Refuse,
}

/// Decides on the directory, given whether its path exists and is a directory.
pub fn plan_save_dir(exists_there: bool, is_dir: bool) -> (r: SaveDirPlan)
    ensures
        r == (if !exists_there {
            SaveDirPlan::Create
        } else if is_dir {
            SaveDirPlan::Use
        } else {
            SaveDirPlan::Refuse
        }),
{
    if !exists_there {
        SaveDirPlan::Create
    } else if is_dir {
        SaveDirPlan::Use
    } else {
        SaveDirPlan::Refuse
    }
}

/// What is said of a path that is refused.
pub fn refused_dir_notice(shown_path: &str) -> (r: String)
    ensures
        r@ == "Save path "@ + shown_path@ + " exists but is not a directory."@,
{
    join3("Save path ", shown_path, " exists but is not a directory.")
}

/// The error that a refused path stands for.
pub fn refused_dir_error(shown_path: &str) -> (r: String)
    ensures
        r@ == "Save path "@ + shown_path@ + " is not a directory."@,
{
    join3("Save path ", shown_path, " is not a directory.")
}

/// What to do once the input has been resolved.
#[derive(Debug)]
pub enum BatchPlan {
    /// Give up, with a notice and an error.
    Abort { notice: String, error: String },
    /// End without a download.
    Nothing,
    /// Download the URLs, in this order.
    Download(Vec<String>),
}

/// The content of a [`BatchPlan`].
#[verifier::ext_equal]
pub enum BatchPlanView {
    Abort { notice: Seq<char>, error: Seq<char> },
    Nothing,
    Download(Seq<Seq<char>>),
}

impl View for BatchPlan {
    type V = BatchPlanView;

    open spec fn view(&self) -> BatchPlanView {
        match self {
            BatchPlan::Abort { notice, error } => BatchPlanView::Abort {
                notice: notice@,
                error: error@,
            },
            BatchPlan::Nothing => BatchPlanView::Nothing,
            BatchPlan::Download(urls) => BatchPlanView::Download(texts(urls@)),
        }
    }
}

/// The plan for a resolved input.
pub open spec fn batch_plan(resolution: Result<Seq<Seq<char>>, InputErrorView>) -> BatchPlanView {
    match resolution {
        Err(e) => BatchPlanView::Abort {
            notice: "Failed to resolve input URLs: "@ + e.message(),
            error: e.message(),
        },
        Ok(urls) => if urls.len() == 0 {
            BatchPlanView::Nothing
        } else {
            BatchPlanView::Download(urls)
        },
    }
}

/// Plans what to do with a resolved input.
pub fn plan_batch(resolution: Result<Vec<String>, InputError>) -> (r: BatchPlan)
    ensures
        r@ == batch_plan(resolution_view(resolution)),
{
    match resolution {
        Err(e) => {
            let error = e.message();
            BatchPlan::Abort {
                notice: join2("Failed to resolve input URLs: ", error.as_str()),
                error,
            }
        },
        Ok(urls) => {
            if urls.len() == 0 {
                BatchPlan::Nothing
            } else {
                BatchPlan::Download(urls)
            }
        },
    }
}

/// What is said before the downloads begin.
pub fn preparing_notice(files: usize, at_a_time: usize, shown_dir: &str) -> (r: String)
    ensures
        r@ == "Preparing to download "@ + decimal(files as nat) + " file(s) concurrently (max "@
            + decimal(at_a_time as nat) + "). Save directory: "@ + shown_dir@,
{
    let count = to_decimal(files);
    let limit = to_decimal(at_a_time);
    let mut out = join4(
        "Preparing to download ",
        count.as_str(),
        " file(s) concurrently (max ",
        limit.as_str(),
    );
    out.append("). Save directory: ");
    out.append(shown_dir);
    out
}

/// How a download of the batch ended.
#[derive(Debug)]
pub enum TaskReport {
    /// With a file.
    Succeeded,
    /// With an error.
    Failed(String),
    /// Not at all, for the task broke down.
    Panicked(String),
}

/// The error text of a report, if it is one of failure.
pub open spec fn report_error(report: TaskReport) -> Option<Seq<char>> {
    match report {
        TaskReport::Succeeded => None,
        TaskReport::Failed(error) => Some(error@),
        TaskReport::Panicked(error) => Some("Task panicked: "@ + error@),
    }
}

/// The number of downloads that ended with a file.
pub open spec fn successes(reports: Seq<(String, TaskReport)>) -> nat
    decreases reports.len(),
{
    if reports.len() == 0 {
        0
    } else {
        successes(reports.drop_last()) + if report_error(reports.last().1) is None {
            1nat
        } else {
            0
        }
    }
}

/// The URLs of the downloads that failed, each with its error text, in the order of the batch.
pub open spec fn failures(reports: Seq<(String, TaskReport)>) -> Seq<(Seq<char>, Seq<char>)>
    decreases reports.len(),
{
    if reports.len() == 0 {
        Seq::empty()
    } else {
        match report_error(reports.last().1) {
            Some(error) => failures(reports.drop_last()).push((reports.last().0@, error)),
            None => failures(reports.drop_last()),
        }
    }
}

/// How a batch ended.
#[derive(Debug)]
pub struct BatchSummary {
    /// The number of downloads that ended with a file.
    pub successful: usize,
    /// The URLs of the others, each with its error text.
    pub failed: Vec<(String, String)>,
}

/// The characters in the failures of a batch.
pub open spec fn failures_view(failed: Seq<(String, String)>) -> Seq<(Seq<char>, Seq<char>)> {
    failed.map_values(|f: (String, String)| (f.0@, f.1@))
}

/// Sums up the reports of a batch, each with the URL that it is about.
pub fn summarize(reports: Vec<(String, TaskReport)>) -> (r: BatchSummary)
    ensures
        r.successful == successes(reports@),
        failures_view(r.failed@) == failures(reports@),
{
    let mut successful: usize = 0;
    let mut failed: Vec<(String, String)> = Vec::new();
    assert(failures_view(failed@) =~= Seq::empty());
    let mut i: usize = 0;
    while i < reports.len()
        invariant
            i <= reports@.len(),
            successful <= i,
            successful == successes(reports@.take(i as int)),
            failures_view(failed@) == failures(reports@.take(i as int)),
        decreases reports@.len() - i,
    {
        assert(reports@.take(i + 1).drop_last() =~= reports@.take(i as int));
        let ghost before = failed@;
        match &reports[i].1 {
            TaskReport::Succeeded => {
                successful += 1;
            },
            TaskReport::Failed(error) => {
                failed.push((reports[i].0.clone(), error.clone()));
                assert(failures_view(failed@) =~= failures_view(before).push(
                    (reports@[i as int].0@, error@),
                ));
            },
            TaskReport::Panicked(error) => {
                let text = join2("Task panicked: ", error.as_str());
                failed.push((reports[i].0.clone(), text));
                assert(failures_view(failed@) =~= failures_view(before).push(
                    (reports@[i as int].0@, "Task panicked: "@ + error@),
                ));
            },
        }
        i += 1;
    }
    assert(reports@.take(i as int) =~= reports@);
    BatchSummary { successful, failed }
}

/// The line that tells of one failure.
pub open spec fn failure_line(failure: (Seq<char>, Seq<char>)) -> Seq<char> {
    "- "@ + failure.0 + ": "@ + failure.1
}

/// The lines with which a batch ends.
pub open spec fn summary_lines(
    successful: nat,
    failed: Seq<(Seq<char>, Seq<char>)>,
) -> Seq<Seq<char>> {
    let head = seq![
        "Batch download summary: "@ + decimal(successful) + " successful, "@ + decimal(failed.len())
            + " failed."@,
    ];
    if failed.len() == 0 {
        head
    } else {
        head + seq!["Failed downloads:"@] + failed.map_values(
            |f: (Seq<char>, Seq<char>)| failure_line(f),
        )
    }
}

impl BatchSummary {
    /// The lines with which the batch ends.
    pub fn lines(&self) -> (r: Vec<String>)
        ensures
            texts(r@) == summary_lines(self.successful as nat, failures_view(self.failed@)),
    {
        let mut out: Vec<String> = Vec::new();
        let successful = to_decimal(self.successful);
        let failed = to_decimal(self.failed.len());
        let mut head = join4(
            "Batch download summary: ",
            successful.as_str(),
            " successful, ",
            failed.as_str(),
        );
        head.append(" failed.");
        out.push(head);
        let ghost all = failures_view(self.failed@);
        let ghost first = seq![head@];
        assert(texts(out@) =~= first);
        if self.failed.len() > 0 {
            out.push("Failed downloads:".to_owned());
            let ghost heads = first + seq!["Failed downloads:"@];
            let ghost tail = all.map_values(|f: (Seq<char>, Seq<char>)| failure_line(f));
            assert(texts(out@) =~= heads + tail.take(0));
            let mut i: usize = 0;
            while i < self.failed.len()
                invariant
                    i <= self.failed@.len(),
                    all == failures_view(self.failed@),
                    tail == all.map_values(|f: (Seq<char>, Seq<char>)| failure_line(f)),
                    texts(out@) == heads + tail.take(i as int),
                decreases self.failed@.len() - i,
            {
                let ghost before = out@;
                let line = join4(
                    "- ",
                    self.failed[i].0.as_str(),
                    ": ",
                    self.failed[i].1.as_str(),
                );
                out.push(line);
                assert(tail[i as int] == line@);
                assert(texts(out@) =~= texts(before).push(line@));
                assert(texts(out@) =~= heads + tail.take(i + 1));
                i += 1;
            }
            assert(tail.take(i as int) =~= tail);
        }
        out
    }

    /// The error with which the program ends: none, unless a download failed.
    pub fn error(&self) -> (r: Option<String>)
        ensures
            r is Some <==> self.failed@.len() > 0,
            r matches Some(text) ==> text@ == decimal(self.failed@.len())
                + " download(s) failed."@,
    {
        if self.failed.len() > 0 {
            let count = to_decimal(self.failed.len());
            Some(join2(count.as_str(), " download(s) failed."))
        } else {
            None
        }
    }
}

/// Every download of a batch counts once, as a success or as a failure.
pub proof fn every_download_counts_once(reports: Seq<(String, TaskReport)>)
    ensures
        successes(reports) + failures(reports).len() == reports.len(),
    decreases reports.len(),
{
    if reports.len() > 0 {
        every_download_counts_once(reports.drop_last());
    }
}

/// A batch has failures exactly if one of its downloads failed.
pub proof fn batch_fails_if_a_download_fails(reports: Seq<(String, TaskReport)>)
    ensures
        failures(reports).len() > 0 <==> exists|i: int|
            0 <= i < reports.len() && !((#[trigger] reports[i]).1 is Succeeded),
    decreases reports.len(),
{
    if reports.len() > 0 {
        let rest = reports.drop_last();
        batch_fails_if_a_download_fails(rest);
        if failures(rest).len() > 0 {
            let i = choose|i: int| 0 <= i < rest.len() && !((#[trigger] rest[i]).1 is Succeeded);
            assert(reports[i] == rest[i]);
        }
        if report_error(reports.last().1) is Some {
            assert(!(reports[reports.len() - 1].1 is Succeeded));
        } else if exists|i: int|
            0 <= i < reports.len() && !((#[trigger] reports[i]).1 is Succeeded) {
            let i = choose|i: int|
                0 <= i < reports.len() && !((#[trigger] reports[i]).1 is Succeeded);
            assert(rest[i] == reports[i]);
        }
    }
}

/// A resolved input is downloaded whole and in its order; one without URLs is no batch, and an
/// error ends the program.
pub proof fn every_url_is_planned(urls: Seq<Seq<char>>, e: InputErrorView)
    ensures
        urls.len() > 0 ==> batch_plan(Ok(urls)) == BatchPlanView::Download(urls),
        urls.len() == 0 ==> batch_plan(Ok(urls)) == BatchPlanView::Nothing,
        batch_plan(Err(e)) == (BatchPlanView::Abort {
            notice: "Failed to resolve input URLs: "@ + e.message(),
            error: e.message(),
        }),
{
}

/// Batches add up: of two batches one after the other the successes are those of both, and the
/// failures are those of the first and then those of the second.
pub proof fn batches_add_up(first: Seq<(String, TaskReport)>, second: Seq<(String, TaskReport)>)
    ensures
        successes(first + second) == successes(first) + successes(second),
        failures(first + second) == failures(first) + failures(second),
    decreases second.len(),
{
    if second.len() == 0 {
        assert(first + second =~= first);
        assert(failures(first) + failures(second) =~= failures(first));
    } else {
        let rest = second.drop_last();
        batches_add_up(first, rest);
        assert((first + second).drop_last() =~= first + rest);
        assert((first + second).last() == second.last());
        assert(failures(first + second) =~= failures(first) + failures(second));
    }
}

/// A download that ended with a file is one success. One that failed is one failure, with its URL
/// and its error text; so is one that broke down, and its text says so.
pub proof fn each_report_is_told_as_it_came(url: String, error: String)
    ensures
        successes(seq![(url, TaskReport::Succeeded)]) == 1,
        failures(seq![(url, TaskReport::Succeeded)]) == Seq::<(Seq<char>, Seq<char>)>::empty(),
        successes(seq![(url, TaskReport::Failed(error))]) == 0,
        failures(seq![(url, TaskReport::Failed(error))]) == seq![(url@, error@)],
        successes(seq![(url, TaskReport::Panicked(error))]) == 0,
        failures(seq![(url, TaskReport::Panicked(error))]) == seq![
            (url@, "Task panicked: "@ + error@),
        ],
{
    let good = seq![(url, TaskReport::Succeeded)];
    let bad = seq![(url, TaskReport::Failed(error))];
    let broken = seq![(url, TaskReport::Panicked(error))];
    let none = Seq::<(String, TaskReport)>::empty();
    reveal_with_fuel(successes, 2);
    assert(good.drop_last() =~= none);
    assert(bad.drop_last() =~= none);
    assert(broken.drop_last() =~= none);
    assert(failures(none) =~= Seq::<(Seq<char>, Seq<char>)>::empty());
    assert(successes(none) == 0);
    assert(failures(bad) =~= seq![(url@, error@)]);
    assert(failures(broken) =~= seq![(url@, "Task panicked: "@ + error@)]);
}

/// The summary counts the successes and the failures in its first line and, where there are
/// failures, lists every one of them on a line of its own, in their order.
pub proof fn summary_lists_every_failure(successful: nat, failed: Seq<(Seq<char>, Seq<char>)>)
    ensures
        summary_lines(successful, failed).len() == if failed.len() == 0 {
            1
        } else {
            failed.len() + 2
        },
        summary_lines(successful, failed)[0] == "Batch download summary: "@ + decimal(successful)
            + " successful, "@ + decimal(failed.len()) + " failed."@,
        failed.len() > 0 ==> summary_lines(successful, failed)[1] == "Failed downloads:"@,
        forall|i: int|
            #![trigger failed[i]]
            0 <= i < failed.len() ==> summary_lines(successful, failed)[i + 2] == "- "@
                + failed[i].0 + ": "@ + failed[i].1,
{
}

/// Failures and plans are handed on in full.
pub proof fn batch_is_told_in_full(failed: Seq<(String, String)>, urls: Vec<String>, text: String)
    ensures
        failures_view(failed).len() == failed.len(),
        forall|i: int|
            0 <= i < failed.len() ==> #[trigger] failures_view(failed)[i] == (
                failed[i].0@,
                failed[i].1@,
            ),
        BatchPlan::Download(urls)@ matches BatchPlanView::Download(told) && told.len()
            == urls@.len() && forall|i: int|
            0 <= i < urls@.len() ==> #[trigger] told[i] == urls@[i]@,
        BatchPlan::Nothing@ == BatchPlanView::Nothing,
        (BatchPlan::Abort { notice: text, error: text })@ == (BatchPlanView::Abort {
            notice: text@,
            error: text@,
        }),
{
}

} // verus!
