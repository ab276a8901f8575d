//! One chapter's downloads: the tasks handed to the bulk transfer, in page
//! order, and the reading of what it reports back.

use vstd::prelude::*;
use vstd::string::*;
use crate::naming::{page_name, url_to_download_path, DownloadPath};

verus! {

/// The number of downloads that run at once where none is configured.
pub const DEFAULT_JOBS: usize = 6;

/// One page to fetch: its address and the file name it is stored under.
#[derive(Debug)]
pub struct DownloadTask {
    pub url: String,
    pub file_name: String,
}

/// How one task ended.
#[derive(Debug)]
pub enum DownloadOutcome {
    Succeeded,
    Failed(String),
}

/// What the bulk transfer says of one task when it is done.
#[derive(Debug)]
pub enum TransferStatus {
    Fail(String),
    NotStarted,
    Skipped(String),
    Success,
}

/// Whether an address can be parsed as a URL.
pub uninterp spec fn url_parses(url: Seq<char>) -> bool;

/// Every address can be parsed as a URL.
pub open spec fn all_parse(urls: Seq<String>) -> bool {
    forall|i: int| 0 <= i < urls.len() ==> url_parses(#[trigger] urls[i]@)
}

/// The address at `i` is the first that cannot be parsed as a URL.
pub open spec fn is_first_bad(urls: Seq<String>, i: int) -> bool {
    &&& 0 <= i < urls.len()
    &&& !url_parses(urls[i]@)
    &&& forall|j: int| 0 <= j < i ==> url_parses(#[trigger] urls[j]@)
}

/// `reqwest::Url::parse` applied to `url`: whether it returns a URL rather
/// than a parse error. Parsing reads nothing but its argument, so the answer
/// is given a name; nothing is claimed of which addresses parse.
#[verifier::external_body]
fn address_parses(url: &str) -> (ok: bool)
    ensures
        ok == url_parses(url@),
{
    reqwest::Url::parse(url).is_ok()
}

/// The first address that cannot be parsed as a URL, if there is one.
pub fn first_bad_address(images: &Vec<String>) -> (bad: Option<String>)
    ensures
        bad is None <==> all_parse(images@),
        bad is Some ==> exists|i: int| is_first_bad(images@, i) && images@[i]@ == bad->Some_0@,
{
    let mut i: usize = 0;
    while i < images.len()
        invariant
            i <= images.len(),
            forall|j: int| 0 <= j < i ==> url_parses(#[trigger] images@[j]@),
        decreases images.len() - i,
    {
        if !address_parses(images[i].as_str()) {
            assert(is_first_bad(images@, i as int));
            return Some(String::from_str(images[i].as_str()));
        }
        i = i + 1;
    }
    None
}

/// How a task ended, going by what the bulk transfer says of it: only a
/// reported failure counts as one.
pub fn outcome_of(status: TransferStatus) -> (outcome: DownloadOutcome)
    ensures
        outcome == match status {
            TransferStatus::Fail(reason) => DownloadOutcome::Failed(reason),
            _ => DownloadOutcome::Succeeded,
        },
{
    match status {
        TransferStatus::Fail(reason) => DownloadOutcome::Failed(reason),
        TransferStatus::NotStarted => DownloadOutcome::Succeeded,
        TransferStatus::Skipped(_) => DownloadOutcome::Succeeded,
        TransferStatus::Success => DownloadOutcome::Succeeded,
    }
}

/// What the bulk transfer reports of one task.
#[derive(Debug)]
pub struct DownloadReport {
    pub file_name: String,
    pub outcome: DownloadOutcome,
}

/// A page that could not be fetched, and why.
#[derive(Debug)]
pub struct DownloadFailure {
    pub file_name: String,
    pub reason: String,
}

/// The paths are those of the pages at `urls`, in page order, under `dir`.
pub open spec fn paths_match(paths: Seq<DownloadPath>, urls: Seq<String>, dir: Seq<char>) -> bool {
    &&& paths.len() == urls.len()
    &&& forall|i: int|
        0 <= i < paths.len() ==> (#[trigger] paths[i]).directory@ == dir && paths[i].file_name@
            == page_name(urls[i]@, i as nat)
}

/// The tasks are those of the pages at `urls`, in page order.
pub open spec fn tasks_match(tasks: Seq<DownloadTask>, urls: Seq<String>) -> bool {
    &&& tasks.len() == urls.len()
    &&& forall|i: int|
        0 <= i < tasks.len() ==> (#[trigger] tasks[i]).url@ == urls[i]@ && tasks[i].file_name@
            == page_name(urls[i]@, i as nat)
}

/// The file name and reason of every failed report, in the order of the
/// reports.
pub open spec fn failures_of(reports: Seq<DownloadReport>) -> Seq<(Seq<char>, Seq<char>)>
    decreases reports.len(),
{
    if reports.len() == 0 {
        Seq::empty()
    } else {
        let rest = failures_of(reports.drop_last());
        match reports.last().outcome {
            DownloadOutcome::Failed(reason) => rest.push((reports.last().file_name@, reason@)),
            DownloadOutcome::Succeeded => rest,
        }
    }
}

/// The file names and reasons that a list of failures holds.
pub open spec fn failure_views(failures: Seq<DownloadFailure>) -> Seq<(Seq<char>, Seq<char>)> {
    failures.map_values(|f: DownloadFailure| (f.file_name@, f.reason@))
}

/// No report tells of a failure.
pub open spec fn all_succeeded(reports: Seq<DownloadReport>) -> bool {
    forall|i: int| 0 <= i < reports.len() ==> (#[trigger] reports[i]).outcome is Succeeded
}

/// There are failures to list exactly when some report tells of one.
pub proof fn lemma_failures_empty_iff_all_succeeded(reports: Seq<DownloadReport>)
    ensures
        failures_of(reports).len() == 0 <==> all_succeeded(reports),
    decreases reports.len(),
{
    if reports.len() > 0 {
        let front = reports.drop_last();
        lemma_failures_empty_iff_all_succeeded(front);
        if all_succeeded(reports) {
            assert(reports[reports.len() - 1].outcome is Succeeded);
            assert forall|i: int| 0 <= i < front.len() implies (#[trigger] front[i]).outcome
                is Succeeded by {
                assert(front[i] == reports[i]);
            }
        }
        if failures_of(reports).len() == 0 {
            assert forall|i: int| 0 <= i < reports.len() implies (#[trigger] reports[i]).outcome
                is Succeeded by {
                if i < front.len() {
                    assert(front[i] == reports[i]);
                }
            }
        }
    }
}

/// Where each page of a chapter is stored under `temp_dir`, in page order.
pub fn download_paths(images: &Vec<String>, temp_dir: &str) -> (paths: Vec<DownloadPath>)
    ensures
        paths_match(paths@, images@, temp_dir@),
{
    let mut paths: Vec<DownloadPath> = Vec::new();
    let mut i: usize = 0;
    while i < images.len()
        invariant
            i <= images.len(),
            paths_match(paths@, images@.subrange(0, i as int), temp_dir@),
        decreases images.len() - i,
    {
        let path = url_to_download_path(images[i].as_str(), i, temp_dir);
        paths.push(path);
        i = i + 1;
    }
    assert(images@.subrange(0, i as int) =~= images@);
    paths
}

/// One task per page of a chapter, in page order: the page's address and the
/// file name of its path.
pub fn download_tasks(images: &Vec<String>, paths: &Vec<DownloadPath>) -> (tasks: Vec<
    DownloadTask,
>)
    requires
        paths@.len() == images@.len(),
    ensures
        tasks@.len() == images@.len(),
        forall|i: int|
            0 <= i < tasks@.len() ==> (#[trigger] tasks@[i]).url@ == images@[i]@
                && tasks@[i].file_name@ == paths@[i].file_name@,
{
    let mut tasks: Vec<DownloadTask> = Vec::new();
    let mut i: usize = 0;
    while i < images.len()
        invariant
            i <= images.len(),
            paths@.len() == images@.len(),
            tasks@.len() == i,
            forall|k: int|
                0 <= k < i ==> (#[trigger] tasks@[k]).url@ == images@[k]@ && tasks@[k].file_name@
                    == paths@[k].file_name@,
        decreases images.len() - i,
    {
        tasks.push(
            DownloadTask {
                url: String::from_str(images[i].as_str()),
                file_name: String::from_str(paths[i].file_name.as_str()),
            },
        );
        i = i + 1;
    }
    tasks
}

/// The file name and reason of every failed report, in the order of the
/// reports.
pub fn collect_failures(reports: &Vec<DownloadReport>) -> (failures: Vec<DownloadFailure>)
    ensures
        failure_views(failures@) == failures_of(reports@),
{
    let mut failures: Vec<DownloadFailure> = Vec::new();
    let mut i: usize = 0;
    assert(failure_views(failures@) =~= failures_of(reports@.subrange(0, 0)));
    while i < reports.len()
        invariant
            i <= reports.len(),
            failure_views(failures@) == failures_of(reports@.subrange(0, i as int)),
        decreases reports.len() - i,
    {
        let ghost before = failures@;
        proof {
            let next = reports@.subrange(0, i + 1);
            assert(next.drop_last() =~= reports@.subrange(0, i as int));
            assert(next.last() == reports@[i as int]);
        }
        match &reports[i].outcome {
            DownloadOutcome::Failed(reason) => {
                failures.push(
                    DownloadFailure {
                        file_name: String::from_str(reports[i].file_name.as_str()),
                        reason: String::from_str(reason.as_str()),
                    },
                );
                assert(failure_views(failures@) =~= failure_views(before).push(
                    (reports@[i as int].file_name@, reason@),
                ));
            },
            DownloadOutcome::Succeeded => {},
        }
        i = i + 1;
    }
    assert(reports@.subrange(0, i as int) =~= reports@);
    failures
}

/// Reads the reports of one chapter's downloads: the chapter's paths, in page
/// order, where every download succeeded; else every failure.
pub fn chapter_result(paths: Vec<DownloadPath>, reports: &Vec<DownloadReport>) -> (result: Result<
    Vec<DownloadPath>,
    Vec<DownloadFailure>,
>)
    ensures
        all_succeeded(reports@) ==> result == Ok::<Vec<DownloadPath>, Vec<DownloadFailure>>(paths),
        !all_succeeded(reports@) ==> result is Err && failure_views(result->Err_0@) == failures_of(
            reports@,
        ),
{
    let failures = collect_failures(reports);
    proof {
        lemma_failures_empty_iff_all_succeeded(reports@);
    }
    if failures.len() == 0 {
        Ok(paths)
    } else {
        Err(failures)
    }
}

} // verus!
