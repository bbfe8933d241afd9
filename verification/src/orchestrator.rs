//! Batch orchestration: the decisions of a whole download task.
//!
//! The host fans the items out as concurrent transfers and validations;
//! the library decides what a batch plan looks like, what a remote size
//! probe means, which error a finished batch reports, and what cleanup
//! a failed validation owes.

use vstd::prelude::*;

use crate::decimal::{all_digits, dec_chars, digits_val, parse_u64, u64_to_string};
use crate::errors::DownloadError;
use crate::paths::{sanitize_save_path, spec_normalize};
use crate::progress::{sum_sizes, sum_total, sum_transferred, ProgressTracker};
use crate::proxy::ProxyConfig;

verus! {

/// One artifact to fetch: its URL, its destination as relative path
/// segments beneath the trusted data root, the optional integrity
/// expectations, and an optional proxy configuration.  Immutable once
/// submitted.
pub struct DownloadItem {
    pub url: String,
    pub save_path: Vec<String>,
    pub sha256: Option<String>,
    pub size: Option<u64>,
    pub proxy: Option<ProxyConfig>,
}

/// A point-in-time snapshot of a task's aggregate progress.
#[derive(Clone, Copy, PartialEq, Eq, Structural, Debug)]
pub struct DownloadEvent {
    pub transferred: u64,
    pub total: u64,
}

/// The event channel name of one task.
pub fn event_name(task_id: &str) -> (r: String)
    ensures
        r@ == "download-"@ + task_id@,
{
    let mut s: String = "download-".to_owned();
    s.append(task_id);
    s
}

/// The identifier of one file within a task: the task id, a dash, and
/// the item's index.
pub fn make_file_id(task_id: &str, index: u64) -> (r: String)
    ensures
        r@ == task_id@ + "-"@ + dec_chars(index as nat),
{
    let mut s: String = task_id.to_owned();
    s.append("-");
    let num = u64_to_string(index);
    s.append(num.as_str());
    s
}

/// Whether the transport accepts this string as an HTTP header name: a
/// function of the string alone.
pub uninterp spec fn header_name_ok(s: Seq<char>) -> bool;

/// Whether the transport accepts this string as an HTTP header value: a
/// function of the string alone.
pub uninterp spec fn header_value_ok(s: Seq<char>) -> bool;

/// Relies on reqwest::header::HeaderName::from_bytes: whether a string
/// is a valid header name.
#[verifier::external_body]
fn header_name_valid(k: &str) -> (r: bool)
    ensures
        r == header_name_ok(k@),
{
    reqwest::header::HeaderName::from_bytes(k.as_bytes()).is_ok()
}

/// Relies on reqwest::header::HeaderValue::from_str: whether a string
/// is a valid header value.
#[verifier::external_body]
fn header_value_valid(v: &str) -> (r: bool)
    ensures
        r == header_value_ok(v@),
{
    reqwest::header::HeaderValue::from_str(v).is_ok()
}

/// The transport accepts this header pair.
pub open spec fn header_pair_ok(p: (String, String)) -> bool {
    header_name_ok(p.0@) && header_value_ok(p.1@)
}

/// Every shared header pair is one the transport accepts.
pub open spec fn spec_headers_ok(headers: Seq<(String, String)>) -> bool {
    forall|i: int| 0 <= i < headers.len() ==> #[trigger] header_pair_ok(headers[i])
}

/// Checks the batch's shared header pairs before any client is built:
/// accepts exactly when every name and value is valid.  The host builds
/// its header map from the accepted pairs.
pub fn check_headers(headers: &Vec<(String, String)>) -> (r: Result<(), DownloadError>)
    ensures
        r is Ok <==> spec_headers_ok(headers@),
        (r matches Err(e) ==> e matches DownloadError::Configuration { .. }),
{
    let mut i: usize = 0;
    while i < headers.len()
        invariant
            0 <= i <= headers@.len(),
            forall|j: int| 0 <= j < i ==> #[trigger] header_pair_ok(headers@[j]),
        decreases headers@.len() - i,
    {
        if !header_name_valid(headers[i].0.as_str()) {
            proof {
                assert(!header_pair_ok(headers@[i as int]));
            }
            return Err(
                DownloadError::Configuration { message: "invalid header name".to_owned() },
            );
        }
        if !header_value_valid(headers[i].1.as_str()) {
            proof {
                assert(!header_pair_ok(headers@[i as int]));
            }
            return Err(
                DownloadError::Configuration { message: "invalid header value".to_owned() },
            );
        }
        proof {
            assert(header_pair_ok(headers@[i as int]));
        }
        i = i + 1;
    }
    Ok(())
}

/// What a metadata probe of one item's remote size yields.  A
/// non-success status is an error; a missing `content-length` header
/// yields size zero, never an error; a malformed one is an error.
pub fn remote_size_outcome(status: u16, content_length: &Option<String>) -> (r: Result<
    u64,
    DownloadError,
>)
    ensures
        !(200 <= status < 300) ==> (r matches Err(e) && e matches DownloadError::Transport {
            status: s,
            message: m,
        } && s == status && m@ == "failed to get file size"@),
        200 <= status < 300 ==> match content_length {
            None => r == Ok::<u64, DownloadError>(0),
            Some(v) => if v@.len() > 0 && all_digits(v@) && digits_val(v@) <= u64::MAX {
                r == Ok::<u64, DownloadError>(digits_val(v@) as u64)
            } else {
                r matches Err(e) && e matches DownloadError::Transport { status: s, message: m }
                    && s == status && m@ == "invalid content-length header"@
            },
        },
{
    if !(200 <= status && status < 300) {
        return Err(
            DownloadError::Transport {
                status,
                message: "failed to get file size".to_owned(),
            },
        );
    }
    match content_length {
        None => Ok(0),
        Some(v) => match parse_u64(v.as_str()) {
            Some(n) => Ok(n),
            None => Err(
                DownloadError::Transport {
                    status,
                    message: "invalid content-length header".to_owned(),
                },
            ),
        },
    }
}

/// The aggregate expected size of a batch, when it fits the counter.
pub fn checked_total_size(sizes: &Vec<u64>) -> (r: Option<u64>)
    ensures
        (r matches Some(t) ==> t == sum_sizes(sizes@) && sum_sizes(sizes@) <= u64::MAX),
        r is None ==> sum_sizes(sizes@) > u64::MAX,
{
    let mut total: u64 = 0;
    let mut i: usize = 0;
    while i < sizes.len()
        invariant
            0 <= i <= sizes@.len(),
            total == sum_sizes(sizes@.take(i as int)),
        decreases sizes@.len() - i,
    {
        proof {
            assert(sizes@.take(i as int + 1).drop_last() =~= sizes@.take(i as int));
            assert(sizes@.take(i as int + 1).last() == sizes@[i as int]);
        }
        match total.checked_add(sizes[i]) {
            Some(t) => {
                total = t;
            },
            None => {
                proof {
                    lemma_sum_sizes_prefix_le(sizes@, i as int + 1);
                }
                return None;
            },
        }
        i = i + 1;
    }
    proof {
        assert(sizes@.take(sizes@.len() as int) =~= sizes@);
    }
    Some(total)
}

proof fn lemma_sum_sizes_prefix_le(s: Seq<u64>, i: int)
    requires
        0 <= i <= s.len(),
    ensures
        sum_sizes(s.take(i)) <= sum_sizes(s),
    decreases s.len() - i,
{
    if i == s.len() {
        assert(s.take(i) =~= s);
    } else {
        assert(s.take(i + 1).drop_last() =~= s.take(i));
        lemma_sum_sizes_prefix_le(s, i + 1);
    }
}

/// One planned transfer: the file's identifier within the task and the
/// sanitized destination segments beneath the data root.
pub struct PlanEntry {
    pub file_id: String,
    pub segments: Vec<String>,
}

/// Plans a batch: every destination is sanitized against the trusted
/// data root before anything else happens, so a path that would escape
/// it is rejected before any network request is issued.  On success,
/// one entry per item carries its file id and its resolved segments.
pub fn plan_batch(task_id: &str, items: &Vec<DownloadItem>) -> (r: Result<
    Vec<PlanEntry>,
    DownloadError,
>)
    ensures
        match r {
            Ok(entries) => {
                &&& entries@.len() == items@.len()
                &&& (forall|i: int|
                    0 <= i < items@.len() ==> spec_normalize(items@[i].save_path.deep_view())
                        == Some(#[trigger] entries@[i].segments.deep_view()))
                &&& (forall|i: int|
                    0 <= i < items@.len() ==> (#[trigger] entries@[i].file_id@) == task_id@ + "-"@
                        + dec_chars(i as nat))
            },
            Err(e) => {
                &&& e == DownloadError::PathSecurity
                &&& (exists|i: int|
                    0 <= i < items@.len() && spec_normalize(
                        #[trigger] items@[i].save_path.deep_view(),
                    ) is None)
            },
        },
{
    let mut entries: Vec<PlanEntry> = Vec::new();
    let mut i: usize = 0;
    while i < items.len()
        invariant
            0 <= i <= items@.len(),
            entries@.len() == i,
            forall|j: int|
                0 <= j < i ==> spec_normalize(items@[j].save_path.deep_view()) == Some(
                    #[trigger] entries@[j].segments.deep_view(),
                ),
            forall|j: int|
                0 <= j < i ==> (#[trigger] entries@[j].file_id@) == task_id@ + "-"@ + dec_chars(
                    j as nat,
                ),
        decreases items@.len() - i,
    {
        let segments = match sanitize_save_path(&items[i].save_path) {
            Ok(s) => s,
            Err(e) => {
                return Err(e);
            },
        };
        let file_id = make_file_id(task_id, i as u64);
        entries.push(PlanEntry { file_id, segments });
        i = i + 1;
    }
    Ok(entries)
}

/// Are two segment lists the same path?
fn eq_segments(a: &Vec<String>, b: &Vec<String>) -> (r: bool)
    ensures
        r == (a.deep_view() == b.deep_view()),
{
    if a.len() != b.len() {
        proof {
            assert(a.deep_view().len() == a@.len());
            assert(b.deep_view().len() == b@.len());
        }
        return false;
    }
    let mut i: usize = 0;
    while i < a.len()
        invariant
            0 <= i <= a@.len(),
            a@.len() == b@.len(),
            forall|j: int| 0 <= j < i ==> #[trigger] a.deep_view()[j] == b.deep_view()[j],
        decreases a@.len() - i,
    {
        if !(a[i] == b[i]) {
            proof {
                assert(a.deep_view()[i as int] == a@[i as int]@);
                assert(b.deep_view()[i as int] == b@[i as int]@);
            }
            return false;
        }
        i = i + 1;
    }
    proof {
        assert(a.deep_view() =~= b.deep_view());
    }
    true
}

/// The destinations of a plan, as abstract paths.
pub open spec fn spec_entry_paths(entries: Seq<PlanEntry>) -> Seq<Seq<Seq<char>>> {
    Seq::new(entries.len(), |i: int| entries[i].segments.deep_view())
}

/// No two entries name the same destination.
pub open spec fn spec_distinct_paths(paths: Seq<Seq<Seq<char>>>) -> bool {
    forall|i: int, j: int| 0 <= i < j < paths.len() ==> #[trigger] paths[i] != #[trigger] paths[j]
}

/// Checks that no two planned transfers target the same destination;
/// concurrent transfers to one path are never safe, so the host must
/// refuse such a batch.
pub fn distinct_destinations(entries: &Vec<PlanEntry>) -> (r: bool)
    ensures
        r == spec_distinct_paths(spec_entry_paths(entries@)),
{
    let ghost paths = spec_entry_paths(entries@);
    let mut i: usize = 0;
    while i < entries.len()
        invariant
            0 <= i <= entries@.len(),
            paths == spec_entry_paths(entries@),
            forall|x: int, y: int|
                0 <= x < y < i ==> #[trigger] paths[x] != #[trigger] paths[y],
        decreases entries@.len() - i,
    {
        let mut j: usize = 0;
        while j < i
            invariant
                0 <= j <= i < entries@.len(),
                paths == spec_entry_paths(entries@),
                forall|x: int| 0 <= x < j ==> #[trigger] paths[x] != paths[i as int],
            decreases i - j,
        {
            if eq_segments(&entries[j].segments, &entries[i].segments) {
                proof {
                    assert(paths[j as int] == entries@[j as int].segments.deep_view());
                    assert(paths[i as int] == entries@[i as int].segments.deep_view());
                    assert(!spec_distinct_paths(paths));
                }
                return false;
            }
            j = j + 1;
        }
        i = i + 1;
    }
    true
}

/// The batch outcome of the transfer stage: the index of the first
/// failed item, in item order — the error the batch reports — or none
/// when every item succeeded.
pub fn first_error_index(outcomes: &Vec<Option<DownloadError>>) -> (r: Option<usize>)
    ensures
        match r {
            Some(i) => i < outcomes@.len() && outcomes@[i as int] is Some && (forall|j: int|
                0 <= j < i ==> outcomes@[j] is None),
            None => forall|i: int| 0 <= i < outcomes@.len() ==> outcomes@[i] is None,
        },
{
    let mut i: usize = 0;
    while i < outcomes.len()
        invariant
            0 <= i <= outcomes@.len(),
            forall|j: int| 0 <= j < i ==> outcomes@[j] is None,
        decreases outcomes@.len() - i,
    {
        let found = match &outcomes[i] {
            Some(_) => true,
            None => false,
        };
        if found {
            return Some(i);
        }
        i = i + 1;
    }
    None
}

/// The cleanup a finished validation owes: a failed validation removes
/// that item's file and, if then empty, its parent directory; a
/// successful one removes nothing.  The decision concerns one item's
/// destination alone — sibling items' files are never touched.
#[derive(PartialEq, Eq, Structural, Debug)]
pub struct CleanupAction {
    pub remove_file: bool,
    pub remove_parent_if_empty: bool,
}

/// The cleanup one validation outcome owes.
pub open spec fn spec_cleanup(failed: bool) -> CleanupAction {
    CleanupAction { remove_file: failed, remove_parent_if_empty: failed }
}

/// Decides the cleanup after one validation.
pub fn cleanup_after_validation(result: &Result<(), DownloadError>) -> (r: CleanupAction)
    ensures
        r == spec_cleanup(result matches Err(_)),
{
    let failed = match result {
        Ok(_) => false,
        Err(_) => true,
    };
    CleanupAction { remove_file: failed, remove_parent_if_empty: failed }
}

/// The cleanups of a whole batch, each decided from its own item's
/// validation result alone.
pub open spec fn spec_cleanup_batch(results: Seq<Result<(), DownloadError>>) -> Seq<
    CleanupAction,
> {
    Seq::new(results.len(), |i: int| spec_cleanup(results[i] is Err))
}

/// Decides every item's cleanup after the batch's validations finish.
/// Each action applies to its own item's destination; nothing is
/// decided for one item from another's result.
pub fn cleanup_batch(results: &Vec<Result<(), DownloadError>>) -> (r: Vec<CleanupAction>)
    ensures
        r@ == spec_cleanup_batch(results@),
{
    let mut actions: Vec<CleanupAction> = Vec::new();
    let mut i: usize = 0;
    while i < results.len()
        invariant
            0 <= i <= results@.len(),
            actions@.len() == i,
            forall|j: int| 0 <= j < i ==> actions@[j] == spec_cleanup_batch(results@)[j],
        decreases results@.len() - i,
    {
        actions.push(cleanup_after_validation(&results[i]));
        i = i + 1;
    }
    proof {
        assert(actions@ =~= spec_cleanup_batch(results@));
    }
    actions
}

/// Law: validation cleanup never touches a sibling.  Each item's
/// cleanup is a function of its own result alone — two batches that
/// agree on one item's outcome agree on its cleanup, whatever happened
/// to the others — and a successfully validated item's cleanup removes
/// nothing.
pub proof fn lemma_cleanup_touches_only_failures(
    a: Seq<Result<(), DownloadError>>,
    b: Seq<Result<(), DownloadError>>,
    j: int,
)
    requires
        0 <= j < a.len(),
        0 <= j < b.len(),
        (a[j] is Err) == (b[j] is Err),
    ensures
        spec_cleanup_batch(a)[j] == spec_cleanup_batch(b)[j],
        a[j] is Ok ==> spec_cleanup_batch(a)[j] == (CleanupAction {
            remove_file: false,
            remove_parent_if_empty: false,
        }),
{
}

/// The final aggregate event of a finished batch, straight from the
/// tracker.  In a fully transferred batch its two counts are equal.
pub fn final_event(tracker: &ProgressTracker) -> (r: DownloadEvent)
    requires
        tracker.wf(),
    ensures
        r.transferred as int == if sum_transferred(tracker@) > u64::MAX {
            u64::MAX as int
        } else {
            sum_transferred(tracker@)
        },
        r.total == sum_total(tracker@),
{
    let (transferred, total) = tracker.total_progress();
    DownloadEvent { transferred, total }
}

} // verus!
