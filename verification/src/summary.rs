//! Totals over the results of a run, and the small decisions of a run:
//! how many workers, when progress is reported, which exit code.

use vstd::prelude::*;
use crate::convert::{FileResult, Status};
use crate::scan::{file_count, queued_jobs, skipped_paths, every_file_queued_or_skipped, Entry};

verus! {

/// The totals of a run.
#[derive(Debug, Clone, Copy)]
pub struct Tally {
    /// Files converted.
    pub done: u64,
    /// Files skipped because their target existed.
    pub skipped_exists: u64,
    /// Files that failed.
    pub failed: u64,
    /// Bytes read from the converted files.
    pub in_bytes: u64,
    /// Bytes written for the converted files.
    pub out_bytes: u64,
}

/// How many of `rs` have `status`.
pub open spec fn count_status(rs: Seq<FileResult>, status: Status) -> nat
    decreases rs.len(),
{
    if rs.len() == 0 {
        0
    } else {
        count_status(rs.drop_last(), status) + if rs.last().status == status { 1nat } else { 0nat }
    }
}

/// The source bytes of the converted files among `rs`.
pub open spec fn sum_in(rs: Seq<FileResult>) -> nat
    decreases rs.len(),
{
    if rs.len() == 0 {
        0
    } else {
        sum_in(rs.drop_last()) + if rs.last().status == Status::Done { rs.last().in_bytes as nat } else { 0nat }
    }
}

/// The written bytes of the converted files among `rs`.
pub open spec fn sum_out(rs: Seq<FileResult>) -> nat
    decreases rs.len(),
{
    if rs.len() == 0 {
        0
    } else {
        sum_out(rs.drop_last()) + if rs.last().status == Status::Done { rs.last().out_bytes as nat } else { 0nat }
    }
}

/// The byte totals of `rs` fit in a `u64`.
pub open spec fn totals_fit_spec(rs: Seq<FileResult>) -> bool {
    sum_in(rs) <= u64::MAX && sum_out(rs) <= u64::MAX
}

/// The count of a status is the number of results that carry it, whatever
/// else they hold: a converted file counts as converted even where its WebP
/// came out larger than its source.
pub proof fn count_is_the_number_with_that_status(rs: Seq<FileResult>, status: Status)
    ensures
        count_status(rs, status) == rs.filter(|r: FileResult| r.status == status).len(),
    decreases rs.len(),
{
    reveal(Seq::filter);
    if rs.len() > 0 {
        count_is_the_number_with_that_status(rs.drop_last(), status);
    }
}

/// Every file is counted once: as converted, skipped or failed.
pub proof fn every_result_counted_once(rs: Seq<FileResult>)
    ensures
        count_status(rs, Status::Done) + count_status(rs, Status::Exists) + count_status(rs, Status::Failed)
            == rs.len(),
    decreases rs.len(),
{
    if rs.len() > 0 {
        every_result_counted_once(rs.drop_last());
    }
}

/// The report reconciles with the walk: when each queued job has a result,
/// the converted, the skipped (target kept or extension not supported) and
/// the failed files add up to the regular files the walk found.
pub proof fn report_reconciles(entries: Seq<Entry>, results: Seq<FileResult>)
    requires
        results.len() == queued_jobs(entries).len(),
    ensures
        count_status(results, Status::Done) + (count_status(results, Status::Exists) + skipped_paths(entries).len())
            + count_status(results, Status::Failed) == file_count(entries),
{
    every_result_counted_once(results);
    every_file_queued_or_skipped(entries);
}

/// The sums over a prefix do not exceed the sums over the whole.
proof fn sums_grow(rs: Seq<FileResult>, i: int)
    requires
        0 <= i <= rs.len(),
    ensures
        sum_in(rs.take(i)) <= sum_in(rs),
        sum_out(rs.take(i)) <= sum_out(rs),
        count_status(rs.take(i), Status::Done) <= count_status(rs, Status::Done),
        count_status(rs.take(i), Status::Exists) <= count_status(rs, Status::Exists),
        count_status(rs.take(i), Status::Failed) <= count_status(rs, Status::Failed),
    decreases rs.len() - i,
{
    if i < rs.len() {
        sums_grow(rs, i + 1);
        assert(rs.take(i + 1).drop_last() =~= rs.take(i));
    } else {
        assert(rs.take(i) =~= rs);
    }
}

/// Whether the byte totals of `results` fit in a `u64`.
pub fn totals_fit(results: &Vec<FileResult>) -> (res: bool)
    ensures
        res == totals_fit_spec(results@),
{
    let mut in_sum: u64 = 0;
    let mut out_sum: u64 = 0;
    let mut i: usize = 0;
    while i < results.len()
        invariant
            i <= results@.len(),
            in_sum == sum_in(results@.take(i as int)),
            out_sum == sum_out(results@.take(i as int)),
        decreases results@.len() - i,
    {
        let ghost rs = results@;
        assert(rs.take(i + 1).drop_last() =~= rs.take(i as int));
        let r = &results[i];
        if r.status == Status::Done {
            match (in_sum.checked_add(r.in_bytes), out_sum.checked_add(r.out_bytes)) {
                (Some(a), Some(b)) => {
                    in_sum = a;
                    out_sum = b;
                },
                _ => {
                    proof {
                        sums_grow(rs, i + 1);
                    }
                    return false;
                },
            }
        }
        i = i + 1;
    }
    assert(results@.take(results@.len() as int) =~= results@);
    true
}

/// Counts the results of a run and adds up the sizes of the converted files.
pub fn tally(results: &Vec<FileResult>) -> (t: Tally)
    requires
        totals_fit_spec(results@),
    ensures
        t.done == count_status(results@, Status::Done),
        t.skipped_exists == count_status(results@, Status::Exists),
        t.failed == count_status(results@, Status::Failed),
        t.in_bytes == sum_in(results@),
        t.out_bytes == sum_out(results@),
        t.done == results@.filter(|r: FileResult| r.status == Status::Done).len(),
        t.skipped_exists == results@.filter(|r: FileResult| r.status == Status::Exists).len(),
        t.failed == results@.filter(|r: FileResult| r.status == Status::Failed).len(),
{
    let mut t = Tally { done: 0, skipped_exists: 0, failed: 0, in_bytes: 0, out_bytes: 0 };
    let mut i: usize = 0;
    let ghost rs = results@;
    proof {
        every_result_counted_once(rs);
    }
    while i < results.len()
        invariant
            rs == results@,
            i <= rs.len(),
            totals_fit_spec(rs),
            count_status(rs, Status::Done) + count_status(rs, Status::Exists) + count_status(rs, Status::Failed)
                == rs.len(),
            t.done == count_status(rs.take(i as int), Status::Done),
            t.skipped_exists == count_status(rs.take(i as int), Status::Exists),
            t.failed == count_status(rs.take(i as int), Status::Failed),
            t.in_bytes == sum_in(rs.take(i as int)),
            t.out_bytes == sum_out(rs.take(i as int)),
        decreases rs.len() - i,
    {
        assert(rs.take(i + 1).drop_last() =~= rs.take(i as int));
        proof {
            sums_grow(rs, i + 1);
        }
        let r = &results[i];
        match r.status {
            Status::Done => {
                t.done = t.done + 1;
                t.in_bytes = t.in_bytes + r.in_bytes;
                t.out_bytes = t.out_bytes + r.out_bytes;
            },
            Status::Exists => {
                t.skipped_exists = t.skipped_exists + 1;
            },
            Status::Failed => {
                t.failed = t.failed + 1;
            },
        }
        i = i + 1;
    }
    assert(rs.take(rs.len() as int) =~= rs);
    proof {
        count_is_the_number_with_that_status(rs, Status::Done);
        count_is_the_number_with_that_status(rs, Status::Exists);
        count_is_the_number_with_that_status(rs, Status::Failed);
    }
    t
}

/// The message for an output directory that is the input directory.
pub open spec fn msg_same_dirs() -> Seq<char> {
    "输入目录与输出目录不能相同"@
}

/// Decides on the output directory: it may not be the input directory, and
/// when it lies inside the input directory its subtree is left out of the
/// scan. `Ok(true)` asks for that exclusion.
pub fn output_exclusion(same_as_input: bool, inside_input: bool) -> (res: Result<bool, String>)
    ensures
        same_as_input ==> (res matches Err(m) && m@ == msg_same_dirs()),
        !same_as_input ==> res == Ok::<bool, String>(inside_input),
{
    if same_as_input {
        Err(String::from_str("输入目录与输出目录不能相同"))
    } else {
        Ok(inside_input)
    }
}

/// The exit code of a run that got as far as converting: 1 when any file
/// failed, 0 otherwise.
pub fn exit_code(t: &Tally) -> (code: u8)
    ensures
        code == (if t.failed > 0 { 1u8 } else { 0u8 }),
{
    if t.failed > 0 { 1 } else { 0 }
}

/// The number of workers: the number asked for, or when that is 0 the
/// parallelism the machine offers, or 1 when it cannot tell.
pub fn worker_count(requested: usize, available: Option<usize>) -> (n: usize)
    ensures
        n == (if requested > 0 {
            requested
        } else {
            match available {
                Some(a) => a,
                None => 1,
            }
        }),
{
    if requested > 0 {
        requested
    } else {
        match available {
            Some(a) => a,
            None => 1,
        }
    }
}

/// Whether progress is reported after the `processed`-th file: every `batch`
/// files, never when `batch` is 0.
pub fn progress_due(processed: u64, batch: u64) -> (res: bool)
    ensures
        res == (batch > 0 && processed % batch == 0),
{
    batch > 0 && processed % batch == 0
}

} // verus!
