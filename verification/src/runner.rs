//! The managed run of one process tree: what its output readers collect,
//! and what the run reports once the child exited, timed out, was
//! cancelled or could not be waited for. Spawning, reading, waiting and
//! signalling are done by the caller, which hands back what happened.
use crate::messages::opt_str;
use crate::output::{capture_overflows, captured_text, string_views, BoundedCapture};
use crate::process::{ManagedProcessError, ManagedProcessOutput, ManagedProcessTermination};
use crate::text::{decimal, push_decimal, push_str};
use vstd::prelude::*;
use vstd::string::*;

verus! {

/// What one read of an output pipe produced.
#[derive(Debug)]
pub enum ReadOutcome {
    /// These bytes (never empty).
    Data(Vec<u8>),
    /// The pipe closed.
    Eof,
    /// Reading failed with this error.
    Failed(String),
}

/// What a reader of one output pipe collected, and the warnings it raised.
pub struct CaptureTaskResult {
    pub capture: BoundedCapture,
    pub warnings: Vec<String>,
}

/// Warning of a failed read.
pub open spec fn read_failed_warning(e: Seq<char>) -> Seq<char> {
    "process output reader failed: "@ + e
}

impl CaptureTaskResult {
    /// Nothing read yet.
    pub fn new() -> (r: Self)
        ensures
            r.capture.wf(),
            r.capture.stream() == Seq::<u8>::empty(),
            r.warnings@.len() == 0,
    {
        CaptureTaskResult { capture: BoundedCapture::new(), warnings: Vec::new() }
    }

    /// Records one read and says whether to read on: bytes are captured and
    /// reading goes on; at the end of the pipe it stops; a failed read
    /// stops with a warning.
    pub fn record_read(&mut self, read: ReadOutcome) -> (more: bool)
        requires
            old(self).capture.wf(),
            read is Data ==> old(self).capture.stream().len() + read->Data_0@.len() <= u64::MAX,
        ensures
            final(self).capture.wf(),
            more == (read is Data),
            match read {
                ReadOutcome::Data(b) => final(self).capture.stream() == old(self).capture.stream() + b@
                    && final(self).warnings@ == old(self).warnings@,
                ReadOutcome::Eof => final(self).capture.stream() == old(self).capture.stream()
                    && final(self).warnings@ == old(self).warnings@,
                ReadOutcome::Failed(e) => final(self).capture.stream() == old(self).capture.stream()
                    && string_views(final(self).warnings@) == string_views(old(self).warnings@).push(
                    read_failed_warning(e@),
                ),
            },
    {
        match read {
            ReadOutcome::Data(b) => {
                self.capture.push(b.as_slice());
                true
            },
            ReadOutcome::Eof => false,
            ReadOutcome::Failed(e) => {
                let ghost before = string_views(self.warnings@);
                let mut w = String::from_str("process output reader failed: ");
                push_str(&mut w, e.as_str());
                self.warnings.push(w);
                assert(string_views(self.warnings@) =~= before.push(read_failed_warning(e@)));
                false
            },
        }
    }
}

/// How collecting a reader's result ended.
pub enum CollectOutcome {
    /// The reader finished with this result.
    Finished(CaptureTaskResult),
    /// The reader task failed with this error.
    Failed(String),
    /// The reader did not finish in time and was stopped.
    StillOpen,
}

/// The result of collecting a reader: its own result when it finished;
/// otherwise nothing captured and a warning saying why.
pub fn collected_capture(outcome: CollectOutcome) -> (r: CaptureTaskResult)
    ensures
        match outcome {
            CollectOutcome::Finished(t) => r == t,
            CollectOutcome::Failed(e) => r.capture.wf() && r.capture.stream().len() == 0 && string_views(
                r.warnings@,
            ) == seq!["process output reader task failed: "@ + e@],
            CollectOutcome::StillOpen => r.capture.wf() && r.capture.stream().len() == 0 && string_views(
                r.warnings@,
            ) == seq!["process output reader did not close after cleanup"@],
        },
{
    match outcome {
        CollectOutcome::Finished(t) => t,
        CollectOutcome::Failed(e) => {
            let mut w = String::from_str("process output reader task failed: ");
            push_str(&mut w, e.as_str());
            let ghost wv = w@;
            let mut warnings: Vec<String> = Vec::new();
            warnings.push(w);
            assert(string_views(warnings@) =~= seq![wv]);
            CaptureTaskResult { capture: BoundedCapture::new(), warnings }
        },
        CollectOutcome::StillOpen => {
            let mut warnings: Vec<String> = Vec::new();
            warnings.push(String::from_str("process output reader did not close after cleanup"));
            assert(string_views(warnings@) =~= seq!["process output reader did not close after cleanup"@]);
            CaptureTaskResult { capture: BoundedCapture::new(), warnings }
        },
    }
}

// ---------------------------------------------------------------------------
// The report of a run
// ---------------------------------------------------------------------------
/// How waiting for the child ended.
#[derive(Debug)]
pub enum RunEnd {
    /// It exited with this code (none when a signal ended it).
    Exited(Option<i32>),
    /// The time limit passed; the tree was terminated.
    TimedOut,
    /// The run was cancelled; the tree was terminated.
    Cancelled,
    /// Waiting failed with this error.
    WaitFailed(String),
}

/// Warning of output lost to the capture limits.
pub open spec fn capture_limit_warning() -> Seq<char> {
    "process output exceeded capture limits; head and tail preserved"@
}

/// The non-empty texts of `ws`, in order.
pub open spec fn nonempty_only(ws: Seq<Seq<char>>) -> Seq<Seq<char>>
    decreases ws.len(),
{
    if ws.len() == 0 {
        Seq::empty()
    } else if ws.last().len() == 0 {
        nonempty_only(ws.drop_last())
    } else {
        nonempty_only(ws.drop_last()).push(ws.last())
    }
}

/// Warnings of the readers, then the capture warning when output was lost.
pub open spec fn reader_warnings(out: Seq<u8>, out_w: Seq<Seq<char>>, err: Seq<u8>, err_w: Seq<Seq<char>>) -> Seq<
    Seq<char>,
> {
    let w = out_w + err_w;
    if capture_overflows(out) || capture_overflows(err) {
        w.push(capture_limit_warning())
    } else {
        w
    }
}

/// What a managed run reports. A wait failure is an error; so is a failed
/// cleanup of the group left by a child that exited. An exit reports its
/// code, the texts of both captures, whether either lost output, and the
/// readers' warnings. A timeout or cancellation reports no code, the same
/// texts, and after the readers' warnings one naming the timeout (its limit
/// in milliseconds, 0 when none) or the cancellation, then any cleanup
/// failure; empty warnings are left out.
pub open spec fn managed_output_holds(
    end: RunEnd,
    cleanup_error: Option<Seq<char>>,
    out: Seq<u8>,
    out_w: Seq<Seq<char>>,
    err: Seq<u8>,
    err_w: Seq<Seq<char>>,
    timeout_ms: Option<u64>,
    r: Result<ManagedProcessOutput, ManagedProcessError>,
) -> bool {
    let texts_ok = |o: ManagedProcessOutput|
        o.stdout@ == captured_text(out) && o.stderr@ == captured_text(err) && o.capture_truncated == (
        capture_overflows(out) || capture_overflows(err));
    let warned = reader_warnings(out, out_w, err, err_w);
    match end {
        RunEnd::WaitFailed(e) => r matches Err(ManagedProcessError::Wait(m)) && m@ == e@,
        RunEnd::Exited(code) => match cleanup_error {
            Some(c) => r matches Err(ManagedProcessError::Cleanup(m)) && m@ == c,
            None => r matches Ok(o) && o.termination == ManagedProcessTermination::Exited && o.exit_code == code
                && texts_ok(o) && string_views(o.warnings@) == warned,
        },
        _ => {
            let term = if end is TimedOut {
                ManagedProcessTermination::TimedOut
            } else {
                ManagedProcessTermination::Cancelled
            };
            let note = if end is TimedOut {
                "managed process timed out after "@ + decimal(
                    match timeout_ms {
                        Some(t) => t as nat,
                        None => 0,
                    },
                ) + " ms"@
            } else {
                "managed process cancelled"@
            };
            let all = match cleanup_error {
                Some(c) => warned.push(note).push("managed process cleanup failed: "@ + c),
                None => warned.push(note),
            };
            r matches Ok(o) && o.termination == term && o.exit_code.is_none() && texts_ok(o) && string_views(
                o.warnings@,
            ) == nonempty_only(all)
        },
    }
}

fn append_all(dst: &mut Vec<String>, src: Vec<String>)
    ensures
        string_views(final(dst)@) == string_views(old(dst)@) + string_views(src@),
{
    let ghost start = string_views(dst@);
    let mut i: usize = 0;
    while i < src.len()
        invariant
            i <= src.len(),
            string_views(dst@) == start + string_views(src@).take(i as int),
        decreases src.len() - i,
    {
        let ghost before = string_views(dst@);
        dst.push(src[i].clone());
        assert(string_views(dst@) =~= before.push(src@[i as int]@));
        assert(string_views(src@).take(i + 1) =~= string_views(src@).take(i as int).push(src@[i as int]@));
        i += 1;
    }
    assert(string_views(src@).take(src.len() as int) =~= string_views(src@));
}

fn keep_nonempty(ws: Vec<String>) -> (r: Vec<String>)
    ensures
        string_views(r@) == nonempty_only(string_views(ws@)),
{
    let ghost all = string_views(ws@);
    let mut r: Vec<String> = Vec::new();
    let mut i: usize = 0;
    while i < ws.len()
        invariant
            i <= ws.len(),
            all == string_views(ws@),
            string_views(r@) == nonempty_only(all.take(i as int)),
        decreases ws.len() - i,
    {
        assert(all.take(i + 1).drop_last() =~= all.take(i as int));
        assert(all.take(i + 1).last() == ws@[i as int]@);
        if ws[i].unicode_len() > 0 {
            let ghost before = string_views(r@);
            r.push(ws[i].clone());
            assert(string_views(r@) =~= before.push(ws@[i as int]@));
        }
        i += 1;
    }
    assert(all.take(ws.len() as int) =~= all);
    r
}

/// The report of a managed run (see [`managed_output_holds`]).
pub fn managed_output(
    end: RunEnd,
    cleanup_error: Option<String>,
    stdout: CaptureTaskResult,
    stderr: CaptureTaskResult,
    timeout_ms: Option<u64>,
) -> (r: Result<ManagedProcessOutput, ManagedProcessError>)
    requires
        stdout.capture.wf(),
        stderr.capture.wf(),
    ensures
        managed_output_holds(
            end,
            opt_str(cleanup_error),
            stdout.capture.stream(),
            string_views(stdout.warnings@),
            stderr.capture.stream(),
            string_views(stderr.warnings@),
            timeout_ms,
            r,
        ),
{
    let ghost whole = end;
    let ghost (out, out_w, err, err_w) = (
        stdout.capture.stream(),
        string_views(stdout.warnings@),
        stderr.capture.stream(),
        string_views(stderr.warnings@),
    );
    if let RunEnd::WaitFailed(e) = end {
        return Err(ManagedProcessError::Wait(e));
    }
    let (out_text, out_cut) = stdout.capture.finish();
    let (err_text, err_cut) = stderr.capture.finish();
    let mut warnings = stdout.warnings;
    append_all(&mut warnings, stderr.warnings);
    if out_cut || err_cut {
        let ghost before = string_views(warnings@);
        warnings.push(String::from_str("process output exceeded capture limits; head and tail preserved"));
        assert(string_views(warnings@) =~= before.push(capture_limit_warning()));
    }
    assert(string_views(warnings@) == reader_warnings(out, out_w, err, err_w));
    match end {
        RunEnd::Exited(code) => {
            match cleanup_error {
                Some(c) => Err(ManagedProcessError::Cleanup(c)),
                None => Ok(
                    ManagedProcessOutput {
                        termination: ManagedProcessTermination::Exited,
                        exit_code: code,
                        stdout: out_text,
                        stderr: err_text,
                        capture_truncated: out_cut || err_cut,
                        warnings,
                    },
                ),
            }
        },
        _ => {
            let timed_out = match end {
                RunEnd::TimedOut => true,
                _ => false,
            };
            let ghost warned = string_views(warnings@);
            let note = if timed_out {
                let ms: u64 = match timeout_ms {
                    Some(t) => t,
                    None => 0,
                };
                let mut n = String::from_str("managed process timed out after ");
                push_decimal(&mut n, ms);
                push_str(&mut n, " ms");
                n
            } else {
                String::from_str("managed process cancelled")
            };
            let ghost nv = note@;
            warnings.push(note);
            let ghost with_note = string_views(warnings@);
            assert(with_note =~= warned.push(nv));
            match cleanup_error {
                Some(c) => {
                    let mut m = String::from_str("managed process cleanup failed: ");
                    push_str(&mut m, c.as_str());
                    let ghost mv = m@;
                    warnings.push(m);
                    assert(string_views(warnings@) =~= with_note.push(mv));
                },
                None => {},
            }
            let kept = keep_nonempty(warnings);
            Ok(
                ManagedProcessOutput {
                    termination: if timed_out {
                        ManagedProcessTermination::TimedOut
                    } else {
                        ManagedProcessTermination::Cancelled
                    },
                    exit_code: None,
                    stdout: out_text,
                    stderr: err_text,
                    capture_truncated: out_cut || err_cut,
                    warnings: kept,
                },
            )
        },
    }
}

} // verus!
