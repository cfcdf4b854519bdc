//! Processes that have ended, and the report of one that failed.
use vstd::prelude::*;

use crate::standard;
use crate::text;

verus! {

/// What is left of a process that has ended: whether it succeeded, its exit
/// status as shown in messages, and what it wrote.
#[derive(Debug)]
pub struct ProcessOutput {
    pub success: bool,
    pub status: String,
    pub stdout: Vec<u8>,
    pub stderr: Vec<u8>,
}

/// The model of a `ProcessOutput`.
pub struct ProcessOutputView {
    pub success: bool,
    pub status: Seq<char>,
    pub stdout: Seq<u8>,
    pub stderr: Seq<u8>,
}

impl View for ProcessOutput {
    type V = ProcessOutputView;

    open spec fn view(&self) -> ProcessOutputView {
        ProcessOutputView {
            success: self.success,
            status: self.status@,
            stdout: self.stdout@,
            stderr: self.stderr@,
        }
    }
}

/// What a report shows of a stream: its text without the white space around
/// it, or a mark that there is none.
pub open spec fn shown_stream(stream: Seq<char>) -> Seq<char> {
    if text::trimmed(stream).len() == 0 {
        "<empty>"@
    } else {
        text::trimmed(stream)
    }
}

/// The report of an action whose process failed.
pub open spec fn failure(
    action: Seq<char>,
    status: Seq<char>,
    stdout: Seq<char>,
    stderr: Seq<char>,
) -> Seq<char> {
    action + " failed with "@ + status + "\nstdout:\n"@ + shown_stream(stdout) + "\nstderr:\n"@
        + shown_stream(stderr)
}

/// Prepares a stream for a report.
fn show_stream(stream: &str) -> (shown: String)
    ensures
        shown@ == shown_stream(stream@),
{
    let kept = text::trim(stream);
    if kept.as_str().is_empty() {
        "<empty>".to_owned()
    } else {
        kept
    }
}

/// Reports an action whose process failed, from the texts that it wrote.
pub fn report_failure(action: &str, status: &str, stdout: &str, stderr: &str) -> (report: String)
    ensures
        report@ == failure(action@, status@, stdout@, stderr@),
{
    let mut report = action.to_owned();
    report.append(" failed with ");
    report.append(status);
    report.append("\nstdout:\n");
    report.append(show_stream(stdout).as_str());
    report.append("\nstderr:\n");
    report.append(show_stream(stderr).as_str());
    report
}

/// Whether an action succeeded, or the report of its failure.
pub open spec fn success_of(action: Seq<char>, output: ProcessOutputView) -> Result<(), Seq<char>> {
    if output.success {
        Ok(())
    } else {
        Err(
            failure(
                action,
                output.status,
                standard::utf8_lossy(output.stdout),
                standard::utf8_lossy(output.stderr),
            ),
        )
    }
}

/// What a result without a value says.
pub open spec fn outcome(result: Result<(), String>) -> Result<(), Seq<char>> {
    match result {
        Ok(()) => Ok(()),
        Err(message) => Err(message@),
    }
}

/// Accepts the process of an action where it succeeded, and reports it where
/// it failed.
pub fn ensure_success(action: &str, output: &ProcessOutput) -> (checked: Result<(), String>)
    ensures
        outcome(checked) == success_of(action@, output@),
        !output.success && vstd::utf8::valid_utf8(output.stdout@) && vstd::utf8::valid_utf8(
            output.stderr@,
        ) ==> outcome(checked) == Err::<(), Seq<char>>(
            failure(
                action@,
                output.status@,
                vstd::utf8::decode_utf8(output.stdout@),
                vstd::utf8::decode_utf8(output.stderr@),
            ),
        ),
{
    if output.success {
        return Ok(());
    }
    let stdout = standard::lossy_text(output.stdout.as_slice());
    let stderr = standard::lossy_text(output.stderr.as_slice());
    Err(report_failure(action, output.status.as_str(), stdout.as_str(), stderr.as_str()))
}

/// What a report of a failure is: the action, the exit status, and what is left
/// of both streams without the white space around them, or `<empty>` for one of
/// which nothing is left.
pub proof fn law_reported_failure(
    action: &str,
    status: &str,
    stdout: &str,
    stderr: &str,
    report: String,
)
    requires
        call_ensures(report_failure, (action, status, stdout, stderr), report),
    ensures
        ({
            let out = text::trimmed(stdout@);
            let err = text::trimmed(stderr@);
            report@ == action@ + " failed with "@ + status@ + "\nstdout:\n"@ + (if out.len() == 0 {
                "<empty>"@
            } else {
                out
            }) + "\nstderr:\n"@ + (if err.len() == 0 {
                "<empty>"@
            } else {
                err
            })
        }),
{
}

/// What judging a process gives: acceptance if and only if it succeeded, and
/// else a report with its status and both of its streams.
pub proof fn law_judged_process(
    action: &str,
    output: &ProcessOutput,
    checked: Result<(), String>,
)
    requires
        call_ensures(ensure_success, (action, output), checked),
    ensures
        checked is Ok <==> output.success,
        checked matches Err(message) ==> {
            let out = text::trimmed(standard::utf8_lossy(output.stdout@));
            let err = text::trimmed(standard::utf8_lossy(output.stderr@));
            message@ == action@ + " failed with "@ + output.status@ + "\nstdout:\n"@ + (
            if out.len() == 0 {
                "<empty>"@
            } else {
                out
            }) + "\nstderr:\n"@ + (if err.len() == 0 {
                "<empty>"@
            } else {
                err
            })
        },
{
}

} // verus!
