//! The conversion of each candidate: whether it is skipped, how the external
//! converter is called, what is logged of its result, and the progress of
//! the batch.

use vstd::prelude::*;
use crate::discovery::Candidate;

verus! {

/// What became of one candidate.
#[derive(PartialEq, Eq, Structural, Clone, Copy, Debug)]
pub enum Outcome {
    Skipped,
    Succeeded,
    Failed,
}

/// What came back from running the converter on one candidate.
pub enum ConverterRun {
    /// The process could not be started or waited for.
    NotStarted { reason: String },
    /// The process ran to its end.
    Exited { success: bool, stdout: Vec<u8>, stderr: Vec<u8> },
}

/// One write to the log: bytes as they came, or a line of text.
pub enum LogItem {
    Raw(Vec<u8>),
    Line(String),
}

pub enum LogView {
    Raw(Seq<u8>),
    Line(Seq<char>),
}

impl View for LogItem {
    type V = LogView;

    open spec fn view(&self) -> LogView {
        match self {
            LogItem::Raw(b) => LogView::Raw(b@),
            LogItem::Line(s) => LogView::Line(s@),
        }
    }
}

pub open spec fn log_views(items: Seq<LogItem>) -> Seq<LogView> {
    items.map_values(|i: LogItem| i@)
}

/// What a candidate calls for once it is known whether its output exists.
pub enum FilePlan {
    /// Leave it, and log this line.
    Skip { log_line: String },
    /// Run the converter on it.
    Convert,
}

/// What is done once the converter has run on a candidate.
pub struct FileReport {
    /// Written to the log, in this order.
    pub log: Vec<LogItem>,
    /// Printed as an error on the console, if any.
    pub console: Option<String>,
    pub outcome: Outcome,
}

pub open spec fn skip_line(output: Seq<char>) -> Seq<char> {
    "文件已存在，跳过："@ + output
}

pub open spec fn success_line(input: Seq<char>, output: Seq<char>) -> Seq<char> {
    "Successfully converted: "@ + input + " -> "@ + output
}

pub open spec fn failure_line(input: Seq<char>, reason: Seq<char>) -> Seq<char> {
    "Error converting file "@ + input + ": "@ + reason
}

/// The reason logged when the converter exits with failure.
pub open spec fn exit_failure_reason() -> Seq<char> {
    "FFmpeg conversion failed"@
}

pub open spec fn console_failure(input: Seq<char>) -> Seq<char> {
    "Failed to convert "@ + input + " to MP3"@
}

pub open spec fn run_succeeded(run: ConverterRun) -> bool {
    match run {
        ConverterRun::NotStarted { .. } => false,
        ConverterRun::Exited { success, .. } => success,
    }
}

/// The captured output that is logged: each stream that is not empty, stdout first.
pub open spec fn captured_log(stdout: Seq<u8>, stderr: Seq<u8>) -> Seq<LogView> {
    (if stdout.len() > 0 { seq![LogView::Raw(stdout)] } else { Seq::empty() }) + (if stderr.len()
        > 0 {
        seq![LogView::Raw(stderr)]
    } else {
        Seq::empty()
    })
}

/// The log writes for a candidate that the converter ran on.
pub open spec fn report_log(input: Seq<char>, output: Seq<char>, run: ConverterRun) -> Seq<LogView> {
    match run {
        ConverterRun::NotStarted { reason } => seq![LogView::Line(failure_line(input, reason@))],
        ConverterRun::Exited { success, stdout, stderr } => captured_log(stdout@, stderr@) + if success {
            seq![LogView::Line(success_line(input, output))]
        } else {
            seq![LogView::Line(failure_line(input, exit_failure_reason()))]
        },
    }
}

/// The console error for a candidate that the converter ran on.
pub open spec fn report_console(input: Seq<char>, run: ConverterRun) -> Option<Seq<char>> {
    match run {
        ConverterRun::Exited { success: false, .. } => Some(console_failure(input)),
        _ => None,
    }
}

/// The program that converts, and that is probed for before any work.
pub fn converter_program() -> (r: &'static str)
    ensures
        r@ == "ffmpeg"@,
{
    "ffmpeg"
}

/// The arguments that probe whether the converter is installed.
pub fn probe_arguments() -> (r: Vec<String>)
    ensures
        r@.len() == 1,
        r@[0]@ == "-version"@,
{
    vec![String::from_str("-version")]
}

/// The arguments that convert a candidate: `-i <input> <output>`.
pub fn converter_arguments(c: &Candidate) -> (r: Vec<String>)
    ensures
        r@.len() == 3,
        r@[0]@ == "-i"@,
        r@[1]@ == c.input@,
        r@[2]@ == c.output@,
{
    vec![String::from_str("-i"), c.input.clone(), c.output.clone()]
}

/// A candidate whose output already exists is skipped with one log line that
/// names the output; any other is converted.
pub fn plan_file(c: &Candidate, output_exists: bool) -> (r: FilePlan)
    ensures
        output_exists <==> r is Skip,
        r matches FilePlan::Skip { log_line } ==> log_line@ == skip_line(c.output@),
{
    if output_exists {
        let mut line = String::from_str("文件已存在，跳过：");
        line.append(c.output.as_str());
        FilePlan::Skip { log_line: line }
    } else {
        FilePlan::Convert
    }
}

/// What is logged and printed for a candidate once the converter has run on
/// it, and its outcome: success only where the converter exited with success.
pub fn conversion_report(c: &Candidate, run: ConverterRun) -> (r: FileReport)
    ensures
        log_views(r.log@) == report_log(c.input@, c.output@, run),
        match r.console {
            Some(s) => report_console(c.input@, run) == Some(s@),
            None => report_console(c.input@, run) is None,
        },
        r.outcome == (if run_succeeded(run) {
            Outcome::Succeeded
        } else {
            Outcome::Failed
        }),
{
    let ghost run0 = run;
    match run {
        ConverterRun::NotStarted { reason } => {
            let mut line = String::from_str("Error converting file ");
            line.append(c.input.as_str());
            line.append(": ");
            line.append(reason.as_str());
            let log = vec![LogItem::Line(line)];
            assert(log_views(log@) =~= report_log(c.input@, c.output@, run0));
            FileReport { log, console: None, outcome: Outcome::Failed }
        },
        ConverterRun::Exited { success, stdout, stderr } => {
            let ghost out_v = stdout@;
            let ghost err_v = stderr@;
            let mut log: Vec<LogItem> = Vec::new();
            if stdout.len() > 0 {
                log.push(LogItem::Raw(stdout));
            }
            if stderr.len() > 0 {
                log.push(LogItem::Raw(stderr));
            }
            assert(log_views(log@) =~= captured_log(out_v, err_v));
            let ghost captured = log_views(log@);
            if success {
                let mut line = String::from_str("Successfully converted: ");
                line.append(c.input.as_str());
                line.append(" -> ");
                line.append(c.output.as_str());
                log.push(LogItem::Line(line));
                assert(log_views(log@) =~= report_log(c.input@, c.output@, run0));
                FileReport { log, console: None, outcome: Outcome::Succeeded }
            } else {
                let mut line = String::from_str("Error converting file ");
                line.append(c.input.as_str());
                line.append(": ");
                line.append("FFmpeg conversion failed");
                log.push(LogItem::Line(line));
                assert(log_views(log@) =~= report_log(c.input@, c.output@, run0));
                let mut msg = String::from_str("Failed to convert ");
                msg.append(c.input.as_str());
                msg.append(" to MP3");
                FileReport { log, console: Some(msg), outcome: Outcome::Failed }
            }
        },
    }
}

/// After the converter ran, the log holds a line that records the result:
/// `input -> output` on success; on failure a line that names the input and
/// says the conversion failed.
pub proof fn lemma_report_records_result(input: Seq<char>, output: Seq<char>, run: ConverterRun)
    ensures
        run_succeeded(run) ==> report_log(input, output, run).contains(
            LogView::Line(success_line(input, output)),
        ),
        !run_succeeded(run) ==> exists|reason: Seq<char>|
            report_log(input, output, run).contains(LogView::Line(#[trigger] failure_line(input, reason))),
        forall|reason: Seq<char>|
            #[trigger] failure_line(input, reason).subrange(0, 22) == "Error converting file "@
                && failure_line(input, reason).subrange(22, 22 + input.len() as int) == input,
{
    reveal_strlit("Error converting file ");
    let log = report_log(input, output, run);
    match run {
        ConverterRun::NotStarted { reason } => {
            assert(log[0] == LogView::Line(failure_line(input, reason@)));
        },
        ConverterRun::Exited { success, stdout, stderr } => {
            let last = log.len() - 1;
            if success {
                assert(log[last] == LogView::Line(success_line(input, output)));
            } else {
                assert(log[last] == LogView::Line(failure_line(input, exit_failure_reason())));
            }
        },
    }
    assert forall|reason: Seq<char>|
        #[trigger] failure_line(input, reason).subrange(0, 22) == "Error converting file "@
            && failure_line(input, reason).subrange(22, 22 + input.len() as int) == input by {
        let l = failure_line(input, reason);
        assert(l.subrange(0, 22) =~= "Error converting file "@);
        assert(l.subrange(22, 22 + input.len() as int) =~= input);
    }
}

} // verus!
