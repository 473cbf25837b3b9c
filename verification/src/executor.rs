//! What one external command is, how the way it ended is normalised, and what
//! the progress indicator that brackets its execution shows.

use crate::text::copy_texts;
use crate::text::trim;
use crate::text::trimmed;
use vstd::prelude::*;

verus! {

/// One external command: the program, the arguments handed to it directly,
/// and the label under which its progress is shown.
#[derive(Debug, PartialEq, Eq)]
pub struct CommandDescriptor {
    pub program: String,
    pub args: Vec<String>,
    pub label: String,
}

/// What a [`CommandDescriptor`] holds.
pub ghost struct CommandLine {
    pub program: Seq<char>,
    pub args: Seq<Seq<char>>,
    pub label: Seq<char>,
}

impl View for CommandDescriptor {
    type V = CommandLine;

    open spec fn view(&self) -> CommandLine {
        CommandLine { program: self.program@, args: self.args.deep_view(), label: self.label@ }
    }
}

impl Clone for CommandDescriptor {
    fn clone(&self) -> (copy: CommandDescriptor)
        ensures
            copy@ == self@,
    {
        CommandDescriptor {
            program: self.program.clone(),
            args: copy_texts(&self.args),
            label: self.label.clone(),
        }
    }
}

/// The normalised result of one command that ran to its end.
#[derive(Clone, Debug, PartialEq, Eq)]
pub struct ExecutionResult {
    /// 0 means success.
    pub exit_code: i32,
    /// Standard output followed by standard error; empty when the output was
    /// shown live.
    pub output: String,
}

/// Why a command gave no result.
#[derive(Clone, Copy, Debug, PartialEq, Eq)]
pub enum ExecutionError {
    /// The program could not be launched.
    Spawn,
    /// The output of the program could not be read.
    Io,
}

/// What the operating system reported of one command.
#[derive(Clone, Debug, PartialEq, Eq)]
pub enum ProcessReport {
    /// The process ended. `code` is absent when it ended without an exit code,
    /// as one killed by a signal does.
    Completed { code: Option<i32>, stdout: Vec<u8>, stderr: Vec<u8> },
    SpawnFailed,
    ReadFailed,
}

/// The text that a lossy UTF-8 decoding of `bytes` gives.
pub uninterp spec fn lossy_text(bytes: Seq<u8>) -> Seq<char>;

/// `String::from_utf8_lossy`: decodes `bytes` as UTF-8 and puts U+FFFD in place
/// of what is not valid. The result depends on the bytes alone.
#[verifier::external_body]
pub(crate) fn decode_lossy(bytes: &Vec<u8>) -> (text: String)
    ensures
        text@ == lossy_text(bytes@),
{
    String::from_utf8_lossy(bytes).into_owned()
}

/// A process that ended without an exit code counts as exit code 1.
pub open spec fn normal_exit_code(code: Option<i32>) -> i32 {
    match code {
        Some(code) => code,
        None => 1,
    }
}

/// The exit code of a process that ended.
pub fn exit_code_of(code: Option<i32>) -> (exit_code: i32)
    ensures
        exit_code == normal_exit_code(code),
{
    match code {
        Some(code) => code,
        None => 1,
    }
}

/// The output that a result carries: both streams, standard output first,
/// when the output was captured, and nothing when it was shown live.
pub open spec fn combined_output(stdout: Seq<u8>, stderr: Seq<u8>, capture_output: bool) -> Seq<
    char,
> {
    if capture_output {
        lossy_text(stdout) + lossy_text(stderr)
    } else {
        Seq::empty()
    }
}

/// Turns what the operating system reported into the result of the command.
pub fn normalize(report: &ProcessReport, capture_output: bool) -> (result: Result<
    ExecutionResult,
    ExecutionError,
>)
    ensures
        match *report {
            ProcessReport::Completed { code, stdout, stderr } => result matches Ok(done)
                && done.exit_code == normal_exit_code(code) && done.output@ == combined_output(
                stdout@,
                stderr@,
                capture_output,
            ),
            ProcessReport::SpawnFailed => result == Err::<ExecutionResult, ExecutionError>(
                ExecutionError::Spawn,
            ),
            ProcessReport::ReadFailed => result == Err::<ExecutionResult, ExecutionError>(
                ExecutionError::Io,
            ),
        },
{
    match report {
        ProcessReport::Completed { code, stdout, stderr } => {
            let output = if capture_output {
                let mut text = decode_lossy(stdout);
                let tail = decode_lossy(stderr);
                text.append(tail.as_str());
                text
            } else {
                String::new()
            };
            Ok(ExecutionResult { exit_code: exit_code_of(*code), output })
        },
        ProcessReport::SpawnFailed => Err(ExecutionError::Spawn),
        ProcessReport::ReadFailed => Err(ExecutionError::Io),
    }
}

/// The mark that stands for how a command ended.
#[derive(Clone, Copy, Debug, PartialEq, Eq)]
pub enum Glyph {
    Success,
    Failure,
}

/// The indicator that brackets one execution.
#[derive(Clone, Debug, PartialEq, Eq)]
pub struct ProgressScope {
    pub label: String,
    /// True: a spinner, with the output held back. False: the output is shown
    /// live between a start line and a completion line.
    pub capture_output: bool,
}

/// What the indicator shows once the command has ended.
#[derive(Clone, Debug, PartialEq, Eq)]
pub struct Completion {
    pub glyph: Glyph,
    /// The line that replaces the spinner, or that follows the live output.
    pub headline: String,
    /// The captured output, trimmed, shown beneath the headline.
    pub detail: Option<String>,
}

/// What a [`Completion`] holds.
pub ghost struct CompletionModel {
    pub glyph: Glyph,
    pub headline: Seq<char>,
    pub detail: Option<Seq<char>>,
}

impl View for Completion {
    type V = CompletionModel;

    open spec fn view(&self) -> CompletionModel {
        CompletionModel {
            glyph: self.glyph,
            headline: self.headline@,
            detail: match self.detail {
                Some(text) => Some(text@),
                None => None,
            },
        }
    }
}

/// Exit code 0 is success; every other exit code is failure.
pub open spec fn glyph_of(exit_code: i32) -> Glyph {
    if exit_code == 0 {
        Glyph::Success
    } else {
        Glyph::Failure
    }
}

/// The character that shows a glyph.
pub open spec fn glyph_text(glyph: Glyph) -> Seq<char> {
    match glyph {
        Glyph::Success => "✓"@,
        Glyph::Failure => "✗"@,
    }
}

/// The line shown before a command whose output is shown live.
pub open spec fn start_text(label: Seq<char>) -> Seq<char> {
    "⚡ "@ + label
}

/// The line that closes the indicator: a spinner ends with the glyph after its
/// label, live output with a sentence that starts with the glyph.
pub open spec fn headline_text(label: Seq<char>, capture_output: bool, exit_code: i32) -> Seq<
    char,
> {
    if capture_output {
        label + " "@ + glyph_text(glyph_of(exit_code))
    } else if exit_code == 0 {
        glyph_text(Glyph::Success) + " "@ + label + " completed successfully!"@
    } else {
        glyph_text(Glyph::Failure) + " "@ + label + " failed!"@
    }
}

/// Captured output is shown only for a command that failed, and only where
/// something is left of it once the white space around it is gone.
pub open spec fn detail_text(capture_output: bool, exit_code: i32, output: Seq<char>) -> Option<
    Seq<char>,
> {
    if capture_output && exit_code != 0 && trimmed(output).len() > 0 {
        Some(trimmed(output))
    } else {
        None
    }
}

/// What the indicator shows for a command that ended with `exit_code` and
/// `output`.
pub open spec fn completion_of(
    label: Seq<char>,
    capture_output: bool,
    exit_code: i32,
    output: Seq<char>,
) -> CompletionModel {
    CompletionModel {
        glyph: glyph_of(exit_code),
        headline: headline_text(label, capture_output, exit_code),
        detail: detail_text(capture_output, exit_code, output),
    }
}

/// Opens the indicator for one execution.
pub fn report(label: &str, capture_output: bool) -> (scope: ProgressScope)
    ensures
        scope.label@ == label@,
        scope.capture_output == capture_output,
{
    ProgressScope { label: String::from_str(label), capture_output }
}

fn glyph_str(glyph: Glyph) -> (text: &'static str)
    ensures
        text@ == glyph_text(glyph),
{
    match glyph {
        Glyph::Success => "✓",
        Glyph::Failure => "✗",
    }
}

impl ProgressScope {
    /// The line printed before the command starts; none where a spinner
    /// carries the label.
    pub fn start_line(&self) -> (line: Option<String>)
        ensures
            match line {
                Some(text) => !self.capture_output && text@ == start_text(self.label@),
                None => self.capture_output,
            },
    {
        if self.capture_output {
            None
        } else {
            let mut line = String::from_str("⚡ ");
            line.append(self.label.as_str());
            Some(line)
        }
    }

    /// Closes the indicator with the result of the command.
    pub fn finish(&self, result: &ExecutionResult) -> (completion: Completion)
        ensures
            completion@ == completion_of(
                self.label@,
                self.capture_output,
                result.exit_code,
                result.output@,
            ),
    {
        let glyph = if result.exit_code == 0 {
            Glyph::Success
        } else {
            Glyph::Failure
        };
        let headline = if self.capture_output {
            let mut line = String::from_str(self.label.as_str());
            line.append(" ");
            line.append(glyph_str(glyph));
            line
        } else {
            let mut line = String::from_str(glyph_str(glyph));
            line.append(" ");
            line.append(self.label.as_str());
            if result.exit_code == 0 {
                line.append(" completed successfully!");
            } else {
                line.append(" failed!");
            }
            line
        };
        let shown = trim(result.output.as_str());
        let detail = if self.capture_output && result.exit_code != 0 && shown.unicode_len() > 0 {
            Some(String::from_str(shown))
        } else {
            None
        };
        Completion { glyph, headline, detail }
    }
}

/// What running one command under the indicator comes to, once the operating
/// system has reported of it: the result of the command and what the
/// indicator shows at its end. A command that could not be launched, or whose
/// output could not be read, gives the error and shows nothing.
pub fn run_with_spinner(spinner_text: &str, hide_output: bool, process: &ProcessReport) -> (run:
    Result<(ExecutionResult, Completion), ExecutionError>)
    ensures
        match *process {
            ProcessReport::Completed { code, stdout, stderr } => run matches Ok(done)
                && done.0.exit_code == normal_exit_code(code) && done.0.output@ == combined_output(
                stdout@,
                stderr@,
                hide_output,
            ) && done.1@ == completion_of(
                spinner_text@,
                hide_output,
                normal_exit_code(code),
                combined_output(stdout@, stderr@, hide_output),
            ),
            ProcessReport::SpawnFailed => run == Err::<
                (ExecutionResult, Completion),
                ExecutionError,
            >(ExecutionError::Spawn),
            ProcessReport::ReadFailed => run == Err::<(ExecutionResult, Completion), ExecutionError>(
                ExecutionError::Io,
            ),
        },
{
    match normalize(process, hide_output) {
        Ok(result) => {
            let completion = report(spinner_text, hide_output).finish(&result);
            Ok((result, completion))
        },
        Err(error) => Err(error),
    }
}

} // verus!
