//! The build of the registry and of its bindings: which steps it takes, in
//! which order, and what becomes of a step that fails.
//!
//! The steps themselves are work for outside tools. Here stands what is
//! decided between them: the caller performs a step, reports how it ended,
//! and is told what to do next. Every failure ends the build.

use vstd::prelude::*;

verus! {

/// A step of the build.
#[derive(Clone, Copy, Debug, PartialEq, Eq, Structural)]
pub enum Step {
    /// Run the generator script over the extension descriptions of the
    /// system; it writes the table of extensions as native source.
    GenerateExtensions,
    /// Compile that table and the lookup source into one static archive.
    CompileArchive,
    /// Read the public header and write the binding declarations.
    GenerateBindings,
    /// Name the inputs on whose change the build has to run again.
    EmitMetadata,
}

/// How the generator script ran.
#[derive(Debug)]
pub enum ScriptRun {
    /// The script could not be started; the reason as text.
    NotStarted(String),
    /// The script ran to its end: whether it exited with status 0, and what
    /// it wrote to standard error.
    Exited { success: bool, stderr: String },
}

/// How a step ended.
#[derive(Debug)]
pub enum Outcome {
    Done,
    /// The step failed; what its tool reported.
    Failed(String),
}

/// A build that was given up: the step that failed and what its tool reported.
#[derive(Debug)]
pub struct Failure {
    pub step: Step,
    pub log: String,
}

/// What the build does next.
#[derive(Debug)]
pub enum Progress {
    Run(Step),
    Finished,
    Aborted(Failure),
}

impl Step {
    /// The place of the step in the build, counted from 0.
    pub open spec fn position(self) -> nat {
        match self {
            Step::GenerateExtensions => 0,
            Step::CompileArchive => 1,
            Step::GenerateBindings => 2,
            Step::EmitMetadata => 3,
        }
    }

    /// The step that follows, if any.
    pub open spec fn successor(self) -> Option<Step> {
        match self {
            Step::GenerateExtensions => Some(Step::CompileArchive),
            Step::CompileArchive => Some(Step::GenerateBindings),
            Step::GenerateBindings => Some(Step::EmitMetadata),
            Step::EmitMetadata => None,
        }
    }

    /// The step with which every build starts.
    pub fn first() -> (r: Step)
        ensures
            r == Step::GenerateExtensions,
            r.position() == 0,
    {
        Step::GenerateExtensions
    }

    /// The step that follows, if any.
    pub fn next(self) -> (r: Option<Step>)
        ensures
            r == self.successor(),
    {
        match self {
            Step::GenerateExtensions => Some(Step::CompileArchive),
            Step::CompileArchive => Some(Step::GenerateBindings),
            Step::GenerateBindings => Some(Step::EmitMetadata),
            Step::EmitMetadata => None,
        }
    }
}

/// The command line that runs the generator script: the script, the file it
/// is to write, and the extension descriptions at their place in the system.
pub open spec fn generator_command_text(output: Seq<char>) -> Seq<char> {
    "external/src/extensions.py "@ + output + " /usr/share/xcb/*.xml"@
}

/// The command line that runs the generator script so that it writes `output`.
pub fn generator_command(output: &str) -> (r: String)
    ensures
        r@ == generator_command_text(output@),
{
    let mut r = String::from_str("external/src/extensions.py ");
    r.append(output);
    r.append(" /usr/share/xcb/*.xml");
    r
}

/// Judges a run of the generator script. Only a run that started and exited
/// with status 0 is a success. Of a failed run the standard error is kept,
/// of one that never started the reason.
pub fn judge_script(run: ScriptRun) -> (r: Outcome)
    ensures
        match run {
            ScriptRun::Exited { success, stderr } => if success {
                r is Done
            } else {
                r == Outcome::Failed(stderr)
            },
            ScriptRun::NotStarted(reason) => r == Outcome::Failed(reason),
        },
{
    match run {
        ScriptRun::Exited { success, stderr } => if success {
            Outcome::Done
        } else {
            Outcome::Failed(stderr)
        },
        ScriptRun::NotStarted(reason) => Outcome::Failed(reason),
    }
}

/// What follows the step `step` that ended with `outcome`: the next step, the
/// end of the build after the last one, or, after a failure, the end of the
/// build with the failed step and its report. No step is tried again.
pub fn after(step: Step, outcome: Outcome) -> (r: Progress)
    ensures
        match outcome {
            Outcome::Done => match step.successor() {
                Some(next) => r == Progress::Run(next),
                None => r is Finished,
            },
            Outcome::Failed(log) => r == Progress::Aborted(Failure { step, log }),
        },
{
    match outcome {
        Outcome::Done => match step.next() {
            Some(next) => Progress::Run(next),
            None => Progress::Finished,
        },
        Outcome::Failed(log) => Progress::Aborted(Failure { step, log }),
    }
}

/// The lines that tell the build tool what to link and on which inputs the
/// archive depends: the lookup source, its header, and the header that the
/// bindings are read from.
pub fn metadata() -> (r: Vec<String>)
    ensures
        r@.len() == 4,
        r@[0]@ == "cargo:rustc-link-lib=xcb_errors"@,
        r@[1]@ == "cargo:rerun-if-changed=external/src/xcb_errors.c"@,
        r@[2]@ == "cargo:rerun-if-changed=external/src/xcb_errors.h"@,
        r@[3]@ == "cargo:rerun-if-changed=external/src/errors.h"@,
{
    let mut r: Vec<String> = Vec::new();
    r.push(String::from_str("cargo:rustc-link-lib=xcb_errors"));
    r.push(String::from_str("cargo:rerun-if-changed=external/src/xcb_errors.c"));
    r.push(String::from_str("cargo:rerun-if-changed=external/src/xcb_errors.h"));
    r.push(String::from_str("cargo:rerun-if-changed=external/src/errors.h"));
    r
}

/// The steps stand in one line: the first has place 0, each step is followed
/// by the one at the next place, and only the last, at place 3, is followed
/// by none. So a build without a failure takes each step once, in order.
pub proof fn lemma_steps_in_order(step: Step)
    ensures
        step.position() <= 3,
        step.position() == 0 <==> step == Step::GenerateExtensions,
        step.successor() matches Some(next) ==> next.position() == step.position() + 1,
        step.successor() is None <==> step.position() == 3,
{
}

} // verus!
