//! The course of a sequential export.
//!
//! An export is a run through fixed phases. The run itself does nothing to
//! the outside world: it says which step is due, the host carries the step
//! out and reports how it went, and the run moves on. Its progress can be
//! read at any time.

use vstd::prelude::*;
use vstd::string::*;
use crate::diagnostics::{diagnosis, parse_ffmpeg_error};
use crate::sequential::{
    MANIFEST_NAME, clip_file_name, clip_file_name_of, filler_file_name, filler_file_name_of,
};
use crate::text::{copy_texts, decimal, opt_text, push_decimal, texts};
use crate::timeline::Gap;

verus! {

/// One hundred percent, in millionths of a percent.
pub const FULL: u32 = 100_000_000;

/// The phases of an export.
#[derive(Clone, Copy, Debug, PartialEq, Eq, Structural)]
pub enum Phase {
    Idle,
    Preparing,
    Validating,
    BuildingFilterGraph,
    ProcessingClips,
    EncodingVideo,
    Concatenating,
    Finalizing,
    ValidatingOutput,
    Complete,
    Error,
}

impl Phase {
    /// The phase's name as callers show it.
    pub open spec fn spec_label(self) -> Seq<char> {
        match self {
            Phase::Idle => "idle"@,
            Phase::Preparing => "preparing"@,
            Phase::Validating => "validating"@,
            Phase::BuildingFilterGraph => "building filter graph"@,
            Phase::ProcessingClips => "processing clips"@,
            Phase::EncodingVideo => "encoding video"@,
            Phase::Concatenating => "concatenating"@,
            Phase::Finalizing => "finalizing"@,
            Phase::ValidatingOutput => "validating output"@,
            Phase::Complete => "complete"@,
            Phase::Error => "error"@,
        }
    }

    /// The phase's name as callers show it.
    pub fn label(self) -> (name: &'static str)
        ensures
            name@ == self.spec_label(),
    {
        match self {
            Phase::Idle => "idle",
            Phase::Preparing => "preparing",
            Phase::Validating => "validating",
            Phase::BuildingFilterGraph => "building filter graph",
            Phase::ProcessingClips => "processing clips",
            Phase::EncodingVideo => "encoding video",
            Phase::Concatenating => "concatenating",
            Phase::Finalizing => "finalizing",
            Phase::ValidatingOutput => "validating output",
            Phase::Complete => "complete",
            Phase::Error => "error",
        }
    }

    /// Whether an export that reached this phase has ended.
    pub open spec fn spec_is_terminal(self) -> bool {
        self == Phase::Complete || self == Phase::Error
    }

    /// Whether an export that reached this phase has ended.
    #[verifier::when_used_as_spec(spec_is_terminal)]
    pub fn is_terminal(self) -> (r: bool)
        ensures
            r == self.spec_is_terminal(),
    {
        match self {
            Phase::Complete => true,
            Phase::Error => true,
            _ => false,
        }
    }
}

/// How far an export has come.
pub struct ExportProgress {
    /// Millionths of a percent, from 0 to [`FULL`].
    pub percentage: u32,
    pub status: Phase,
    /// What ended the export, if it failed.
    pub error: Option<String>,
    /// Which clip is being rendered, as "number/count".
    pub current_clip: Option<String>,
}

impl ExportProgress {
    /// The progress of an export that has not started.
    pub fn idle() -> (p: ExportProgress)
        ensures
            p.percentage == 0,
            p.status == Phase::Idle,
            p.error is None,
            p.current_clip is None,
    {
        ExportProgress { percentage: 0, status: Phase::Idle, error: None, current_clip: None }
    }

    /// A copy of this progress.
    pub fn snapshot(&self) -> (p: ExportProgress)
        ensures
            p.percentage == self.percentage,
            p.status == self.status,
            opt_text(p.error) == opt_text(self.error),
            opt_text(p.current_clip) == opt_text(self.current_clip),
    {
        ExportProgress {
            percentage: self.percentage,
            status: self.status,
            error: match &self.error {
                Some(e) => Some(e.clone()),
                None => None,
            },
            current_clip: match &self.current_clip {
                Some(c) => Some(c.clone()),
                None => None,
            },
        }
    }
}

/// The share of the work done when a single-pass export enters `phase`, in
/// millionths of a percent; nothing for a phase that such an export does
/// not go through.
pub open spec fn single_pass_share(phase: Phase) -> Option<u32> {
    match phase {
        Phase::Preparing => Some(0u32),
        Phase::BuildingFilterGraph => Some(20_000_000u32),
        Phase::ProcessingClips => Some(40_000_000u32),
        Phase::EncodingVideo => Some(60_000_000u32),
        Phase::Complete => Some(FULL),
        _ => None,
    }
}

impl ExportProgress {
    /// The progress of a single-pass export that enters `phase`.
    pub fn single_pass(phase: Phase) -> (r: Option<ExportProgress>)
        ensures
            match r {
                Some(p) => single_pass_share(phase) == Some(p.percentage) && p.status == phase
                    && p.error is None && p.current_clip is None,
                None => single_pass_share(phase) is None,
            },
    {
        let share: u32 = match phase {
            Phase::Preparing => 0,
            Phase::BuildingFilterGraph => 20_000_000,
            Phase::ProcessingClips => 40_000_000,
            Phase::EncodingVideo => 60_000_000,
            Phase::Complete => FULL,
            _ => {
                return None;
            },
        };
        Some(ExportProgress { percentage: share, status: phase, error: None, current_clip: None })
    }

    /// Records that the export failed for the reason `message`.
    pub fn fail(&mut self, message: String)
        ensures
            final(self).status == Phase::Error,
            final(self).error == Some(message),
            final(self).percentage == old(self).percentage,
            final(self).current_clip == old(self).current_clip,
    {
        self.status = Phase::Error;
        self.error = Some(message);
    }
}

/// What the caller is told when the transcoding program cannot be found.
pub fn tool_missing_message(reason: &str) -> (s: String)
    ensures
        s@ == "FFmpeg not found: "@ + reason@,
{
    let mut s = String::from_str("FFmpeg not found: ");
    s.append(reason);
    s
}

/// What the caller is told when the single run of a single-pass export
/// failed with the diagnostic output `diagnostics`.
pub fn single_pass_failure(diagnostics: &str) -> (s: String)
    ensures
        s@ == "Export failed: "@ + diagnostics@,
{
    let mut s = String::from_str("Export failed: ");
    s.append(diagnostics);
    s
}

/// How a step went.
pub enum Outcome {
    /// The step was carried out.
    Done,
    /// The step failed. For a step that runs the transcoding program the
    /// text is the program's diagnostic output; for any other step it is
    /// the reason.
    Failed(String),
}

/// What the host is to do next.
pub enum Step {
    /// Look at the clips' source files and validate the clips.
    ValidateSources,
    /// Render the clip at this position of the timeline to its file.
    RenderClip(usize),
    /// Render the filler for this gap to its file.
    RenderFiller(Gap),
    /// Write the list of files to join.
    WriteManifest,
    /// Join the files into the output.
    Concatenate,
    /// Look at the output file and check it.
    ValidateOutput,
    /// Remove the intermediate files; the export has ended, with the path
    /// of the output or with the reason of its failure.
    Finished(Result<String, String>),
}

/// A sequential export under way.
pub struct ExportRun {
    pub progress: ExportProgress,
    /// The ids of the clips in timeline order.
    pub ids: Vec<String>,
    pub output_path: String,
    /// How many clips have been rendered.
    pub done: usize,
    /// The gaps to fill, in timeline order.
    pub gaps: Vec<Gap>,
    /// For each gap whose filler was tried, whether it was made.
    pub filled: Vec<bool>,
    pub manifest_written: bool,
    /// What the caller is told if the export failed.
    pub failure: Option<String>,
}

/// The label of the clip being rendered.
pub open spec fn clip_label(number: nat, count: nat) -> Seq<char> {
    decimal(number) + "/"@ + decimal(count)
}

/// The share of the work done when `done` of `total` clips are rendered, in
/// millionths of a percent: from ten to seventy percent, in proportion.
pub open spec fn clip_progress(done: int, total: int) -> int {
    10_000_000 + (done * 60_000_000) / total
}

/// What the progress records when rendering a clip failed.
pub open spec fn clip_error_text(number: nat, id: Seq<char>, cause: Seq<char>) -> Seq<char> {
    "Clip "@ + decimal(number) + " ("@ + id + "): "@ + cause
}

/// What the caller is told when rendering a clip failed.
pub open spec fn clip_failure_text(number: nat, id: Seq<char>, cause: Seq<char>) -> Seq<char> {
    "Failed to process clip "@ + decimal(number) + " ("@ + id + "): "@ + cause
}

impl ExportRun {
    /// Whether the run is in a state that a run can reach.
    pub open spec fn wf(&self) -> bool {
        let n = self.ids.len();
        let p = self.progress;
        &&& self.done <= n
        &&& self.filled.len() <= self.gaps.len()
        &&& p.percentage <= FULL
        &&& match p.status {
            Phase::Validating => {
                &&& self.done == 0
                &&& self.filled.len() == 0
                &&& !self.manifest_written
                &&& p.percentage == 0
                &&& p.current_clip is None
                &&& p.error is None
                &&& self.failure is None
            },
            Phase::ProcessingClips => {
                &&& self.done < n
                &&& self.filled.len() == 0
                &&& !self.manifest_written
                &&& p.percentage == clip_progress(self.done as int, n as int)
                &&& opt_text(p.current_clip) == Some(clip_label((self.done + 1) as nat, n as nat))
                &&& p.error is None
                &&& self.failure is None
            },
            Phase::Concatenating => {
                &&& self.done == n
                &&& !self.manifest_written
                &&& p.percentage == 70_000_000
                &&& p.current_clip is None
                &&& p.error is None
                &&& self.failure is None
            },
            Phase::Finalizing => {
                &&& self.done == n
                &&& self.filled.len() == self.gaps.len()
                &&& self.manifest_written
                &&& p.percentage == 75_000_000
                &&& p.current_clip is None
                &&& p.error is None
                &&& self.failure is None
            },
            Phase::ValidatingOutput => {
                &&& self.done == n
                &&& self.filled.len() == self.gaps.len()
                &&& self.manifest_written
                &&& p.percentage == 90_000_000
                &&& p.current_clip is None
                &&& p.error is None
                &&& self.failure is None
            },
            Phase::Complete => {
                &&& self.done == n
                &&& self.filled.len() == self.gaps.len()
                &&& self.manifest_written
                &&& p.percentage == FULL
                &&& p.current_clip is None
                &&& p.error is None
                &&& self.failure is None
            },
            Phase::Error => p.error is Some && self.failure is Some,
            _ => false,
        }
    }

    /// Whether `step` is the step the run waits for.
    pub open spec fn is_pending(&self, step: Step) -> bool {
        match self.progress.status {
            Phase::Validating => step is ValidateSources,
            Phase::ProcessingClips => step == Step::RenderClip(self.done),
            Phase::Concatenating => if self.filled.len() < self.gaps.len() {
                step == Step::RenderFiller(self.gaps[self.filled.len() as int])
            } else {
                step is WriteManifest
            },
            Phase::Finalizing => step is Concatenate,
            Phase::ValidatingOutput => step is ValidateOutput,
            Phase::Complete => step matches Step::Finished(Ok(path)) && path@
                == self.output_path@,
            Phase::Error => step matches Step::Finished(Err(reason)) && Some(reason@) == opt_text(
                self.failure,
            ),
            _ => false,
        }
    }

    /// Whether `after` is the run that `before` becomes when the pending
    /// step went as `outcome` says.
    pub open spec fn follows(before: ExportRun, outcome: Outcome, after: ExportRun) -> bool {
        let n = before.ids.len();
        &&& texts(after.ids@) == texts(before.ids@)
        &&& after.output_path@ == before.output_path@
        &&& after.gaps@ == before.gaps@
        &&& match before.progress.status {
            Phase::Validating => match outcome {
                Outcome::Done => if n == 0 {
                    after.failed_unchanged(before, "No clips to export"@, "No clips to export"@)
                } else {
                    after.progress.status == Phase::ProcessingClips && after.done == 0
                },
                Outcome::Failed(reason) => after.failed_unchanged(before, reason@, reason@),
            },
            Phase::ProcessingClips => match outcome {
                Outcome::Done => if before.done + 1 < n {
                    after.progress.status == Phase::ProcessingClips && after.done == before.done
                        + 1
                } else {
                    after.progress.status == Phase::Concatenating && after.filled@
                        == Seq::<bool>::empty()
                },
                Outcome::Failed(diagnostics) => after.failed_unchanged(
                    before,
                    clip_error_text(
                        (before.done + 1) as nat,
                        before.ids[before.done as int]@,
                        diagnosis(diagnostics@),
                    ),
                    clip_failure_text(
                        (before.done + 1) as nat,
                        before.ids[before.done as int]@,
                        diagnosis(diagnostics@),
                    ),
                ),
            },
            Phase::Concatenating => if before.filled.len() < before.gaps.len() {
                after.progress.status == Phase::Concatenating && after.filled@
                    == before.filled@.push(outcome is Done)
            } else {
                match outcome {
                    Outcome::Done => after.progress.status == Phase::Finalizing,
                    Outcome::Failed(reason) => after.failed_unchanged(before, reason@, reason@),
                }
            },
            Phase::Finalizing => match outcome {
                Outcome::Done => after.progress.status == Phase::ValidatingOutput,
                Outcome::Failed(diagnostics) => after.failed_unchanged(
                    before,
                    "Concatenation failed: "@ + diagnosis(diagnostics@),
                    "Export failed during concatenation: "@ + diagnosis(diagnostics@),
                ),
            },
            Phase::ValidatingOutput => after.progress.status == Phase::Complete,
            _ => {
                &&& after.progress.status == before.progress.status
                &&& after.progress.percentage == before.progress.percentage
                &&& opt_text(after.progress.error) == opt_text(before.progress.error)
                &&& opt_text(after.progress.current_clip) == opt_text(
                    before.progress.current_clip,
                )
                &&& opt_text(after.failure) == opt_text(before.failure)
                &&& after.done == before.done
                &&& after.filled@ == before.filled@
                &&& after.manifest_written == before.manifest_written
            },
        }
    }

    /// Whether this run is `before` after it failed: in the error phase,
    /// with the given texts for the progress and for the caller, and
    /// otherwise as it was.
    pub open spec fn failed_unchanged(
        &self,
        before: ExportRun,
        error: Seq<char>,
        failure: Seq<char>,
    ) -> bool {
        &&& self.progress.status == Phase::Error
        &&& self.progress.percentage == before.progress.percentage
        &&& opt_text(self.progress.current_clip) == opt_text(before.progress.current_clip)
        &&& opt_text(self.progress.error) == Some(error)
        &&& opt_text(self.failure) == Some(failure)
        &&& self.done == before.done
        &&& self.filled@ == before.filled@
        &&& self.manifest_written == before.manifest_written
    }

    /// Starts the export of the clips with the given ids, in timeline
    /// order, with the given gaps to fill. The first step is to validate
    /// the sources.
    pub fn start(ids: &Vec<String>, gaps: &Vec<Gap>, output_path: &str) -> (run: ExportRun)
        ensures
            run.wf(),
            run.progress.status == Phase::Validating,
            run.is_pending(Step::ValidateSources),
            texts(run.ids@) == texts(ids@),
            run.gaps@ == gaps@,
            run.output_path@ == output_path@,
    {
        let mut own_gaps: Vec<Gap> = Vec::new();
        let mut i: usize = 0;
        while i < gaps.len()
            invariant
                i <= gaps.len(),
                own_gaps@ == gaps@.take(i as int),
            decreases gaps.len() - i,
        {
            own_gaps.push(gaps[i]);
            assert(own_gaps@ =~= gaps@.take(i + 1));
            i += 1;
        }
        assert(gaps@.take(gaps.len() as int) =~= gaps@);
        ExportRun {
            progress: ExportProgress {
                percentage: 0,
                status: Phase::Validating,
                error: None,
                current_clip: None,
            },
            ids: copy_texts(ids),
            output_path: String::from_str(output_path),
            done: 0,
            gaps: own_gaps,
            filled: Vec::new(),
            manifest_written: false,
            failure: None,
        }
    }

    fn fail(&mut self, error: String, failure: String)
        ensures
            final(self).failed_unchanged(*old(self), error@, failure@),
            final(self).ids == old(self).ids,
            final(self).output_path == old(self).output_path,
            final(self).gaps == old(self).gaps,
    {
        self.progress.status = Phase::Error;
        self.progress.error = Some(error);
        self.failure = Some(failure);
    }

    fn begin_clip(&mut self, index: usize)
        requires
            index < old(self).ids.len(),
        ensures
            final(self).progress.status == Phase::ProcessingClips,
            final(self).done == index,
            final(self).progress.percentage == clip_progress(
                index as int,
                old(self).ids.len() as int,
            ),
            10_000_000 <= final(self).progress.percentage <= 70_000_000,
            opt_text(final(self).progress.current_clip) == Some(
                clip_label((index + 1) as nat, old(self).ids.len() as nat),
            ),
            final(self).progress.error == old(self).progress.error,
            final(self).failure == old(self).failure,
            final(self).ids == old(self).ids,
            final(self).output_path == old(self).output_path,
            final(self).gaps == old(self).gaps,
            final(self).filled == old(self).filled,
            final(self).manifest_written == old(self).manifest_written,
    {
        let n = self.ids.len();
        let scaled: u128 = (index as u128) * 60_000_000;
        let share: u128 = scaled / (n as u128);
        proof {
            assert(index * 60_000_000 <= n * 60_000_000) by (nonlinear_arith)
                requires
                    index <= n,
            ;
            vstd::arithmetic::div_mod::lemma_div_is_ordered(
                index * 60_000_000,
                n * 60_000_000,
                n as int,
            );
            vstd::arithmetic::div_mod::lemma_div_multiples_vanish(60_000_000, n as int);
            assert(n * 60_000_000 == 60_000_000 * n) by (nonlinear_arith);
        }
        let mut label = String::new();
        push_decimal(&mut label, (index + 1) as u128);
        label.append("/");
        push_decimal(&mut label, n as u128);
        assert(label@ =~= clip_label((index + 1) as nat, n as nat));
        self.progress.status = Phase::ProcessingClips;
        self.done = index;
        self.progress.percentage = 10_000_000 + share as u32;
        self.progress.current_clip = Some(label);
    }

    fn enter(&mut self, phase: Phase, percentage: u32)
        ensures
            final(self).progress.status == phase,
            final(self).progress.percentage == percentage,
            final(self).progress.current_clip is None,
            final(self).progress.error == old(self).progress.error,
            final(self).failure == old(self).failure,
            final(self).ids == old(self).ids,
            final(self).output_path == old(self).output_path,
            final(self).gaps == old(self).gaps,
            final(self).filled == old(self).filled,
            final(self).done == old(self).done,
            final(self).manifest_written == old(self).manifest_written,
    {
        self.progress.status = phase;
        self.progress.percentage = percentage;
        self.progress.current_clip = None;
    }

    fn clip_messages(&self, diagnostics: &str) -> (texts: (String, String))
        requires
            self.done < self.ids.len(),
        ensures
            texts.0@ == clip_error_text(
                (self.done + 1) as nat,
                self.ids[self.done as int]@,
                diagnosis(diagnostics@),
            ),
            texts.1@ == clip_failure_text(
                (self.done + 1) as nat,
                self.ids[self.done as int]@,
                diagnosis(diagnostics@),
            ),
    {
        let cause = parse_ffmpeg_error(diagnostics);
        let mut tail = String::new();
        push_decimal(&mut tail, (self.done + 1) as u128);
        tail.append(" (");
        tail.append(self.ids[self.done].as_str());
        tail.append("): ");
        tail.append(cause.as_str());
        let mut error = String::from_str("Clip ");
        error.append(tail.as_str());
        let mut failure = String::from_str("Failed to process clip ");
        failure.append(tail.as_str());
        assert(error@ =~= clip_error_text(
            (self.done + 1) as nat,
            self.ids[self.done as int]@,
            diagnosis(diagnostics@),
        ));
        assert(failure@ =~= clip_failure_text(
            (self.done + 1) as nat,
            self.ids[self.done as int]@,
            diagnosis(diagnostics@),
        ));
        (error, failure)
    }

    /// The step the run waits for.
    pub fn pending(&self) -> (step: Step)
        requires
            self.wf(),
        ensures
            self.is_pending(step),
    {
        match self.progress.status {
            Phase::Validating => Step::ValidateSources,
            Phase::ProcessingClips => Step::RenderClip(self.done),
            Phase::Concatenating => {
                if self.filled.len() < self.gaps.len() {
                    Step::RenderFiller(self.gaps[self.filled.len()])
                } else {
                    Step::WriteManifest
                }
            },
            Phase::Finalizing => Step::Concatenate,
            Phase::ValidatingOutput => Step::ValidateOutput,
            Phase::Complete => Step::Finished(Ok(self.output_path.clone())),
            _ => {
                match &self.failure {
                    Some(reason) => Step::Finished(Err(reason.clone())),
                    None => Step::ValidateSources,
                }
            },
        }
    }

    /// Takes note of how the pending step went and says what to do next. A
    /// failed filler is passed over; any other failure ends the export.
    /// Whatever the check of the output says, the export completes. A run
    /// that has ended stays as it is.
    pub fn advance(&mut self, outcome: Outcome) -> (step: Step)
        requires
            old(self).wf(),
        ensures
            final(self).wf(),
            final(self).is_pending(step),
            ExportRun::follows(*old(self), outcome, *final(self)),
            final(self).progress.percentage >= old(self).progress.percentage,
    {
        let n = self.ids.len();
        match self.progress.status {
            Phase::Validating => {
                match outcome {
                    Outcome::Done => {
                        if n == 0 {
                            self.fail(
                                String::from_str("No clips to export"),
                                String::from_str("No clips to export"),
                            );
                        } else {
                            self.begin_clip(0);
                        }
                    },
                    Outcome::Failed(reason) => {
                        let copy = reason.clone();
                        self.fail(reason, copy);
                    },
                }
            },
            Phase::ProcessingClips => {
                match outcome {
                    Outcome::Done => {
                        proof {
                            lemma_clip_progress_grows(self.done as int, n as int);
                        }
                        if self.done + 1 < n {
                            self.begin_clip(self.done + 1);
                        } else {
                            self.done = n;
                            self.filled = Vec::new();
                            self.enter(Phase::Concatenating, 70_000_000);
                        }
                    },
                    Outcome::Failed(diagnostics) => {
                        let messages = self.clip_messages(diagnostics.as_str());
                        self.fail(messages.0, messages.1);
                    },
                }
            },
            Phase::Concatenating => {
                if self.filled.len() < self.gaps.len() {
                    let made = match outcome {
                        Outcome::Done => true,
                        Outcome::Failed(_) => false,
                    };
                    self.filled.push(made);
                } else {
                    match outcome {
                        Outcome::Done => {
                            self.manifest_written = true;
                            self.enter(Phase::Finalizing, 75_000_000);
                        },
                        Outcome::Failed(reason) => {
                            let copy = reason.clone();
                            self.fail(reason, copy);
                        },
                    }
                }
            },
            Phase::Finalizing => {
                match outcome {
                    Outcome::Done => {
                        self.enter(Phase::ValidatingOutput, 90_000_000);
                    },
                    Outcome::Failed(diagnostics) => {
                        let cause = parse_ffmpeg_error(diagnostics.as_str());
                        let mut error = String::from_str("Concatenation failed: ");
                        error.append(cause.as_str());
                        let mut failure = String::from_str("Export failed during concatenation: ");
                        failure.append(cause.as_str());
                        self.fail(error, failure);
                    },
                }
            },
            Phase::ValidatingOutput => {
                self.enter(Phase::Complete, FULL);
            },
            _ => {},
        }
        self.pending()
    }

    /// A copy of the run's progress.
    pub fn progress(&self) -> (p: ExportProgress)
        ensures
            p.percentage == self.progress.percentage,
            p.status == self.progress.status,
            opt_text(p.error) == opt_text(self.progress.error),
            opt_text(p.current_clip) == opt_text(self.progress.current_clip),
    {
        self.progress.snapshot()
    }
}

/// Whether a filler was made for the gap before the clip at `index`.
pub open spec fn filler_made(gaps: Seq<Gap>, filled: Seq<bool>, index: int) -> bool {
    exists|k: int|
        0 <= k < filled.len() && k < gaps.len() && (#[trigger] gaps[k]).before == index
            && filled[k]
}

/// The names of the files that make up the first `count` clips of the
/// timeline: each clip's file, preceded by the filler of the gap before it
/// where one was made.
pub open spec fn segment_names(gaps: Seq<Gap>, filled: Seq<bool>, count: nat) -> Seq<Seq<char>>
    decreases count,
{
    if count == 0 {
        Seq::empty()
    } else {
        let index = (count - 1) as nat;
        let filler = if filler_made(gaps, filled, index as int) {
            seq![filler_file_name_of(index)]
        } else {
            Seq::empty()
        };
        segment_names(gaps, filled, index) + filler + seq![clip_file_name_of(index)]
    }
}

/// The names of the files of the first `count` clips.
pub open spec fn clip_names(count: nat) -> Seq<Seq<char>>
    decreases count,
{
    if count == 0 {
        Seq::empty()
    } else {
        clip_names((count - 1) as nat).push(clip_file_name_of((count - 1) as nat))
    }
}

/// The names of the fillers that were made among the first `count` gaps.
pub open spec fn filler_names(gaps: Seq<Gap>, filled: Seq<bool>, count: nat) -> Seq<Seq<char>>
    decreases count,
{
    if count == 0 {
        Seq::empty()
    } else {
        let k = (count - 1) as int;
        let rest = filler_names(gaps, filled, (count - 1) as nat);
        if filled[k] {
            rest.push(filler_file_name_of(gaps[k].before as nat))
        } else {
            rest
        }
    }
}

impl ExportRun {
    /// The names of the intermediate files made so far: the files of the
    /// rendered clips, the fillers that were made, and the list of files to
    /// join once it is written.
    pub open spec fn intermediate_names(&self) -> Seq<Seq<char>> {
        clip_names(self.done as nat) + filler_names(
            self.gaps@,
            self.filled@,
            self.filled.len() as nat,
        ) + if self.manifest_written {
            seq![MANIFEST_NAME@]
        } else {
            Seq::empty()
        }
    }

    /// The names of the intermediate files made so far, which are to be
    /// removed when the export ends.
    pub fn intermediate_files(&self) -> (names: Vec<String>)
        requires
            self.wf(),
        ensures
            texts(names@) == self.intermediate_names(),
    {
        let mut names: Vec<String> = Vec::new();
        let mut i: usize = 0;
        while i < self.done
            invariant
                i <= self.done,
                texts(names@) == clip_names(i as nat),
            decreases self.done - i,
        {
            let ghost before = names@;
            names.push(clip_file_name(i));
            assert(texts(names@) =~= texts(before).push(clip_file_name_of(i as nat)));
            i += 1;
        }
        let mut k: usize = 0;
        while k < self.filled.len()
            invariant
                k <= self.filled.len() <= self.gaps.len(),
                texts(names@) == clip_names(self.done as nat) + filler_names(
                    self.gaps@,
                    self.filled@,
                    k as nat,
                ),
            decreases self.filled.len() - k,
        {
            let ghost before = names@;
            if self.filled[k] {
                names.push(filler_file_name(self.gaps[k].before));
                assert(texts(names@) =~= texts(before).push(
                    filler_file_name_of(self.gaps[k as int].before as nat),
                ));
            }
            assert(texts(names@) =~= clip_names(self.done as nat) + filler_names(
                self.gaps@,
                self.filled@,
                (k + 1) as nat,
            ));
            k += 1;
        }
        if self.manifest_written {
            let ghost before = names@;
            names.push(String::from_str(MANIFEST_NAME));
            assert(texts(names@) =~= texts(before).push(MANIFEST_NAME@));
        }
        assert(texts(names@) =~= self.intermediate_names());
        names
    }

    fn has_filler(&self, index: usize) -> (r: bool)
        requires
            self.wf(),
        ensures
            r == filler_made(self.gaps@, self.filled@, index as int),
    {
        let mut k: usize = 0;
        while k < self.filled.len()
            invariant
                k <= self.filled.len() <= self.gaps.len(),
                forall|j: int|
                    0 <= j < k ==> !((#[trigger] self.gaps[j]).before == index && self.filled[j]),
            decreases self.filled.len() - k,
        {
            if self.gaps[k].before == index && self.filled[k] {
                return true;
            }
            k += 1;
        }
        false
    }

    /// The names of the files to join, in timeline order: for each rendered
    /// clip its file, preceded by the filler of the gap before it where one
    /// was made.
    pub fn segment_files(&self) -> (names: Vec<String>)
        requires
            self.wf(),
        ensures
            texts(names@) == segment_names(self.gaps@, self.filled@, self.done as nat),
    {
        let mut names: Vec<String> = Vec::new();
        let mut i: usize = 0;
        while i < self.done
            invariant
                i <= self.done,
                self.wf(),
                texts(names@) == segment_names(self.gaps@, self.filled@, i as nat),
            decreases self.done - i,
        {
            if self.has_filler(i) {
                let ghost list = names@;
                names.push(filler_file_name(i));
                assert(texts(names@) =~= texts(list).push(filler_file_name_of(i as nat)));
            }
            let ghost list = names@;
            names.push(clip_file_name(i));
            assert(texts(names@) =~= texts(list).push(clip_file_name_of(i as nat)));
            assert(texts(names@) =~= segment_names(self.gaps@, self.filled@, (i + 1) as nat));
            i += 1;
        }
        names
    }
}

/// Rendering one more clip never lowers the share of the work done.
pub proof fn lemma_clip_progress_grows(done: int, total: int)
    requires
        0 <= done < total,
    ensures
        10_000_000 <= clip_progress(done, total) <= clip_progress(done + 1, total) <= 70_000_000,
{
    assert(0 <= done * 60_000_000 <= (done + 1) * 60_000_000 <= total * 60_000_000)
        by (nonlinear_arith)
        requires
            0 <= done < total,
    ;
    vstd::arithmetic::div_mod::lemma_div_is_ordered(
        done * 60_000_000,
        (done + 1) * 60_000_000,
        total,
    );
    vstd::arithmetic::div_mod::lemma_div_is_ordered(
        (done + 1) * 60_000_000,
        total * 60_000_000,
        total,
    );
    vstd::arithmetic::div_mod::lemma_div_is_ordered(0, done * 60_000_000, total);
    vstd::arithmetic::div_mod::lemma_div_multiples_vanish(60_000_000, total);
    assert(total * 60_000_000 == 60_000_000 * total) by (nonlinear_arith);
}

} // verus!
