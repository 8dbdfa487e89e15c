//! Checking the file an export produced.

use vstd::prelude::*;
use crate::model::VideoInfo;

verus! {

/// An output file smaller than this many bytes cannot be a video.
pub const MIN_OUTPUT_SIZE: u64 = 1024;

/// The output may be this many microseconds longer or shorter than
/// expected before it is worth a warning.
pub const DRIFT_TOLERANCE: i64 = 500_000;

/// What the host found at the output path.
pub enum OutputProbe {
    /// Nothing was created.
    Missing,
    /// Something was created, but its metadata cannot be read.
    Unreadable,
    /// A file of `size` bytes, and what the probe made of it, if anything.
    Found { size: u64, info: Option<VideoInfo> },
}

/// Why an output file is no good.
#[derive(Clone, Copy, Debug, PartialEq, Eq, Structural)]
pub enum OutputError {
    OutputMissing,
    OutputUnreadable,
    OutputTooSmall { size: u64 },
    ProbeFailure,
}

/// What is odd about an output file that is otherwise good.
#[derive(Clone, Copy, Debug, PartialEq, Eq, Structural)]
pub struct OutputReport {
    /// The length differs from the expected one by more than the tolerance.
    pub duration_drifted: bool,
    /// The picture has no width or no height.
    pub no_picture: bool,
}

impl OutputReport {
    /// Whether there is anything to warn about.
    pub open spec fn spec_has_warnings(&self) -> bool {
        self.duration_drifted || self.no_picture
    }

    /// Whether there is anything to warn about.
    #[verifier::when_used_as_spec(spec_has_warnings)]
    pub fn has_warnings(&self) -> (r: bool)
        ensures
            r == self.spec_has_warnings(),
    {
        self.duration_drifted || self.no_picture
    }
}

/// Whether a length of `actual` microseconds is further from `expected`
/// than the tolerance allows.
pub open spec fn has_drifted(actual: int, expected: int) -> bool {
    actual - expected > DRIFT_TOLERANCE || expected - actual > DRIFT_TOLERANCE
}

/// What the check of an output file comes to.
pub open spec fn output_verdict(probe: OutputProbe, expected: int) -> Result<
    OutputReport,
    OutputError,
> {
    match probe {
        OutputProbe::Missing => Err(OutputError::OutputMissing),
        OutputProbe::Unreadable => Err(OutputError::OutputUnreadable),
        OutputProbe::Found { size, info } => if size < MIN_OUTPUT_SIZE {
            Err(OutputError::OutputTooSmall { size })
        } else {
            match info {
                None => Err(OutputError::ProbeFailure),
                Some(found) => Ok(
                    OutputReport {
                        duration_drifted: has_drifted(found.duration as int, expected),
                        no_picture: found.width == 0 || found.height == 0,
                    },
                ),
            }
        },
    }
}

/// Checks the file an export produced against the length it should have,
/// in microseconds. A missing, unreadable, tiny or unprobeable file is an
/// error; a wrong length or an empty picture is reported, not refused.
pub fn validate_output(probe: &OutputProbe, expected_duration: i128) -> (r: Result<
    OutputReport,
    OutputError,
>)
    ensures
        r == output_verdict(*probe, expected_duration as int),
{
    match probe {
        OutputProbe::Missing => Err(OutputError::OutputMissing),
        OutputProbe::Unreadable => Err(OutputError::OutputUnreadable),
        OutputProbe::Found { size, info } => {
            if *size < MIN_OUTPUT_SIZE {
                return Err(OutputError::OutputTooSmall { size: *size });
            }
            match info {
                None => Err(OutputError::ProbeFailure),
                Some(found) => {
                    let tolerance: i128 = DRIFT_TOLERANCE as i128;
                    let far: i128 = 0x1_0000_0000_0000_0000;
                    let duration_drifted = if expected_duration > far || expected_duration
                        < -far {
                        true
                    } else {
                        let actual: i128 = found.duration as i128;
                        actual - expected_duration > tolerance || expected_duration - actual
                            > tolerance
                    };
                    Ok(
                        OutputReport {
                            duration_drifted,
                            no_picture: found.width == 0 || found.height == 0,
                        },
                    )
                },
            }
        },
    }
}

} // verus!
