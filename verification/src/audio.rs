//! The decisions of audio conversion that do not touch samples: when a
//! resampling is refused, skipped or needed, whether a recording is mixed
//! down to one channel, and which capture formats are accepted. The sample
//! arithmetic itself is floating point and is done outside the library.
use vstd::prelude::*;
use crate::errors::AppError;

verus! {

/// The sample rate the speech engines expect.
pub const WHISPER_SAMPLE_RATE: u32 = 16000;

/// What a resampling does.
#[derive(Debug, Clone, Copy, PartialEq, Eq, Structural)]
pub enum ResamplePlan {
    /// The rates are equal: the samples are returned as they are.
    Unchanged,
    /// There are no samples: the result is empty.
    Empty,
    /// The samples are converted from one rate to the other.
    Convert,
}

/// Decide how `len` samples are resampled from `from_rate` to `to_rate`:
/// a zero rate is refused (the source rate first), equal rates leave the
/// samples unchanged, no samples give no samples, anything else is converted.
pub fn resample_plan(len: usize, from_rate: u32, to_rate: u32) -> (r: Result<ResamplePlan, AppError>)
    ensures
        from_rate == 0 ==> (r matches Err(AppError::Audio(m)) && m@ == "from_rate cannot be zero"@),
        from_rate != 0 && to_rate == 0 ==> (r matches Err(AppError::Audio(m)) && m@ == "to_rate cannot be zero"@),
        from_rate != 0 && to_rate != 0 ==> r == Ok::<ResamplePlan, AppError>(
            if from_rate == to_rate {
                ResamplePlan::Unchanged
            } else if len == 0 {
                ResamplePlan::Empty
            } else {
                ResamplePlan::Convert
            },
        ),
{
    if from_rate == 0 {
        return Err(AppError::Audio(String::from_str("from_rate cannot be zero")));
    }
    if to_rate == 0 {
        return Err(AppError::Audio(String::from_str("to_rate cannot be zero")));
    }
    if from_rate == to_rate {
        return Ok(ResamplePlan::Unchanged);
    }
    if len == 0 {
        return Ok(ResamplePlan::Empty);
    }
    Ok(ResamplePlan::Convert)
}

/// What preparing a recording for transcription does.
#[derive(Debug, Clone, Copy, PartialEq, Eq, Structural)]
pub enum PreparePlan {
    /// There are no samples: the result is empty, whatever the format.
    Empty,
    /// The samples are mixed down to one channel when `downmix` is set, then
    /// resampled to `WHISPER_SAMPLE_RATE`.
    Process { downmix: bool },
}

/// Decide how a recording of `len` samples with `channels` interleaved channels is prepared.
pub fn prepare_plan(len: usize, channels: u16) -> (r: PreparePlan)
    ensures
        len == 0 ==> r == PreparePlan::Empty,
        len != 0 ==> r == (PreparePlan::Process { downmix: channels > 1 }),
{
    if len == 0 {
        PreparePlan::Empty
    } else {
        PreparePlan::Process { downmix: channels > 1 }
    }
}

/// How many mono samples a two-channel recording of `len` samples yields:
/// one per complete pair, a trailing odd sample being dropped.
pub fn mono_len(len: usize) -> (r: usize)
    ensures
        r == len / 2,
        2 * r <= len,
        len - 2 * r <= 1,
{
    len / 2
}

/// The capture sample formats.
pub enum CaptureFormat {
    /// 32-bit floating-point samples.
    F32,
    /// 16-bit signed integer samples.
    I16,
    /// Any other format, by the name the audio library prints for it.
    Other(String),
}

/// Accept the formats the recorder converts (32-bit float and 16-bit
/// integer); any other format is an audio error that names it.
pub fn check_capture_format(format: CaptureFormat) -> (r: Result<(), AppError>)
    ensures
        match format {
            CaptureFormat::Other(name) => r matches Err(AppError::Audio(m))
                && m@ == "Unsupported sample format: "@ + name@,
            _ => r is Ok,
        },
{
    match format {
        CaptureFormat::Other(name) => {
            let mut m = String::from_str("Unsupported sample format: ");
            m.append(name.as_str());
            Err(AppError::Audio(m))
        },
        _ => Ok(()),
    }
}

} // verus!
