use vstd::prelude::*;

use crate::dsp::{waveform_from_name, Waveform};
use crate::wav::{classify_format, sample_kind, SampleFormat, SampleKind};

verus! {

/// Why a conversion request is refused, in the order in which the checks are made.
#[derive(Debug)]
pub enum CliError {
    /// The waveform name is none of "sine", "square", "saw", "triangle"; holds the name given.
    InvalidWaveform(String),
    /// The mix lies outside 0.0 ..= 1.0.
    MixOutOfRange,
    /// The input file does not exist.
    InputNotFound,
    /// The output file exists and overwriting was not allowed.
    OutputExists,
    /// The input is neither 16-bit integer PCM nor 32-bit float.
    UnsupportedFormat { format: SampleFormat, bits: u16 },
    /// The carrier frequency is not above 0 Hz.
    NonPositiveFrequency,
    /// The carrier frequency is not below half the sample rate.
    AboveNyquist,
}

/// Checks the request before the input file is opened.
///
/// The facts on the mix and the files are measured by the caller:
/// `mix_outside_unit` is whether the mix lies outside 0.0 ..= 1.0.
/// The first failing check, in the order waveform, mix, input file,
/// output file, decides the error.
pub fn check_request(
    waveform: &str,
    mix_outside_unit: bool,
    input_exists: bool,
    output_exists: bool,
    overwrite: bool,
) -> (r: Result<Waveform, CliError>)
    ensures
        match r {
            Ok(w) => {
                &&& waveform_from_name(waveform@) == Some(w)
                &&& !mix_outside_unit
                &&& input_exists
                &&& !output_exists || overwrite
            },
            Err(CliError::InvalidWaveform(name)) => {
                &&& waveform_from_name(waveform@) is None
                &&& name@ == waveform@
            },
            Err(CliError::MixOutOfRange) => {
                &&& waveform_from_name(waveform@) is Some
                &&& mix_outside_unit
            },
            Err(CliError::InputNotFound) => {
                &&& waveform_from_name(waveform@) is Some
                &&& !mix_outside_unit
                &&& !input_exists
            },
            Err(CliError::OutputExists) => {
                &&& waveform_from_name(waveform@) is Some
                &&& !mix_outside_unit
                &&& input_exists
                &&& output_exists
                &&& !overwrite
            },
            Err(_) => false,
        },
{
    let w = match Waveform::parse(waveform) {
        Some(w) => w,
        None => {
            return Err(CliError::InvalidWaveform(waveform.to_owned()));
        },
    };
    if mix_outside_unit {
        return Err(CliError::MixOutOfRange);
    }
    if !input_exists {
        return Err(CliError::InputNotFound);
    }
    if output_exists && !overwrite {
        return Err(CliError::OutputExists);
    }
    Ok(w)
}

/// Checks the opened input's encoding and the carrier frequency against its sample rate.
///
/// `frequency_at_most_zero` is whether the frequency is `<= 0`, and
/// `frequency_at_least_nyquist` whether it is `>=` half the sample rate,
/// both measured by the caller. The encoding is checked first.
pub fn check_stream(
    format: SampleFormat,
    bits: u16,
    frequency_at_most_zero: bool,
    frequency_at_least_nyquist: bool,
) -> (r: Result<SampleKind, CliError>)
    ensures
        match r {
            Ok(k) => {
                &&& sample_kind(format, bits) == Some(k)
                &&& !frequency_at_most_zero
                &&& !frequency_at_least_nyquist
            },
            Err(CliError::UnsupportedFormat { format: f, bits: b }) => {
                &&& sample_kind(format, bits) is None
                &&& f == format
                &&& b == bits
            },
            Err(CliError::NonPositiveFrequency) => {
                &&& sample_kind(format, bits) is Some
                &&& frequency_at_most_zero
            },
            Err(CliError::AboveNyquist) => {
                &&& sample_kind(format, bits) is Some
                &&& !frequency_at_most_zero
                &&& frequency_at_least_nyquist
            },
            Err(_) => false,
        },
{
    let kind = match classify_format(format, bits) {
        Some(k) => k,
        None => {
            return Err(CliError::UnsupportedFormat { format, bits });
        },
    };
    if frequency_at_most_zero {
        return Err(CliError::NonPositiveFrequency);
    }
    if frequency_at_least_nyquist {
        return Err(CliError::AboveNyquist);
    }
    Ok(kind)
}

} // verus!
