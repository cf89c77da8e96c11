use voice_to_robot::cli::{check_request, check_stream, CliError};
use voice_to_robot::dsp::Waveform;
use voice_to_robot::wav::{SampleFormat, SampleKind};

/// The mix fact as the command line measures it.
fn mix_outside(mix: f32) -> bool {
    !(0.0..=1.0).contains(&mix)
}

/// The two frequency facts as the command line measures them.
fn frequency_facts(frequency: f32, sample_rate: u32) -> (bool, bool) {
    let nyquist = sample_rate as f32 / 2.0;
    (frequency <= 0.0, frequency >= nyquist)
}

fn stream(format: SampleFormat, bits: u16, frequency: f32, sample_rate: u32) -> Result<SampleKind, CliError> {
    let (at_most_zero, at_least_nyquist) = frequency_facts(frequency, sample_rate);
    check_stream(format, bits, at_most_zero, at_least_nyquist)
}

#[test]
fn missing_input_file() {
    let r = check_request("sine", mix_outside(1.0), false, false, false);
    assert!(matches!(r, Err(CliError::InputNotFound)));
}

#[test]
fn invalid_frequency_zero() {
    let r = stream(SampleFormat::Int, 16, 0.0, 44100);
    assert!(matches!(r, Err(CliError::NonPositiveFrequency)));
}

#[test]
fn invalid_frequency_negative() {
    let r = stream(SampleFormat::Int, 16, -10.0, 44100);
    assert!(matches!(r, Err(CliError::NonPositiveFrequency)));
}

#[test]
fn frequency_above_nyquist() {
    let r = stream(SampleFormat::Int, 16, 25000.0, 44100);
    assert!(matches!(r, Err(CliError::AboveNyquist)));
}

#[test]
fn frequency_at_nyquist_is_refused() {
    let r = stream(SampleFormat::Int, 16, 22050.0, 44100);
    assert!(matches!(r, Err(CliError::AboveNyquist)));
    let r = stream(SampleFormat::Int, 16, 22049.0, 44100);
    assert!(matches!(r, Ok(SampleKind::Pcm16)));
}

#[test]
fn output_file_exists_without_yes() {
    let r = check_request("sine", mix_outside(1.0), true, true, false);
    assert!(matches!(r, Err(CliError::OutputExists)));
}

#[test]
fn overwrite_allowed_with_yes() {
    let r = check_request("sine", mix_outside(1.0), true, true, true);
    assert!(matches!(r, Ok(Waveform::Sine)));
}

#[test]
fn unsupported_format_24bit() {
    let r = stream(SampleFormat::Int, 24, 50.0, 44100);
    match r {
        Err(CliError::UnsupportedFormat { format, bits }) => {
            assert_eq!(format, SampleFormat::Int);
            assert_eq!(bits, 24);
        }
        other => panic!("unexpected result: {:?}", other),
    }
}

#[test]
fn unsupported_format_checked_before_frequency() {
    let r = stream(SampleFormat::Float, 64, 0.0, 44100);
    assert!(matches!(r, Err(CliError::UnsupportedFormat { format: SampleFormat::Float, bits: 64 })));
}

#[test]
fn default_frequency_accepted() {
    let r = stream(SampleFormat::Int, 16, 50.0, 44100);
    assert!(matches!(r, Ok(SampleKind::Pcm16)));
}

#[test]
fn float32_format_accepted() {
    let r = stream(SampleFormat::Float, 32, 100.0, 44100);
    assert!(matches!(r, Ok(SampleKind::Float32)));
}

#[test]
fn square_waveform_request_accepted() {
    let r = check_request("square", mix_outside(1.0), true, false, false);
    assert!(matches!(r, Ok(Waveform::Square)));
}

#[test]
fn cli_waveform_invalid() {
    let r = check_request("invalid_waveform", mix_outside(1.0), true, false, false);
    match r {
        Err(CliError::InvalidWaveform(name)) => assert_eq!(name, "invalid_waveform"),
        other => panic!("unexpected result: {:?}", other),
    }
}

#[test]
fn waveform_checked_before_everything_else() {
    let r = check_request("noise", true, false, true, false);
    assert!(matches!(r, Err(CliError::InvalidWaveform(_))));
}

#[test]
fn cli_mix_out_of_range() {
    let r = check_request("sine", mix_outside(1.5), true, false, false);
    assert!(matches!(r, Err(CliError::MixOutOfRange)));
    let r = check_request("sine", mix_outside(-0.1), true, false, false);
    assert!(matches!(r, Err(CliError::MixOutOfRange)));
}

#[test]
fn cli_mix_bounds_accepted() {
    assert!(matches!(check_request("saw", mix_outside(0.0), true, false, false), Ok(Waveform::Saw)));
    assert!(matches!(check_request("triangle", mix_outside(0.5), true, false, false), Ok(Waveform::Triangle)));
    assert!(matches!(check_request("sine", mix_outside(1.0), true, false, false), Ok(Waveform::Sine)));
}

#[test]
fn mix_checked_before_input_file() {
    let r = check_request("sine", true, false, true, false);
    assert!(matches!(r, Err(CliError::MixOutOfRange)));
}

#[test]
fn input_checked_before_output_file() {
    let r = check_request("sine", false, false, true, false);
    assert!(matches!(r, Err(CliError::InputNotFound)));
}
