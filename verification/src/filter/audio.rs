//! Audio filters: each builds the description of one FFmpeg audio filter.

use vstd::prelude::*;

use crate::filter::{escape_filter_option, option_escaped, Filter};
use crate::flags::MediaType;
use crate::fmt::{sample_name, SampleFormat};
use crate::text::{int_text, nat_digits, push_i64, push_str, push_u64};

verus! {

/// An audio filter named `name` with description `spec`.
pub open spec fn audio_filter(f: Filter, name: Seq<char>, spec: Seq<char>) -> bool {
    &&& f.name@ == name
    &&& f.media_type == MediaType::AUDIO
    &&& f.spec@ == spec
    &&& f.input_format is None
}

fn audio(name: &'static str, spec: String) -> (f: Filter)
    ensures
        audio_filter(f, name@, spec@),
{
    Filter::new(name, MediaType::AUDIO, spec)
}

/// Resamples to `sample_rate` Hz in sample format `format` and the channel
/// layout FFmpeg describes as `channel_layout` (`mono`, `stereo`, ...):
/// `aresample=osr=R:osf=F:ochl=L:async=1`.
pub fn resample(channel_layout: &str, sample_rate: u32, format: SampleFormat) -> (f: Filter)
    ensures
        audio_filter(f, "aresample"@, "aresample=osr="@ + nat_digits(sample_rate as nat) + ":osf="@
            + sample_name(format) + ":ochl="@ + channel_layout@ + ":async=1"@),
{
    let mut s = "aresample=osr=".to_string();
    push_u64(&mut s, sample_rate as u64);
    push_str(&mut s, ":osf=");
    let name = format.get_sample_fmt_name();
    push_str(&mut s, name.as_str());
    push_str(&mut s, ":ochl=");
    push_str(&mut s, channel_layout);
    push_str(&mut s, ":async=1");
    audio("aresample", s)
}

/// Converts to sample format `sample_format`, `sample_rate` Hz and the
/// channel layout FFmpeg describes as `channel_layout`:
/// `aformat=sample_fmts=F:sample_rates=R:channel_layouts=L`.
pub fn format(channel_layout: &str, sample_rate: u32, sample_format: SampleFormat) -> (f: Filter)
    ensures
        audio_filter(f, "aformat"@, "aformat=sample_fmts="@ + sample_name(sample_format) + ":sample_rates="@
            + nat_digits(sample_rate as nat) + ":channel_layouts="@ + channel_layout@),
{
    let mut s = "aformat=sample_fmts=".to_string();
    let name = sample_format.get_sample_fmt_name();
    push_str(&mut s, name.as_str());
    push_str(&mut s, ":sample_rates=");
    push_u64(&mut s, sample_rate as u64);
    push_str(&mut s, ":channel_layouts=");
    push_str(&mut s, channel_layout);
    audio("aformat", s)
}

/// Cuts frequencies below `freq` Hz: `highpass=f=F`.
pub fn highpass(freq: u32) -> (f: Filter)
    ensures
        audio_filter(f, "highpass"@, "highpass=f="@ + nat_digits(freq as nat)),
{
    let mut s = "highpass=f=".to_string();
    push_u64(&mut s, freq as u64);
    audio("highpass", s)
}

/// Cuts frequencies above `freq` Hz: `lowpass=f=F`.
pub fn lowpass(freq: u32) -> (f: Filter)
    ensures
        audio_filter(f, "lowpass"@, "lowpass=f="@ + nat_digits(freq as nat)),
{
    let mut s = "lowpass=f=".to_string();
    push_u64(&mut s, freq as u64);
    audio("lowpass", s)
}

/// Delays every channel by `delay_ms` milliseconds: `adelay=delays=D:all=1`.
pub fn adelay(delay_ms: i32) -> (f: Filter)
    ensures
        audio_filter(f, "adelay"@, "adelay=delays="@ + int_text(delay_ms as int) + ":all=1"@),
{
    let mut s = "adelay=delays=".to_string();
    push_i64(&mut s, delay_ms as i64);
    push_str(&mut s, ":all=1");
    audio("adelay", s)
}

/// FFT noise reduction by `noise_reduction` dB over a noise floor of
/// `noise_floor` dB, white noise assumed: `afftdn=nr=R:nf=F:nt=w`.
pub fn fft_denoise(noise_reduction: i32, noise_floor: i32) -> (f: Filter)
    ensures
        audio_filter(f, "afftdn"@, "afftdn=nr="@ + int_text(noise_reduction as int) + ":nf="@
            + int_text(noise_floor as int) + ":nt=w"@),
{
    let mut s = "afftdn=nr=".to_string();
    push_i64(&mut s, noise_reduction as i64);
    push_str(&mut s, ":nf=");
    push_i64(&mut s, noise_floor as i64);
    push_str(&mut s, ":nt=w");
    audio("afftdn", s)
}

/// Mixes `inputs` audio inputs into one, lasting as `duration` says
/// (`longest`, `shortest`, `first`): `amix=inputs=N:duration=D`.
pub fn amix(inputs: u32, duration: &str) -> (f: Filter)
    ensures
        audio_filter(f, "amix"@, "amix=inputs="@ + nat_digits(inputs as nat) + ":duration="@ + option_escaped(duration@)),
{
    let d = escape_filter_option(duration);
    let mut s = "amix=inputs=".to_string();
    push_u64(&mut s, inputs as u64);
    push_str(&mut s, ":duration=");
    push_str(&mut s, d.as_str());
    audio("amix", s)
}

/// Copies one audio input into `outputs` identical outputs: `asplit=N`.
pub fn asplit(outputs: u32) -> (f: Filter)
    ensures
        audio_filter(f, "asplit"@, "asplit="@ + nat_digits(outputs as nat)),
{
    let mut s = "asplit=".to_string();
    push_u64(&mut s, outputs as u64);
    audio("asplit", s)
}

/// Plays audio backwards: `areverse`.
pub fn areverse() -> (f: Filter)
    ensures
        audio_filter(f, "areverse"@, "areverse"@),
{
    audio("areverse", "areverse".to_string())
}

} // verus!
