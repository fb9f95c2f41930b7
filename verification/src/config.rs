use vstd::prelude::*;

use crate::capture::SILENCE_WINDOW_SAMPLES;
use crate::error::ListenError;
use crate::sample::{CHANNELS, SAMPLE_RATE};
use crate::silence::VAD_THRESHOLD_RAW;

verus! {

/// Default silence duration for auto-stop, in milliseconds.
pub const VAD_DEFAULT_DURATION_MS: u64 = 2000;

/// The parsed command surface, as plain values: the silence duration
/// arrives in whole milliseconds.
pub struct Args {
    pub file: Option<String>,
    pub language: String,
    pub model: String,
    pub signal_mode: bool,
    pub vad_ms: Option<u64>,
    pub codevoice: bool,
    pub fast_mode: bool,
    pub verbose: bool,
    pub quiet: bool,
    pub json: bool,
    pub output: Option<String>,
    pub status_file: Option<String>,
}

/// One invocation's frozen configuration.
#[derive(Debug)]
pub struct Config {
    pub language: String,
    pub model: String,
    pub signal_mode: bool,
    pub vad_enabled: bool,
    pub vad_duration_ms: u64,
    pub vad_threshold: i16,
    pub codevoice: bool,
    pub fast_mode: bool,
    pub verbose: bool,
    pub quiet: bool,
    pub json: bool,
    pub output_file: Option<String>,
    pub status_file: Option<String>,
    pub sample_rate: u32,
    pub channels: u16,
}

/// Both absent, or both present with the same text.
pub open spec fn opt_string_view_eq(a: Option<String>, b: Option<String>) -> bool {
    match (a, b) {
        (Option::None, Option::None) => true,
        (Option::Some(x), Option::Some(y)) => x@ == y@,
        _ => false,
    }
}

fn clone_opt_string(o: &Option<String>) -> (r: Option<String>)
    ensures
        opt_string_view_eq(r, *o),
{
    match o {
        Option::None => Option::None,
        Option::Some(s) => Option::Some(s.clone()),
    }
}

impl Config {
    /// Validates and freezes one invocation's configuration.
    ///
    /// The only rejected input is an explicitly requested silence duration
    /// of zero; everything else passes through, with the fixed sample rate,
    /// channel count and silence threshold filled in and the default
    /// silence duration substituted when none was requested.
    pub fn from_args(args: &Args) -> (r: Result<Config, ListenError>)
        ensures
            (r is Err) <==> args.vad_ms == Some(0u64),
            r matches Err(e) ==> (e matches ListenError::Config(m) && m@
                == "VAD duration must be positive"@),
            r matches Ok(c) ==> {
                &&& c.language@ == args.language@
                &&& c.model@ == args.model@
                &&& c.signal_mode == args.signal_mode
                &&& c.vad_enabled == (args.vad_ms is Some)
                &&& (args.vad_ms matches Some(d) ==> c.vad_duration_ms == d)
                &&& (args.vad_ms is None ==> c.vad_duration_ms == VAD_DEFAULT_DURATION_MS)
                &&& c.vad_threshold == VAD_THRESHOLD_RAW
                &&& c.codevoice == args.codevoice
                &&& c.fast_mode == args.fast_mode
                &&& c.verbose == args.verbose
                &&& c.quiet == args.quiet
                &&& c.json == args.json
                &&& opt_string_view_eq(c.output_file, args.output)
                &&& opt_string_view_eq(c.status_file, args.status_file)
                &&& c.sample_rate == SAMPLE_RATE
                &&& c.channels == CHANNELS
            },
    {
        let vad_enabled = args.vad_ms.is_some();
        let vad_duration_ms = match &args.vad_ms {
            Option::Some(d) => *d,
            Option::None => VAD_DEFAULT_DURATION_MS,
        };
        if vad_enabled && vad_duration_ms == 0 {
            return Err(ListenError::Config("VAD duration must be positive".to_owned()));
        }
        Ok(
            Config {
                language: args.language.clone(),
                model: args.model.clone(),
                signal_mode: args.signal_mode,
                vad_enabled,
                vad_duration_ms,
                vad_threshold: VAD_THRESHOLD_RAW,
                codevoice: args.codevoice,
                fast_mode: args.fast_mode,
                verbose: args.verbose,
                quiet: args.quiet,
                json: args.json,
                output_file: clone_opt_string(&args.output),
                status_file: clone_opt_string(&args.status_file),
                sample_rate: SAMPLE_RATE,
                channels: CHANNELS,
            },
        )
    }

    /// The configured silence duration expressed in samples at 16 kHz
    /// (16 samples per millisecond), when that count fits what the silence
    /// poll can take.
    pub fn silence_samples(&self) -> (r: Option<usize>)
        ensures
            r matches Some(n) ==> n == self.vad_duration_ms * 16 && n <= usize::MAX
                - SILENCE_WINDOW_SAMPLES,
            r is None ==> self.vad_duration_ms * 16 > usize::MAX - SILENCE_WINDOW_SAMPLES,
    {
        let cap: usize = (usize::MAX - SILENCE_WINDOW_SAMPLES) / 16;
        if self.vad_duration_ms <= cap as u64 {
            Some((self.vad_duration_ms as usize) * 16)
        } else {
            None
        }
    }
}

} // verus!
