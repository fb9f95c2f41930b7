use vstd::prelude::*;

use crate::error::ListenError;
use crate::text::{dec_chars, push_u32_decimal};

verus! {

/// The fixed target sample rate of every sample buffer, in Hz.
pub const SAMPLE_RATE: u32 = 16000;

/// The fixed channel count: mono.
pub const CHANNELS: u16 = 1;

/// What the container decoder found in a WAV file: the declared format and
/// the raw 16-bit PCM samples, interleaved in file order.
pub struct WavData {
    pub sample_rate: u32,
    pub channels: u16,
    pub samples: Vec<i16>,
}

/// A finalized buffer of mono 16 kHz audio. A sample is the raw signed
/// 16-bit PCM amplitude; the normalized float amplitude in [-1.0, 1.0] that
/// the recognition engine consumes is this value divided by 32768.
#[derive(Debug)]
pub struct SampleBuffer {
    pub samples: Vec<i16>,
}

impl View for SampleBuffer {
    type V = Seq<i16>;

    open spec fn view(&self) -> Seq<i16> {
        self.samples@
    }
}

impl SampleBuffer {
    /// Wraps already-conforming samples unchanged.
    pub fn from_samples(samples: Vec<i16>) -> (r: SampleBuffer)
        ensures
            r@ == samples@,
    {
        SampleBuffer { samples }
    }

    /// The number of samples held.
    pub fn len(&self) -> (r: usize)
        ensures
            r == self@.len(),
    {
        self.samples.len()
    }
}

/// What `hound` decodes from a given byte string: `None` when the bytes are
/// not a WAV container it accepts with samples readable as 16-bit integers,
/// otherwise the declared sample rate, the declared channel count, and the
/// samples in order. Parsing bytes is deterministic, so the outcome is a
/// function of the bytes alone.
pub uninterp spec fn wav_decode(bytes: Seq<u8>) -> Option<(u32, u16, Seq<i16>)>;

/// Relies on hound::WavReader::new (parses the WAV header from any byte
/// reader) and WavReader::samples::<i16> (yields each sample, failing on a
/// container whose format cannot be read as 16-bit integers).
#[verifier::external_body]
fn decode_wav(bytes: &Vec<u8>) -> (r: Result<WavData, String>)
    ensures
        r matches Ok(w) ==> wav_decode(bytes@) == Some((w.sample_rate, w.channels, w.samples@)),
        (r is Ok) <==> (wav_decode(bytes@) is Some),
{
    let mut reader = match hound::WavReader::new(std::io::Cursor::new(bytes.as_slice())) {
        Ok(r) => r,
        Err(e) => return Err(format!("{}", e)),
    };
    let spec = reader.spec();
    match reader.samples::<i16>().collect::<Result<Vec<i16>, hound::Error>>() {
        Ok(samples) => Ok(WavData {
            sample_rate: spec.sample_rate,
            channels: spec.channels,
            samples,
        }),
        Err(e) => Err(format!("{}", e)),
    }
}

/// Decodes one uncompressed PCM container into a SampleBuffer.
///
/// Success is owed exactly when the bytes decode as WAV and declare the
/// 16 000 Hz rate; the samples then pass through unaltered, value for value.
/// A declared rate other than 16 000 Hz is rejected with guidance to
/// resample externally, never silently resampled; bytes that do not decode
/// are rejected with guidance to convert. `source_name` only labels the
/// guidance text.
pub fn samples_from_wav_bytes(bytes: &Vec<u8>, source_name: &str) -> (r: Result<
    SampleBuffer,
    ListenError,
>)
    ensures
        (r is Ok) <==> (wav_decode(bytes@) matches Some(t) && t.0 == SAMPLE_RATE),
        r matches Ok(b) ==> (wav_decode(bytes@) matches Some(t) && b@ == t.2),
        wav_decode(bytes@) matches Some(t) ==> (t.0 != SAMPLE_RATE ==> (r matches Err(e)
            && e matches ListenError::Audio(m)
            && m@ == "Audio must be 16kHz, got "@ + dec_chars(t.0 as int)
            + "Hz. Use ffmpeg to convert:\n  ffmpeg -i "@ + source_name@
            + " -ar 16000 -ac 1 output.wav"@)),
        wav_decode(bytes@) is None ==> (r matches Err(e) && e matches ListenError::Audio(m)
            && m@ == "File format not supported directly. Convert to WAV first:\n  ffmpeg -i "@
            + source_name@ + " -ar 16000 -ac 1 -f wav output.wav"@),
{
    match decode_wav(bytes) {
        Ok(w) => {
            if w.sample_rate != SAMPLE_RATE {
                let mut msg = "Audio must be 16kHz, got ".to_owned();
                push_u32_decimal(&mut msg, w.sample_rate);
                let msg = msg.concat("Hz. Use ffmpeg to convert:\n  ffmpeg -i ").concat(
                    source_name,
                ).concat(" -ar 16000 -ac 1 output.wav");
                Err(ListenError::Audio(msg))
            } else {
                Ok(SampleBuffer { samples: w.samples })
            }
        },
        Err(_) => {
            let msg = "File format not supported directly. Convert to WAV first:\n  ffmpeg -i "
                .to_owned().concat(source_name).concat(" -ar 16000 -ac 1 -f wav output.wav");
            Err(ListenError::Audio(msg))
        },
    }
}

} // verus!
