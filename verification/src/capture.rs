use vstd::prelude::*;

use crate::sample::SampleBuffer;
use crate::silence::{is_silent, lemma_all_zero_is_silent, spec_is_silent};

verus! {

/// The trigger that ended a capture session. Recorded for diagnostics; it
/// does not affect the buffer content.
#[derive(Debug, Clone, Copy, PartialEq, Eq, Structural)]
pub enum StopReason {
    /// A designated key (space or newline) arrived on the interactive input.
    UserSignal,
    /// Silence persisted for at least the configured duration.
    Silence,
    /// An out-of-band interrupt (or its bounded fallback timeout) fired.
    ExternalInterrupt,
}

/// Length of one silence-analysis sub-window: 100 ms at 16 kHz.
pub const SILENCE_WINDOW_SAMPLES: usize = 1600;

/// The k-th silence-analysis sub-window of the trailing `n` samples of `s`:
/// consecutive runs of `SILENCE_WINDOW_SAMPLES`, the last one possibly
/// shorter.
pub open spec fn window_at(s: Seq<i16>, n: int, k: int) -> Seq<i16> {
    let start = s.len() - n + k * (SILENCE_WINDOW_SAMPLES as int);
    let end = if start + (SILENCE_WINDOW_SAMPLES as int) <= s.len() {
        start + (SILENCE_WINDOW_SAMPLES as int)
    } else {
        s.len() as int
    };
    s.subrange(start, end)
}

/// Every sub-window within the trailing `n` samples of `s` is silent.
pub open spec fn tail_silent(s: Seq<i16>, n: int, threshold: int) -> bool {
    forall|k: int|
        0 <= k && k * (SILENCE_WINDOW_SAMPLES as int) < n ==> spec_is_silent(
            #[trigger] window_at(s, n, k),
            threshold,
        )
}

/// Silence-triggered auto-stop fires exactly when at least `n` samples have
/// been recorded and every sub-window within the trailing `n` is silent.
pub open spec fn spec_should_auto_stop(s: Seq<i16>, threshold: int, n: int) -> bool {
    &&& n > 0
    &&& s.len() >= n
    &&& tail_silent(s, n, threshold)
}

/// Decides the silence-triggered stop condition over the accumulated
/// samples. `silence_samples` is the configured silence duration expressed
/// in samples.
pub fn should_auto_stop(samples: &[i16], threshold: i16, silence_samples: usize) -> (r: bool)
    requires
        silence_samples > 0,
        silence_samples <= usize::MAX - SILENCE_WINDOW_SAMPLES,
    ensures
        r == spec_should_auto_stop(samples@, threshold as int, silence_samples as int),
{
    let len = samples.len();
    if len < silence_samples {
        return false;
    }
    let start0 = len - silence_samples;
    let n = silence_samples;
    let mut k: usize = 0;
    let mut off: usize = 0;
    while off < n
        invariant
            len == samples@.len(),
            n == silence_samples,
            0 < n <= len,
            n <= usize::MAX - SILENCE_WINDOW_SAMPLES,
            start0 == len - n,
            off == k * (SILENCE_WINDOW_SAMPLES as int),
            forall|k2: int|
                0 <= k2 < k ==> spec_is_silent(
                    #[trigger] window_at(samples@, n as int, k2),
                    threshold as int,
                ),
        decreases n + SILENCE_WINDOW_SAMPLES - off,
    {
        let wstart = start0 + off;
        let wend = if n - off > SILENCE_WINDOW_SAMPLES {
            wstart + SILENCE_WINDOW_SAMPLES
        } else {
            len
        };
        let w = vstd::slice::slice_subrange(samples, wstart, wend);
        let silent = is_silent(w, threshold);
        proof {
            assert(window_at(samples@, n as int, k as int) =~= w@);
        }
        if !silent {
            proof {
                assert((k as int) * (SILENCE_WINDOW_SAMPLES as int) < n as int);
                assert(!spec_is_silent(window_at(samples@, n as int, k as int), threshold as int));
                assert(!tail_silent(samples@, n as int, threshold as int));
            }
            return false;
        }
        off = off + SILENCE_WINDOW_SAMPLES;
        k = k + 1;
    }
    proof {
        assert forall|k2: int|
            0 <= k2 && k2 * (SILENCE_WINDOW_SAMPLES as int) < n implies spec_is_silent(
            #[trigger] window_at(samples@, n as int, k2),
            threshold as int,
        ) by {
            assert(k2 < k);
        }
    }
    true
}

/// Auto-stop never fires while the total recording is shorter than the
/// configured silence duration.
pub proof fn lemma_short_recording_never_auto_stops(s: Seq<i16>, threshold: int, n: int)
    requires
        s.len() < n,
    ensures
        !spec_should_auto_stop(s, threshold, n),
{
}

/// Once the trailing `n` samples of a recording are all zero, auto-stop
/// fires at any positive threshold.
pub proof fn lemma_silent_tail_triggers_auto_stop(s: Seq<i16>, threshold: int, n: int)
    requires
        0 < n <= s.len(),
        threshold > 0,
        forall|i: int| s.len() - n <= i < s.len() ==> s[i] == 0,
    ensures
        spec_should_auto_stop(s, threshold, n),
{
    assert forall|k: int|
        0 <= k && k * (SILENCE_WINDOW_SAMPLES as int) < n implies spec_is_silent(
        #[trigger] window_at(s, n, k),
        threshold,
    ) by {
        let w = window_at(s, n, k);
        assert(forall|j: int| 0 <= j < w.len() ==> w[j] == 0);
        lemma_all_zero_is_silent(w, threshold);
    }
}

/// Ephemeral state of one recording: the in-progress buffer and the stop
/// decision. The ghost `chunks` history records each hardware-callback
/// delivery, so that what the buffer holds can be related to what arrived.
pub struct CaptureSession {
    pub buffer: Vec<i16>,
    pub stop: Option<StopReason>,
    pub chunks: Ghost<Seq<Seq<i16>>>,
}

impl CaptureSession {
    /// The buffer is exactly the concatenation, in arrival order, of the
    /// chunks the hardware callback delivered.
    pub open spec fn wf(self) -> bool {
        self.buffer@ == self.chunks@.flatten_alt()
    }

    /// Opens a session with an empty buffer and no stop decision.
    pub fn new() -> (s: CaptureSession)
        ensures
            s.wf(),
            s.buffer@.len() == 0,
            s.stop is None,
            s.chunks@.len() == 0,
    {
        let s = CaptureSession { buffer: Vec::new(), stop: None, chunks: Ghost(Seq::empty()) };
        proof {
            assert(s.chunks@.flatten_alt() =~= Seq::<i16>::empty());
        }
        s
    }

    /// One hardware-callback delivery: appends the incoming samples to the
    /// shared buffer. Only callable while the stream is live (no stop
    /// decision yet), so no sample lands after teardown; the buffer never
    /// shrinks.
    pub fn append_chunk(&mut self, chunk: &[i16])
        requires
            old(self).wf(),
            old(self).stop is None,
            old(self).buffer@.len() + chunk@.len() <= usize::MAX,
        ensures
            final(self).wf(),
            final(self).buffer@ == old(self).buffer@ + chunk@,
            final(self).buffer@.len() >= old(self).buffer@.len(),
            final(self).stop is None,
            final(self).chunks@ == old(self).chunks@.push(chunk@),
    {
        self.buffer.extend_from_slice(chunk);
        proof {
            self.chunks@ = self.chunks@.push(chunk@);
            assert(self.chunks@.drop_last() =~= old(self).chunks@);
            assert(self.buffer@ == self.chunks@.flatten_alt());
        }
    }

    /// The manual stop decision: a space or newline byte from the
    /// interactive input stops the session; any other byte is ignored.
    pub fn note_key(&mut self, byte: u8) -> (stopped: bool)
        requires
            old(self).wf(),
            old(self).stop is None,
        ensures
            final(self).wf(),
            final(self).buffer@ == old(self).buffer@,
            final(self).chunks@ == old(self).chunks@,
            stopped == (byte == 32 || byte == 10),
            stopped ==> final(self).stop == Some(StopReason::UserSignal),
            !stopped ==> final(self).stop is None,
    {
        if byte == 32 || byte == 10 {
            self.stop = Some(StopReason::UserSignal);
            true
        } else {
            false
        }
    }

    /// The out-of-band stop decision: an external interrupt (or the bounded
    /// fallback timeout that substitutes for it) ends the session.
    pub fn note_interrupt(&mut self)
        requires
            old(self).wf(),
            old(self).stop is None,
        ensures
            final(self).wf(),
            final(self).buffer@ == old(self).buffer@,
            final(self).chunks@ == old(self).chunks@,
            final(self).stop == Some(StopReason::ExternalInterrupt),
    {
        self.stop = Some(StopReason::ExternalInterrupt);
    }

    /// One periodic poll of the buffer tail: stops the session exactly when
    /// silence has persisted over the configured duration.
    pub fn poll_silence(&mut self, threshold: i16, silence_samples: usize) -> (stopped: bool)
        requires
            old(self).wf(),
            old(self).stop is None,
            silence_samples > 0,
            silence_samples <= usize::MAX - SILENCE_WINDOW_SAMPLES,
        ensures
            final(self).wf(),
            final(self).buffer@ == old(self).buffer@,
            final(self).chunks@ == old(self).chunks@,
            stopped == spec_should_auto_stop(
                old(self).buffer@,
                threshold as int,
                silence_samples as int,
            ),
            stopped ==> final(self).stop == Some(StopReason::Silence),
            !stopped ==> final(self).stop is None,
    {
        let fire = should_auto_stop(self.buffer.as_slice(), threshold, silence_samples);
        if fire {
            self.stop = Some(StopReason::Silence);
        }
        fire
    }

    /// Takes the consistent snapshot after teardown: the finalized buffer is
    /// exactly what accumulated, and the stop reason is the decision that
    /// ended the session.
    pub fn finish(self) -> (r: (SampleBuffer, StopReason))
        requires
            self.wf(),
            self.stop is Some,
        ensures
            r.0@ == self.buffer@,
            Some(r.1) == self.stop,
    {
        let reason = match self.stop {
            Some(r) => r,
            None => vstd::pervasive::unreached(),
        };
        (SampleBuffer::from_samples(self.buffer), reason)
    }
}

proof fn lemma_flatten_alt_prefix_len(a: Seq<Seq<i16>>, b: Seq<Seq<i16>>)
    requires
        a.is_prefix_of(b),
    ensures
        a.flatten_alt().len() <= b.flatten_alt().len(),
    decreases b.len(),
{
    if a.len() == b.len() {
        assert(a =~= b);
    } else {
        assert(b.drop_last().subrange(0, a.len() as int) =~= b.subrange(0, a.len() as int));
        lemma_flatten_alt_prefix_len(a, b.drop_last());
    }
}

/// The buffer length is monotonically non-decreasing with elapsed capture
/// time: a later snapshot of the session — its chunk history extends the
/// earlier one's — holds at least as many samples.
pub proof fn lemma_buffer_monotone(earlier: CaptureSession, later: CaptureSession)
    requires
        earlier.wf(),
        later.wf(),
        earlier.chunks@.is_prefix_of(later.chunks@),
    ensures
        earlier.buffer@.len() <= later.buffer@.len(),
{
    lemma_flatten_alt_prefix_len(earlier.chunks@, later.chunks@);
}

/// Once started — at least one callback delivered — the session buffer is
/// never shorter than that first full callback's chunk.
pub proof fn lemma_buffer_holds_first_chunk(s: CaptureSession)
    requires
        s.wf(),
        s.chunks@.len() > 0,
    ensures
        s.buffer@.len() >= s.chunks@[0].len(),
{
    s.chunks@.lemma_flatten_length_ge_single_element_length(0);
}

} // verus!
