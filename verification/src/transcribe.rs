use vstd::prelude::*;

use crate::error::ListenError;
use crate::sample::SampleBuffer;

verus! {

/// The immutable value consumed exactly once by the recognition engine:
/// a finalized buffer plus the language hint and model identifier.
pub struct RecognitionRequest {
    pub samples: SampleBuffer,
    pub language: String,
    pub model: String,
}

/// What the engine run produced: the assembled text (UTF-8 bytes) with the
/// language and model it was produced under.
pub struct RecognitionResult {
    pub text: Vec<u8>,
    pub language: String,
    pub model: String,
}

/// The views of a list of byte segments.
pub open spec fn views_of(segments: Seq<Vec<u8>>) -> Seq<Seq<u8>> {
    segments.map_values(|v: Vec<u8>| v@)
}

/// In-order concatenation of text segments, with no added separators.
pub open spec fn concat_segments(segs: Seq<Seq<u8>>) -> Seq<u8>
    decreases segs.len(),
{
    if segs.len() == 0 {
        Seq::empty()
    } else {
        concat_segments(segs.drop_last()) + segs.last()
    }
}

/// ASCII whitespace: space, tab, line feed, carriage return.
pub open spec fn is_space(b: u8) -> bool {
    b == 32 || b == 9 || b == 10 || b == 13
}

/// `s` with its leading whitespace removed.
pub open spec fn trim_start(s: Seq<u8>) -> Seq<u8>
    decreases s.len(),
{
    if s.len() == 0 {
        s
    } else if is_space(s.first()) {
        trim_start(s.drop_first())
    } else {
        s
    }
}

/// `s` with its trailing whitespace removed.
pub open spec fn trim_end(s: Seq<u8>) -> Seq<u8>
    decreases s.len(),
{
    if s.len() == 0 {
        s
    } else if is_space(s.last()) {
        trim_end(s.drop_last())
    } else {
        s
    }
}

/// `s` with whitespace removed at both ends, and nowhere else.
pub open spec fn trim_spec(s: Seq<u8>) -> Seq<u8> {
    trim_end(trim_start(s))
}

fn is_space_byte(b: u8) -> (r: bool)
    ensures
        r == is_space(b),
{
    b == 32 || b == 9 || b == 10 || b == 13
}

/// Joins the engine's text segments in emission order, adding nothing.
pub fn join_segments(segments: &Vec<Vec<u8>>) -> (r: Vec<u8>)
    ensures
        r@ == concat_segments(views_of(segments@)),
{
    let mut out: Vec<u8> = Vec::new();
    let mut i: usize = 0;
    while i < segments.len()
        invariant
            0 <= i <= segments@.len(),
            out@ == concat_segments(views_of(segments@).subrange(0, i as int)),
        decreases segments@.len() - i,
    {
        out.extend_from_slice(segments[i].as_slice());
        proof {
            assert(views_of(segments@).subrange(0, i + 1).drop_last() =~= views_of(
                segments@,
            ).subrange(0, i as int));
            assert(views_of(segments@).subrange(0, i + 1).last() == segments@[i as int]@);
        }
        i = i + 1;
    }
    proof {
        assert(views_of(segments@).subrange(0, segments@.len() as int) =~= views_of(segments@));
    }
    out
}

/// Removes whitespace from both ends of `s`, once, and nothing from the
/// interior.
pub fn trim_bytes(s: &Vec<u8>) -> (r: Vec<u8>)
    ensures
        r@ == trim_spec(s@),
{
    let len = s.len();
    proof {
        assert(s@.subrange(0, len as int) =~= s@);
    }
    let mut i: usize = 0;
    while i < len && is_space_byte(s[i])
        invariant
            0 <= i <= len,
            len == s@.len(),
            trim_start(s@) == trim_start(s@.subrange(i as int, len as int)),
        decreases len - i,
    {
        proof {
            assert(s@.subrange(i as int, len as int).drop_first() =~= s@.subrange(
                i + 1,
                len as int,
            ));
        }
        i = i + 1;
    }
    proof {
        if i < len {
            assert(trim_start(s@.subrange(i as int, len as int)) == s@.subrange(
                i as int,
                len as int,
            ));
        } else {
            assert(s@.subrange(i as int, len as int) =~= Seq::<u8>::empty());
        }
    }
    let mut j: usize = len;
    while j > i && is_space_byte(s[j - 1])
        invariant
            i <= j <= len,
            len == s@.len(),
            trim_start(s@) == trim_start(s@.subrange(i as int, len as int)),
            trim_end(s@.subrange(i as int, len as int)) == trim_end(s@.subrange(i as int, j as int)),
        decreases j,
    {
        proof {
            assert(s@.subrange(i as int, j as int).drop_last() =~= s@.subrange(i as int, j - 1));
            assert(s@.subrange(i as int, j as int).last() == s@[j - 1]);
        }
        j = j - 1;
    }
    proof {
        if j > i {
            assert(trim_end(s@.subrange(i as int, j as int)) == s@.subrange(i as int, j as int));
        } else {
            assert(s@.subrange(i as int, j as int) =~= Seq::<u8>::empty());
        }
    }
    vstd::slice::slice_to_vec(vstd::slice::slice_subrange(s.as_slice(), i, j))
}

/// Assembles the final transcription: the exact in-order join of the
/// segment texts, trimmed once at the ends only.
pub fn assemble_transcription(segments: &Vec<Vec<u8>>) -> (r: Vec<u8>)
    ensures
        r@ == trim_spec(concat_segments(views_of(segments@))),
{
    let joined = join_segments(segments);
    trim_bytes(&joined)
}

/// Finalizes one engine run into the value handed to the result sink.
pub fn finalize_result(segments: &Vec<Vec<u8>>, language: &str, model: &str) -> (r:
    RecognitionResult)
    ensures
        r.text@ == trim_spec(concat_segments(views_of(segments@))),
        r.language@ == language@,
        r.model@ == model@,
{
    RecognitionResult {
        text: assemble_transcription(segments),
        language: language.to_owned(),
        model: model.to_owned(),
    }
}

/// Builds the one recognition request of an invocation; the samples pass
/// through unaltered.
pub fn build_request(samples: SampleBuffer, language: &str, model: &str) -> (r: RecognitionRequest)
    ensures
        r.samples@ == samples@,
        r.language@ == language@,
        r.model@ == model@,
{
    RecognitionRequest { samples, language: language.to_owned(), model: model.to_owned() }
}

/// Leading whitespace is all that `trim_start` removes: the rest is a
/// contiguous suffix beginning with a non-space byte (when non-empty).
proof fn lemma_trim_start_shape(s: Seq<u8>) -> (i: int)
    ensures
        0 <= i <= s.len(),
        trim_start(s) == s.subrange(i, s.len() as int),
        forall|k: int| 0 <= k < i ==> is_space(s[k]),
        i < s.len() ==> !is_space(s[i]),
    decreases s.len(),
{
    if s.len() == 0 {
        assert(s.subrange(0, 0) =~= s);
        0
    } else if is_space(s.first()) {
        let i0 = lemma_trim_start_shape(s.drop_first());
        assert(s.drop_first().subrange(i0, s.drop_first().len() as int) =~= s.subrange(
            i0 + 1,
            s.len() as int,
        ));
        assert forall|k: int| 0 <= k < i0 + 1 implies is_space(s[k]) by {
            if k >= 1 {
                assert(is_space(s.drop_first()[k - 1]));
            }
        }
        assert(i0 + 1 < s.len() ==> !is_space(s.drop_first()[i0]));
        i0 + 1
    } else {
        assert(s.subrange(0, s.len() as int) =~= s);
        0
    }
}

/// Trailing whitespace is all that `trim_end` removes: the rest is a
/// contiguous prefix ending with a non-space byte (when non-empty).
proof fn lemma_trim_end_shape(s: Seq<u8>) -> (j: int)
    ensures
        0 <= j <= s.len(),
        trim_end(s) == s.subrange(0, j),
        forall|k: int| j <= k < s.len() ==> is_space(s[k]),
        j > 0 ==> !is_space(s[j - 1]),
    decreases s.len(),
{
    if s.len() == 0 {
        assert(s.subrange(0, 0) =~= s);
        0
    } else if is_space(s.last()) {
        let j0 = lemma_trim_end_shape(s.drop_last());
        assert(s.drop_last().subrange(0, j0) =~= s.subrange(0, j0));
        assert forall|k: int| j0 <= k < s.len() implies is_space(s[k]) by {
            if k < s.len() - 1 {
                assert(is_space(s.drop_last()[k]));
            }
        }
        j0
    } else {
        assert(s.subrange(0, s.len() as int) =~= s);
        s.len() as int
    }
}

/// Trimming cuts the two ends only: the result is a contiguous slice of the
/// input, everything outside it is whitespace, and a non-empty result keeps
/// non-space bytes at both of its ends.
pub proof fn lemma_trim_cuts_ends_only(s: Seq<u8>)
    ensures
        exists|i: int, j: int|
            (0 <= i <= j <= s.len() && trim_spec(s) == s.subrange(i, j) && (forall|k: int|
                0 <= k < i ==> is_space(s[k])) && (forall|k: int|
                j <= k < s.len() ==> is_space(s[k])) && (i < j ==> !is_space(s[i]) && !is_space(
                s[j - 1],
            ))),
{
    let i = lemma_trim_start_shape(s);
    let t = s.subrange(i, s.len() as int);
    let j0 = lemma_trim_end_shape(t);
    let j = i + j0;
    assert(t.subrange(0, j0) =~= s.subrange(i, j));
    assert forall|k: int| j <= k < s.len() implies is_space(s[k]) by {
        assert(s[k] == t[k - i]);
    }
    assert(0 <= i <= j <= s.len() && trim_spec(s) == s.subrange(i, j) && (forall|k: int|
        0 <= k < i ==> is_space(s[k])) && (forall|k: int| j <= k < s.len() ==> is_space(s[k])) && (i
        < j ==> !is_space(s[i]) && !is_space(s[j - 1])));
}

/// The three model artifact locations, in fixed search order: the user
/// cache, the system share, the local models directory.
pub fn model_candidates(home: &str, model: &str) -> (r: Vec<String>)
    ensures
        r@.len() == 3,
        r@[0]@ == home@ + "/.cache/whisper/ggml-"@ + model@ + ".bin"@,
        r@[1]@ == "/usr/share/whisper/ggml-"@ + model@ + ".bin"@,
        r@[2]@ == "./models/ggml-"@ + model@ + ".bin"@,
{
    let c0 = home.to_owned().concat("/.cache/whisper/ggml-").concat(model).concat(".bin");
    let c1 = "/usr/share/whisper/ggml-".to_owned().concat(model).concat(".bin");
    let c2 = "./models/ggml-".to_owned().concat(model).concat(".bin");
    let mut r: Vec<String> = Vec::new();
    r.push(c0);
    r.push(c1);
    r.push(c2);
    r
}

/// Resolves the model artifact: picks the first candidate present on disk
/// (the caller supplies one existence flag per candidate, in the same
/// order); when none is, fails with download guidance.
pub fn pick_model_path(candidates: &Vec<String>, exists: &Vec<bool>, model: &str) -> (r: Result<
    String,
    ListenError,
>)
    requires
        candidates@.len() == exists@.len(),
    ensures
        (r is Ok) <==> (exists|i: int| 0 <= i < exists@.len() && exists@[i]),
        r matches Ok(p) ==> (exists|i: int|
            0 <= i < exists@.len() && exists@[i] && p@ == candidates@[i]@ && (forall|k: int|
                0 <= k < i ==> !exists@[k])),
        r matches Err(e) ==> (e matches ListenError::Config(m) && m@ == "Whisper model '"@ + model@
            + "' not found. Download it first:\n  wget https://huggingface.co/ggerganov/whisper.cpp/resolve/main/ggml-"@
            + model@ + ".bin \\\n  -P ~/.cache/whisper/"@),
{
    let n = candidates.len();
    let mut i: usize = 0;
    while i < n
        invariant
            0 <= i <= n,
            n == candidates@.len() == exists@.len(),
            forall|k: int| 0 <= k < i ==> !exists@[k],
        decreases n - i,
    {
        if exists[i] {
            return Ok(candidates[i].clone());
        }
        i = i + 1;
    }
    let msg = "Whisper model '".to_owned().concat(model).concat(
        "' not found. Download it first:\n  wget https://huggingface.co/ggerganov/whisper.cpp/resolve/main/ggml-",
    ).concat(model).concat(".bin \\\n  -P ~/.cache/whisper/");
    Err(ListenError::Config(msg))
}

} // verus!
