use vstd::prelude::*;
use vstd::string::StringSliceAdditionalSpecFns;

use crate::error::ListenError;

verus! {

/// Lowercase hex digit for one nibble.
pub open spec fn hex_digit(n: u8) -> u8 {
    if n < 10 {
        (48 + n) as u8
    } else {
        (87 + n) as u8
    }
}

/// How one byte appears inside a JSON string literal: quote and backslash
/// get a backslash escape, the named control characters their short forms,
/// other control bytes a \u00XX form, everything else passes through.
pub open spec fn json_escape_byte(b: u8) -> Seq<u8> {
    if b == 34 {
        seq![92u8, 34u8]
    } else if b == 92 {
        seq![92u8, 92u8]
    } else if b == 8 {
        seq![92u8, 98u8]
    } else if b == 12 {
        seq![92u8, 102u8]
    } else if b == 10 {
        seq![92u8, 110u8]
    } else if b == 13 {
        seq![92u8, 114u8]
    } else if b == 9 {
        seq![92u8, 116u8]
    } else if b < 32 {
        seq![92u8, 117u8, 48u8, 48u8, hex_digit(b / 16), hex_digit(b % 16)]
    } else {
        seq![b]
    }
}

/// A byte string escaped for a JSON string literal, byte for byte in order.
pub open spec fn json_escape(s: Seq<u8>) -> Seq<u8>
    decreases s.len(),
{
    if s.len() == 0 {
        Seq::empty()
    } else {
        json_escape(s.drop_last()) + json_escape_byte(s.last())
    }
}

/// The structured output: a pretty-printed JSON object with exactly the
/// keys `transcription`, `language` and `model`, in that order.
pub open spec fn json_output_bytes(t: Seq<u8>, l: Seq<u8>, m: Seq<u8>) -> Seq<u8> {
    "{\n  \"transcription\": \"".spec_bytes() + json_escape(t)
        + "\",\n  \"language\": \"".spec_bytes() + json_escape(l)
        + "\",\n  \"model\": \"".spec_bytes() + json_escape(m) + "\"\n}".spec_bytes()
}

fn hex_digit_byte(n: u8) -> (r: u8)
    requires
        n < 16,
    ensures
        r == hex_digit(n),
{
    if n < 10 {
        48 + n
    } else {
        87 + n
    }
}

fn push_str_bytes(out: &mut Vec<u8>, s: &str)
    ensures
        final(out)@ == old(out)@ + s.spec_bytes(),
{
    out.extend_from_slice(s.as_bytes());
}

fn append_escaped(out: &mut Vec<u8>, s: &[u8])
    ensures
        final(out)@ == old(out)@ + json_escape(s@),
{
    let len = s.len();
    let mut i: usize = 0;
    while i < len
        invariant
            0 <= i <= len,
            len == s@.len(),
            out@ == old(out)@ + json_escape(s@.subrange(0, i as int)),
        decreases len - i,
    {
        let b = s[i];
        let ghost prev = out@;
        if b == 34 {
            out.push(92);
            out.push(34);
        } else if b == 92 {
            out.push(92);
            out.push(92);
        } else if b == 8 {
            out.push(92);
            out.push(98);
        } else if b == 12 {
            out.push(92);
            out.push(102);
        } else if b == 10 {
            out.push(92);
            out.push(110);
        } else if b == 13 {
            out.push(92);
            out.push(114);
        } else if b == 9 {
            out.push(92);
            out.push(116);
        } else if b < 32 {
            out.push(92);
            out.push(117);
            out.push(48);
            out.push(48);
            out.push(hex_digit_byte(b / 16));
            out.push(hex_digit_byte(b % 16));
        } else {
            out.push(b);
        }
        proof {
            assert(out@ =~= prev + json_escape_byte(b));
            assert(s@.subrange(0, i + 1).drop_last() =~= s@.subrange(0, i as int));
            assert(s@.subrange(0, i + 1).last() == s@[i as int]);
        }
        i = i + 1;
    }
    proof {
        assert(s@.subrange(0, len as int) =~= s@);
    }
}

/// Renders the structured JSON output for a recognition result.
pub fn render_json(text: &Vec<u8>, language: &str, model: &str) -> (r: Vec<u8>)
    ensures
        r@ == json_output_bytes(text@, language.spec_bytes(), model.spec_bytes()),
{
    let mut out: Vec<u8> = Vec::new();
    push_str_bytes(&mut out, "{\n  \"transcription\": \"");
    append_escaped(&mut out, text.as_slice());
    push_str_bytes(&mut out, "\",\n  \"language\": \"");
    append_escaped(&mut out, language.as_bytes());
    push_str_bytes(&mut out, "\",\n  \"model\": \"");
    append_escaped(&mut out, model.as_bytes());
    push_str_bytes(&mut out, "\"\n}");
    out
}

/// Decides the console text for a finished transcription: JSON mode renders
/// the structured object; otherwise the bare text, preceded by one blank
/// line when the recording UI was visible.
pub fn render_console_output(
    text: &Vec<u8>,
    language: &str,
    model: &str,
    json: bool,
    leading_newline: bool,
) -> (r: Vec<u8>)
    ensures
        json ==> r@ == json_output_bytes(text@, language.spec_bytes(), model.spec_bytes()),
        !json && leading_newline ==> r@ == seq![10u8] + text@,
        !json && !leading_newline ==> r@ == text@,
{
    if json {
        render_json(text, language, model)
    } else if leading_newline {
        let mut out: Vec<u8> = Vec::new();
        out.push(10);
        out.extend_from_slice(text.as_slice());
        proof {
            assert(out@ =~= seq![10u8] + text@);
        }
        out
    } else {
        let mut out: Vec<u8> = Vec::new();
        out.extend_from_slice(text.as_slice());
        proof {
            assert(out@ =~= text@);
        }
        out
    }
}

/// File-mode gate: transcription of a file may proceed — and a model be
/// loaded — only when the file exists; a missing file fails the run at once.
pub fn require_existing_file(path: &str, exists: bool) -> (r: Result<(), ListenError>)
    ensures
        exists <==> r is Ok,
        !exists ==> (r matches Err(e) && e matches ListenError::File(m) && m@ == "File not found: "@
            + path@),
{
    if exists {
        Ok(())
    } else {
        Err(ListenError::File("File not found: ".to_owned().concat(path)))
    }
}

/// Persistence outcome: a failed write of the output file surfaces as a
/// file error carrying the reported detail; console output already shown
/// stays valid and is not retracted.
pub fn persist_outcome(write_ok: bool, detail: &str) -> (r: Result<(), ListenError>)
    ensures
        write_ok <==> r is Ok,
        !write_ok ==> (r matches Err(e) && e matches ListenError::File(m) && m@ == detail@),
{
    if write_ok {
        Ok(())
    } else {
        Err(ListenError::File(detail.to_owned()))
    }
}

} // verus!
