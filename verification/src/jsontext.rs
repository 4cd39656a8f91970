//! Rendering event payloads as JSON text: decimal numbers, string escaping,
//! and the small fixed-shape objects the engine records.

use vstd::prelude::*;
use vstd::string::*;

verus! {

pub open spec fn digit_char(d: nat) -> char {
    if d == 0 { '0' } else if d == 1 { '1' } else if d == 2 { '2' } else if d == 3 { '3' }
    else if d == 4 { '4' } else if d == 5 { '5' } else if d == 6 { '6' } else if d == 7 { '7' }
    else if d == 8 { '8' } else { '9' }
}

/// Decimal digits of `n`, most significant first.
pub open spec fn dec_digits(n: nat) -> Seq<char>
    decreases n,
{
    if n < 10 {
        seq![digit_char(n)]
    } else {
        dec_digits(n / 10) + seq![digit_char(n % 10)]
    }
}

fn digit_str(d: usize) -> (s: &'static str)
    requires
        d < 10,
    ensures
        s@ == seq![digit_char(d as nat)],
{
    proof {
        reveal_strlit("0");
        reveal_strlit("1");
        reveal_strlit("2");
        reveal_strlit("3");
        reveal_strlit("4");
        reveal_strlit("5");
        reveal_strlit("6");
        reveal_strlit("7");
        reveal_strlit("8");
        reveal_strlit("9");
    }
    if d == 0 { "0" } else if d == 1 { "1" } else if d == 2 { "2" } else if d == 3 { "3" }
    else if d == 4 { "4" } else if d == 5 { "5" } else if d == 6 { "6" } else if d == 7 { "7" }
    else if d == 8 { "8" } else { "9" }
}

/// `n` in decimal.
pub fn usize_to_string(n: usize) -> (s: String)
    ensures
        s@ == dec_digits(n as nat),
    decreases n,
{
    if n < 10 {
        String::from_str(digit_str(n))
    } else {
        proof {
            assert(n / 10 < n) by (nonlinear_arith)
                requires
                    n >= 10,
            ;
        }
        let mut s = usize_to_string(n / 10);
        s.append(digit_str(n % 10));
        s
    }
}

pub open spec fn hex_char(d: nat) -> char {
    if d == 0 { '0' } else if d == 1 { '1' } else if d == 2 { '2' } else if d == 3 { '3' }
    else if d == 4 { '4' } else if d == 5 { '5' } else if d == 6 { '6' } else if d == 7 { '7' }
    else if d == 8 { '8' } else if d == 9 { '9' } else if d == 10 { 'a' }
    else if d == 11 { 'b' } else if d == 12 { 'c' } else if d == 13 { 'd' }
    else if d == 14 { 'e' } else { 'f' }
}

fn hex_str(d: u32) -> (s: &'static str)
    requires
        d < 16,
    ensures
        s@ == seq![hex_char(d as nat)],
{
    proof {
        reveal_strlit("0");
        reveal_strlit("1");
        reveal_strlit("2");
        reveal_strlit("3");
        reveal_strlit("4");
        reveal_strlit("5");
        reveal_strlit("6");
        reveal_strlit("7");
        reveal_strlit("8");
        reveal_strlit("9");
        reveal_strlit("a");
        reveal_strlit("b");
        reveal_strlit("c");
        reveal_strlit("d");
        reveal_strlit("e");
        reveal_strlit("f");
    }
    if d == 0 { "0" } else if d == 1 { "1" } else if d == 2 { "2" } else if d == 3 { "3" }
    else if d == 4 { "4" } else if d == 5 { "5" } else if d == 6 { "6" } else if d == 7 { "7" }
    else if d == 8 { "8" } else if d == 9 { "9" } else if d == 10 { "a" }
    else if d == 11 { "b" } else if d == 12 { "c" } else if d == 13 { "d" }
    else if d == 14 { "e" } else { "f" }
}

/// How one character is written inside a JSON string: quote and backslash
/// get a backslash, the common control characters get their short escapes,
/// other control characters get a `\u00XX` escape, everything else stands
/// as itself.
pub open spec fn esc_char(c: char) -> Seq<char> {
    if c == '"' {
        "\\\""@
    } else if c == '\\' {
        "\\\\"@
    } else if c == '\n' {
        "\\n"@
    } else if c == '\r' {
        "\\r"@
    } else if c == '\t' {
        "\\t"@
    } else if (c as u32) < 32 {
        "\\u00"@ + seq![hex_char(((c as u32) / 16) as nat), hex_char(((c as u32) % 16) as nat)]
    } else {
        seq![c]
    }
}

/// A whole text escaped for a JSON string body.
pub open spec fn json_escaped(s: Seq<char>) -> Seq<char>
    decreases s.len(),
{
    if s.len() == 0 {
        Seq::empty()
    } else {
        json_escaped(s.drop_last()) + esc_char(s.last())
    }
}

/// Relies on `String::push`: appends one character at the end of the
/// string.
#[verifier::external_body]
fn push_char(out: &mut String, c: char)
    ensures
        final(out)@ == old(out)@ + seq![c],
{
    out.push(c);
}

/// Append `s`, escaped for a JSON string body, to `out`.
pub fn append_json_escaped(out: &mut String, s: &str)
    ensures
        final(out)@ == old(out)@ + json_escaped(s@),
{
    let n = s.unicode_len();
    let mut i: usize = 0;
    proof {
        assert(s@.take(0) =~= Seq::<char>::empty());
        assert(old(out)@ + json_escaped(s@.take(0)) =~= old(out)@);
    }
    while i < n
        invariant
            0 <= i <= n,
            n == s@.len(),
            out@ == old(out)@ + json_escaped(s@.take(i as int)),
        decreases n - i,
    {
        let c = s.get_char(i);
        if c == '"' {
            out.append("\\\"");
        } else if c == '\\' {
            out.append("\\\\");
        } else if c == '\n' {
            out.append("\\n");
        } else if c == '\r' {
            out.append("\\r");
        } else if c == '\t' {
            out.append("\\t");
        } else if (c as u32) < 32 {
            out.append("\\u00");
            out.append(hex_str((c as u32) / 16));
            out.append(hex_str((c as u32) % 16));
        } else {
            push_char(out, c);
        }
        proof {
            assert(s@.take(i + 1).drop_last() =~= s@.take(i as int));
            assert(s@.take(i + 1).last() == s@[i as int]);
        }
        i += 1;
    }
    proof {
        assert(s@.take(n as int) =~= s@);
    }
}

/// `{"reason":"R"}`
pub open spec fn json_obj_reason(reason: Seq<char>) -> Seq<char> {
    "{\"reason\":\""@ + json_escaped(reason) + "\"}"@
}

pub fn payload_reason(reason: &str) -> (s: String)
    ensures
        s@ == json_obj_reason(reason@),
{
    let mut out = String::from_str("{\"reason\":\"");
    append_json_escaped(&mut out, reason);
    out.append("\"}");
    out
}

/// `{"reason":"R","round":N}`
pub open spec fn json_obj_reason_round(reason: Seq<char>, round: nat) -> Seq<char> {
    "{\"reason\":\""@ + json_escaped(reason) + "\",\"round\":"@ + dec_digits(round) + "}"@
}

pub fn payload_reason_round(reason: &str, round: usize) -> (s: String)
    ensures
        s@ == json_obj_reason_round(reason@, round as nat),
{
    let mut out = String::from_str("{\"reason\":\"");
    append_json_escaped(&mut out, reason);
    out.append("\",\"round\":");
    let num = usize_to_string(round);
    out.append(num.as_str());
    out.append("}");
    out
}

/// `{"reason":"R","error":"E"}`
pub open spec fn json_obj_reason_error(reason: Seq<char>, err: Seq<char>) -> Seq<char> {
    "{\"reason\":\""@ + json_escaped(reason) + "\",\"error\":\""@ + json_escaped(err) + "\"}"@
}

pub fn payload_reason_error(reason: &str, err: &str) -> (s: String)
    ensures
        s@ == json_obj_reason_error(reason@, err@),
{
    let mut out = String::from_str("{\"reason\":\"");
    append_json_escaped(&mut out, reason);
    out.append("\",\"error\":\"");
    append_json_escaped(&mut out, err);
    out.append("\"}");
    out
}

/// `{"attempt":N,"error":"E"}`
pub open spec fn json_obj_attempt_error(attempt: nat, err: Seq<char>) -> Seq<char> {
    "{\"attempt\":"@ + dec_digits(attempt) + ",\"error\":\""@ + json_escaped(err) + "\"}"@
}

pub fn payload_attempt_error(attempt: usize, err: &str) -> (s: String)
    ensures
        s@ == json_obj_attempt_error(attempt as nat, err@),
{
    let mut out = String::from_str("{\"attempt\":");
    let num = usize_to_string(attempt);
    out.append(num.as_str());
    out.append(",\"error\":\"");
    append_json_escaped(&mut out, err);
    out.append("\"}");
    out
}

/// `{"round":N}`
pub open spec fn json_obj_round(round: nat) -> Seq<char> {
    "{\"round\":"@ + dec_digits(round) + "}"@
}

pub fn payload_round(round: usize) -> (s: String)
    ensures
        s@ == json_obj_round(round as nat),
{
    let mut out = String::from_str("{\"round\":");
    let num = usize_to_string(round);
    out.append(num.as_str());
    out.append("}");
    out
}

} // verus!
