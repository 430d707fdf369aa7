//! Standard base64 (RFC 4648 alphabet, `=` padding) for artwork bytes.
use vstd::prelude::*;

verus! {

/// The ASCII code of the base64 digit with value `v` (`v < 64`).
pub open spec fn digit_code(v: int) -> int {
    if v < 26 {
        65 + v
    } else if v < 52 {
        97 + (v - 26)
    } else if v < 62 {
        48 + (v - 52)
    } else if v == 62 {
        43
    } else {
        47
    }
}

/// The base64 digit with value `v`.
pub open spec fn digit(v: int) -> char {
    digit_code(v) as u8 as char
}

/// The value of a base64 digit; anything outside the alphabet reads as zero.
pub open spec fn digit_value(c: char) -> int {
    code_value(c as int)
}

/// The value of the base64 digit with ASCII code `u`.
pub open spec fn code_value(u: int) -> int {
    if 65 <= u <= 90 {
        u - 65
    } else if 97 <= u <= 122 {
        u - 97 + 26
    } else if 48 <= u <= 57 {
        u - 48 + 52
    } else if u == 43 {
        62
    } else if u == 47 {
        63
    } else {
        0
    }
}

/// The four digits for the group `b0 b1 b2`; `n` of the three bytes are real,
/// the missing ones read as zero and their digits become `=`.
pub open spec fn group(b0: int, b1: int, b2: int, n: int) -> Seq<char> {
    seq![
        digit(b0 / 4),
        digit((b0 % 4) * 16 + b1 / 16),
        if n > 1 { digit((b1 % 16) * 4 + b2 / 64) } else { '=' },
        if n > 2 { digit(b2 % 64) } else { '=' },
    ]
}

/// Base64 text of `b`: four characters for each group of three bytes, the
/// last group padded.
pub open spec fn encode(b: Seq<u8>) -> Seq<char>
    decreases b.len(),
{
    if b.len() == 0 {
        Seq::empty()
    } else if b.len() == 1 {
        group(b[0] as int, 0, 0, 1)
    } else if b.len() == 2 {
        group(b[0] as int, b[1] as int, 0, 2)
    } else {
        group(b[0] as int, b[1] as int, b[2] as int, 3) + encode(b.subrange(3, b.len() as int))
    }
}

/// The bytes that base64 text `s` stands for, read four characters at a time.
pub open spec fn decode(s: Seq<char>) -> Seq<u8>
    decreases s.len(),
{
    if s.len() < 4 {
        Seq::empty()
    } else {
        let v0 = digit_value(s[0]);
        let v1 = digit_value(s[1]);
        let v2 = digit_value(s[2]);
        let v3 = digit_value(s[3]);
        let b0 = (v0 * 4 + v1 / 16) as u8;
        let b1 = ((v1 % 16) * 16 + v2 / 4) as u8;
        let b2 = ((v2 % 4) * 64 + v3) as u8;
        if s[2] == '=' {
            seq![b0]
        } else if s[3] == '=' {
            seq![b0, b1]
        } else {
            seq![b0, b1, b2] + decode(s.subrange(4, s.len() as int))
        }
    }
}

proof fn lemma_digit_round_trip(v: int)
    requires
        0 <= v < 64,
    ensures
        digit_value(digit(v)) == v,
        digit(v) != '=',
{
}

proof fn lemma_group_bytes(b0: int, b1: int, b2: int)
    requires
        0 <= b0 < 256,
        0 <= b1 < 256,
        0 <= b2 < 256,
    ensures
        0 <= b0 / 4 < 64,
        0 <= (b0 % 4) * 16 + b1 / 16 < 64,
        0 <= (b1 % 16) * 4 + b2 / 64 < 64,
        0 <= b2 % 64 < 64,
        (b0 / 4) * 4 + ((b0 % 4) * 16 + b1 / 16) / 16 == b0,
        (((b0 % 4) * 16 + b1 / 16) % 16) * 16 + ((b1 % 16) * 4 + b2 / 64) / 4 == b1,
        (((b1 % 16) * 4 + b2 / 64) % 4) * 64 + b2 % 64 == b2,
{
    assert(0 <= (b0 % 4) * 16 + b1 / 16 < 64) by (nonlinear_arith)
        requires 0 <= b0 < 256, 0 <= b1 < 256;
    assert(0 <= (b1 % 16) * 4 + b2 / 64 < 64) by (nonlinear_arith)
        requires 0 <= b1 < 256, 0 <= b2 < 256;
    assert((b0 / 4) * 4 + ((b0 % 4) * 16 + b1 / 16) / 16 == b0) by (nonlinear_arith)
        requires 0 <= b0 < 256, 0 <= b1 < 256;
    assert((((b0 % 4) * 16 + b1 / 16) % 16) * 16 + ((b1 % 16) * 4 + b2 / 64) / 4 == b1)
        by (nonlinear_arith)
        requires 0 <= b0 < 256, 0 <= b1 < 256, 0 <= b2 < 256;
    assert((((b1 % 16) * 4 + b2 / 64) % 4) * 64 + b2 % 64 == b2) by (nonlinear_arith)
        requires 0 <= b1 < 256, 0 <= b2 < 256;
}

proof fn lemma_decode_encode(b: Seq<u8>)
    ensures
        decode(encode(b)) == b,
    decreases b.len(),
{
    if b.len() == 0 {
        assert(decode(encode(b)) =~= b);
    } else {
        let b0 = b[0] as int;
        let b1 = if b.len() > 1 { b[1] as int } else { 0 };
        let b2 = if b.len() > 2 { b[2] as int } else { 0 };
        lemma_group_bytes(b0, b1, b2);
        lemma_digit_round_trip(b0 / 4);
        lemma_digit_round_trip((b0 % 4) * 16 + b1 / 16);
        lemma_digit_round_trip((b1 % 16) * 4 + b2 / 64);
        lemma_digit_round_trip(b2 % 64);
        let e = encode(b);
        if b.len() <= 2 {
            assert(decode(e) =~= b);
        } else {
            let rest = b.subrange(3, b.len() as int);
            lemma_decode_encode(rest);
            let g = group(b0, b1, b2, 3);
            assert(e.subrange(4, e.len() as int) =~= encode(rest));
            assert(e[0] == g[0] && e[1] == g[1] && e[2] == g[2] && e[3] == g[3]);
            assert(decode(e) =~= b);
        }
    }
}

/// Relies on `String::push`: appends one character.
#[verifier::external_body]
fn push_char(s: &mut String, c: char)
    ensures
        final(s)@ == old(s)@.push(c),
{
    s.push(c)
}

fn digit_exec(v: u8) -> (c: char)
    requires
        v < 64,
    ensures
        c == digit(v as int),
{
    let code: u8 = if v < 26 {
        65 + v
    } else if v < 52 {
        97 + (v - 26)
    } else if v < 62 {
        48 + (v - 52)
    } else if v == 62 {
        43
    } else {
        47
    };
    code as char
}

/// Base64 text of `data`, standard alphabet with `=` padding.
pub fn base64_encode(data: &[u8]) -> (r: String)
    ensures
        r@ == encode(data@),
{
    let n: usize = data.len();
    let mut out = String::new();
    let mut i: usize = 0;
    assert(data@.subrange(0, n as int) =~= data@);
    assert(out@ + encode(data@) =~= encode(data@));
    while i < n
        invariant
            n == data@.len(),
            i <= n,
            out@ + encode(data@.subrange(i as int, n as int)) == encode(data@),
        decreases n - i,
    {
        let rest = Ghost(data@.subrange(i as int, n as int));
        let left: usize = n - i;
        let b0: u8 = data[i];
        let b1: u8 = if left > 1 { data[i + 1] } else { 0 };
        let b2: u8 = if left > 2 { data[i + 2] } else { 0 };
        let ghost g = group(b0 as int, b1 as int, b2 as int, if left > 2 { 3 } else { left as int });
        proof {
            lemma_group_bytes(b0 as int, b1 as int, b2 as int);
            if left > 2 {
                assert(rest@.subrange(3, rest@.len() as int)
                    =~= data@.subrange(i + 3, n as int));
            }
        }
        let before = Ghost(out@);
        push_char(&mut out, digit_exec(b0 / 4));
        push_char(&mut out, digit_exec((b0 % 4) * 16 + b1 / 16));
        if left > 1 {
            push_char(&mut out, digit_exec((b1 % 16) * 4 + b2 / 64));
        } else {
            push_char(&mut out, '=');
        }
        if left > 2 {
            push_char(&mut out, digit_exec(b2 % 64));
            i = i + 3;
        } else {
            push_char(&mut out, '=');
            i = n;
        }
        proof {
            assert(out@ =~= before@ + g);
            if left > 2 {
                assert(encode(rest@) == g + encode(data@.subrange(i as int, n as int)));
                assert(before@ + encode(rest@) =~= out@ + encode(data@.subrange(i as int, n as int)));
            } else {
                assert(encode(rest@) == g);
                assert(data@.subrange(i as int, n as int) =~= Seq::<u8>::empty());
                assert(out@ + encode(data@.subrange(i as int, n as int)) =~= out@);
            }
        }
    }
    assert(data@.subrange(n as int, n as int) =~= Seq::<u8>::empty());
    assert(out@ + encode(data@.subrange(n as int, n as int)) =~= out@);
    out
}

fn value_of(code: u8) -> (r: u8)
    ensures
        r as int == code_value(code as int),
        r < 64,
{
    if 65 <= code && code <= 90 {
        code - 65
    } else if 97 <= code && code <= 122 {
        code - 97 + 26
    } else if 48 <= code && code <= 57 {
        code - 48 + 52
    } else if code == 43 {
        62
    } else if code == 47 {
        63
    } else {
        0
    }
}

/// The bytes that base64 text stands for; none when the text is not ASCII.
pub fn base64_decode(text: &str) -> (r: Option<Vec<u8>>)
    ensures
        r is None <==> !vstd::string::is_ascii(text),
        r matches Some(v) ==> v@ == decode(text@),
{
    if !text.is_ascii() {
        return None;
    }
    let b = text.as_bytes();
    proof {
        vstd::string::is_ascii_spec_bytes(text);
    }
    let n: usize = b.len();
    assert(forall|k: int| 0 <= k < n ==> (#[trigger] b@[k]) as int == text@[k] as int);
    let mut out: Vec<u8> = Vec::new();
    let mut i: usize = 0;
    let mut done = false;
    assert(text@.subrange(0, n as int) =~= text@);
    assert(out@ + decode(text@) =~= decode(text@));
    while n - i >= 4
        invariant
            n == text@.len(),
            n == b@.len(),
            i <= n,
            forall|k: int| 0 <= k < n ==> (#[trigger] b@[k]) as int == text@[k] as int,
            !done ==> out@ + decode(text@.subrange(i as int, n as int)) == decode(text@),
            done ==> out@ == decode(text@) && i == n,
        decreases n - i,
    {
        let s = Ghost(text@.subrange(i as int, n as int));
        assert(s@[0] == text@[i as int] && s@[1] == text@[i + 1] && s@[2] == text@[i + 2]
            && s@[3] == text@[i + 3]);
        let v0 = value_of(b[i]);
        let v1 = value_of(b[i + 1]);
        let v2 = value_of(b[i + 2]);
        let v3 = value_of(b[i + 3]);
        let b0: u8 = v0 * 4 + v1 / 16;
        let b1: u8 = (v1 % 16) * 16 + v2 / 4;
        let b2: u8 = (v2 % 4) * 64 + v3;
        let before = Ghost(out@);
        if b[i + 2] == 61 {
            out.push(b0);
            done = true;
            i = n;
            proof {
                assert(s@[2] == '=');
                assert(out@ =~= before@ + decode(s@));
            }
        } else if b[i + 3] == 61 {
            out.push(b0);
            out.push(b1);
            done = true;
            i = n;
            proof {
                assert(s@[3] == '=');
                assert(out@ =~= before@ + decode(s@));
            }
        } else {
            out.push(b0);
            out.push(b1);
            out.push(b2);
            proof {
                assert(s@[2] != '=');
                assert(s@[3] != '=');
                assert(s@.subrange(4, s@.len() as int) =~= text@.subrange(i + 4, n as int));
                assert(decode(s@) == seq![b0, b1, b2] + decode(text@.subrange(i + 4, n as int)));
                assert(out@ =~= before@ + seq![b0, b1, b2]);
            }
            i = i + 4;
        }
    }
    if !done {
        assert(decode(text@.subrange(i as int, n as int)) =~= Seq::<u8>::empty());
        assert(out@ =~= out@ + Seq::<u8>::empty());
    }
    Some(out)
}

proof fn lemma_encoded_is_ascii(b: Seq<u8>)
    ensures
        vstd::utf8::is_ascii_chars(encode(b)),
    decreases b.len(),
{
    if b.len() > 2 {
        lemma_encoded_is_ascii(b.subrange(3, b.len() as int));
    }
}

/// For every byte buffer, its base64 text is ASCII, so `base64_decode`
/// accepts it, and decoding it gives the buffer back, whatever the buffer's
/// length modulo three.
pub proof fn lemma_round_trip(b: Seq<u8>)
    ensures
        vstd::utf8::is_ascii_chars(encode(b)),
        decode(encode(b)) == b,
{
    lemma_encoded_is_ascii(b);
    lemma_decode_encode(b);
}

} // verus!
