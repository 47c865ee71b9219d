//! Netstring codec: frames and deframes `len ":" body ","` records.
//!
//! A frame is the ASCII decimal length of the body, a colon, the body
//! bytes, and a trailing comma. Bodies longer than
//! [`crate::NS_PAYLOAD_MAX_LEN`] are refused.

use vstd::prelude::*;

verus! {

/// Reading one frame out of a byte buffer fails in one of these ways.
#[derive(Debug, Clone, Copy, PartialEq, Eq, Structural)]
pub enum FrameError {
    /// The buffer ends before the frame is complete.
    UnexpectedEof,
    /// The length prefix is empty or holds a non-decimal byte.
    InvalidDigits,
    /// The declared body length exceeds the frame cap.
    Oversize,
    /// The byte after the body is not a comma.
    BadTerminator,
}

/// What decoding from a given position yields: a body with the position
/// after its trailing comma, or an error.
pub enum FrameOutcome {
    Frame { body: Seq<u8>, next: int },
    Fail { err: FrameError },
}

pub open spec fn is_digit(b: u8) -> bool {
    0x30 <= b <= 0x39
}

pub open spec fn all_digits(s: Seq<u8>) -> bool {
    forall|i: int| 0 <= i < s.len() ==> is_digit(#[trigger] s[i])
}

pub open spec fn digit_val(b: u8) -> nat {
    if is_digit(b) {
        (b - 0x30) as nat
    } else {
        0
    }
}

/// Numeric value of a run of ASCII decimal digits.
pub open spec fn dec_value(s: Seq<u8>) -> nat
    decreases s.len(),
{
    if s.len() == 0 {
        0
    } else {
        dec_value(s.drop_last()) * 10 + digit_val(s.last())
    }
}

/// ASCII decimal digits of `n`, most significant first.
pub open spec fn dec_digits(n: nat) -> Seq<u8>
    decreases n,
{
    if n < 10 {
        seq![(0x30 + n) as u8]
    } else {
        dec_digits(n / 10) + seq![(0x30 + n % 10) as u8]
    }
}

/// One whole netstring frame around `b`.
pub open spec fn netstring(b: Seq<u8>) -> Seq<u8> {
    dec_digits(b.len()) + seq![0x3au8] + b + seq![0x2cu8]
}

/// Position of the first colon at or after `start`, if any.
pub open spec fn find_colon(s: Seq<u8>, start: int) -> Option<int>
    decreases s.len() - start,
{
    if start < 0 || start >= s.len() {
        None
    } else if s[start] == 0x3a {
        Some(start)
    } else {
        find_colon(s, start + 1)
    }
}

/// The meaning of decoding one frame of `s` starting at `start`: scan the
/// decimal length up to the first colon, check it against the cap, then
/// take that many body bytes and the comma after them.
pub open spec fn decode_model(s: Seq<u8>, start: int) -> FrameOutcome {
    match find_colon(s, start) {
        None => FrameOutcome::Fail { err: FrameError::UnexpectedEof },
        Some(c) => {
            let digits = s.subrange(start, c);
            if digits.len() == 0 || !all_digits(digits) {
                FrameOutcome::Fail { err: FrameError::InvalidDigits }
            } else if dec_value(digits) > crate::NS_PAYLOAD_MAX_LEN {
                FrameOutcome::Fail { err: FrameError::Oversize }
            } else {
                let len = dec_value(digits) as int;
                if c + 1 + len + 1 > s.len() {
                    FrameOutcome::Fail { err: FrameError::UnexpectedEof }
                } else if s[c + 1 + len] != 0x2c {
                    FrameOutcome::Fail { err: FrameError::BadTerminator }
                } else {
                    FrameOutcome::Frame { body: s.subrange(c + 1, c + 1 + len), next: c + 1 + len + 1 }
                }
            }
        },
    }
}

pub proof fn lemma_dec_digits_are_digits(n: nat)
    ensures
        all_digits(dec_digits(n)),
        dec_digits(n).len() >= 1,
    decreases n,
{
    if n >= 10 {
        lemma_dec_digits_are_digits(n / 10);
        let d = dec_digits(n);
        let p = dec_digits(n / 10);
        assert forall|i: int| 0 <= i < d.len() implies is_digit(#[trigger] d[i]) by {
            if i < p.len() {
                assert(d[i] == p[i]);
            }
        }
    }
}

pub proof fn lemma_dec_value_of_dec_digits(n: nat)
    ensures
        dec_value(dec_digits(n)) == n,
    decreases n,
{
    if n < 10 {
        let d = dec_digits(n);
        assert(d == seq![(0x30 + n) as u8]);
        assert(d.drop_last() =~= Seq::<u8>::empty());
        assert(d.last() == (0x30 + n) as u8);
        assert(digit_val((0x30 + n) as u8) == n);
        assert(dec_value(d) == dec_value(d.drop_last()) * 10 + digit_val(d.last()));
        assert(dec_value(d.drop_last()) == 0);
        assert(dec_value(d) == n);
    } else {
        lemma_dec_value_of_dec_digits(n / 10);
        let d = dec_digits(n);
        assert(d.drop_last() =~= dec_digits(n / 10));
        assert(d.last() == (0x30 + n % 10) as u8);
        assert(digit_val((0x30 + n % 10) as u8) == n % 10);
        assert(dec_value(d) == (n / 10) * 10 + n % 10);
        vstd::arithmetic::div_mod::lemma_fundamental_div_mod(n as int, 10);
    }
}

pub proof fn lemma_find_colon_skips(s: Seq<u8>, start: int, c: int)
    requires
        0 <= start <= c < s.len(),
        forall|j: int| start <= j < c ==> s[j] != 0x3a,
        s[c] == 0x3a,
    ensures
        find_colon(s, start) == Some(c),
    decreases c - start,
{
    if start < c {
        lemma_find_colon_skips(s, start + 1, c);
    }
}

/// Framing round-trip: decoding a frame built around any body `b` within
/// the cap yields exactly `b` and consumes the whole frame, whose length
/// is the digit count of `|b|` plus `|b|` plus two.
pub proof fn lemma_netstring_round_trip(b: Seq<u8>)
    requires
        b.len() <= crate::NS_PAYLOAD_MAX_LEN,
    ensures
        decode_model(netstring(b), 0) == (FrameOutcome::Frame {
            body: b,
            next: netstring(b).len() as int,
        }),
        netstring(b).len() == dec_digits(b.len()).len() + 1 + b.len() + 1,
{
    let s = netstring(b);
    let d = dec_digits(b.len());
    lemma_dec_digits_are_digits(b.len());
    lemma_dec_value_of_dec_digits(b.len());
    let c = d.len() as int;
    assert forall|j: int| 0 <= j < c implies s[j] != 0x3a by {
        assert(s[j] == d[j]);
        assert(is_digit(d[j]));
    }
    assert(s[c] == 0x3a);
    lemma_find_colon_skips(s, 0, c);
    assert(s.subrange(0, c) =~= d);
    let len = b.len() as int;
    assert(s[c + 1 + len] == 0x2c);
    assert(s.subrange(c + 1, c + 1 + len) =~= b);
}

/// Writes the decimal digits of `n`, as `dec_digits` describes them.
pub fn u64_to_dec(n: u64) -> (digits: Vec<u8>)
    ensures
        digits@ == dec_digits(n as nat),
    decreases n,
{
    if n < 10 {
        let mut v: Vec<u8> = Vec::new();
        v.push(0x30 + (n as u8));
        v
    } else {
        let mut v = u64_to_dec(n / 10);
        v.push(0x30 + ((n % 10) as u8));
        assert(v@ == dec_digits((n / 10) as nat) + seq![(0x30 + (n as nat) % 10) as u8]);
        v
    }
}

/// Appends every byte of `src` to `dst`.
pub fn push_all(dst: &mut Vec<u8>, src: &Vec<u8>)
    ensures
        final(dst)@ == old(dst)@ + src@,
{
    let mut i: usize = 0;
    while i < src.len()
        invariant
            i <= src.len(),
            dst@ == old(dst)@ + src@.subrange(0, i as int),
        decreases src.len() - i,
    {
        dst.push(src[i]);
        assert(old(dst)@ + src@.subrange(0, i as int) + seq![src@[i as int]] =~= old(dst)@
            + src@.subrange(0, i + 1));
        i += 1;
    }
    assert(src@.subrange(0, src@.len() as int) =~= src@);
}

/// Frames `body` into `out`, reusing `out`'s allocation: `out` afterwards
/// holds exactly the netstring around `body`.
pub fn encode_frame(body: &Vec<u8>, out: &mut Vec<u8>)
    ensures
        final(out)@ == netstring(body@),
{
    out.clear();
    let digits = u64_to_dec(body.len() as u64);
    push_all(out, &digits);
    out.push(0x3a);
    push_all(out, body);
    out.push(0x2c);
    assert(out@ =~= netstring(body@));
}

/// Decodes one frame of `input` starting at `start`, exactly as
/// `decode_model` describes; on success returns the body bytes and the
/// position just after the frame.
pub fn decode_frame(input: &Vec<u8>, start: usize) -> (r: Result<(Vec<u8>, usize), FrameError>)
    requires
        start <= input@.len(),
    ensures
        match r {
            Ok(p) => decode_model(input@, start as int) == (FrameOutcome::Frame {
                body: p.0@,
                next: p.1 as int,
            }) && p.1 <= input@.len(),
            Err(e) => decode_model(input@, start as int) == (FrameOutcome::Fail { err: e }),
        },
{
    let n = input.len();
    let ghost s = input@;
    let mut i: usize = start;
    let mut all_dig: bool = true;
    let mut oversize: bool = false;
    let mut value: u64 = 0;
    while i < n && input[i] != 0x3a
        invariant
            start <= i <= n,
            n == s.len(),
            s == input@,
            find_colon(s, start as int) == find_colon(s, i as int),
            all_dig == all_digits(s.subrange(start as int, i as int)),
            all_dig ==> (oversize <==> dec_value(s.subrange(start as int, i as int))
                > crate::NS_PAYLOAD_MAX_LEN),
            all_dig && !oversize ==> value == dec_value(s.subrange(start as int, i as int))
                && value <= crate::NS_PAYLOAD_MAX_LEN as u64,
        decreases n - i,
    {
        let b = input[i];
        let ghost pre = s.subrange(start as int, i as int);
        let ghost post = s.subrange(start as int, i + 1);
        assert(post.drop_last() =~= pre);
        assert(post.last() == b);
        if b < 0x30 || b > 0x39 {
            all_dig = false;
        } else if all_dig && !oversize {
            let nv = value * 10 + ((b - 0x30) as u64);
            assert(dec_value(post) == dec_value(pre) * 10 + digit_val(b));
            if nv > crate::NS_PAYLOAD_MAX_LEN as u64 {
                oversize = true;
            } else {
                value = nv;
            }
        } else if all_dig {
            assert(dec_value(post) == dec_value(pre) * 10 + digit_val(b));
            assert(dec_value(pre) * 10 >= dec_value(pre)) by (nonlinear_arith)
                requires dec_value(pre) >= 0,
            ;
        }
        i += 1;
    }
    if i == n {
        assert(find_colon(s, i as int) is None);
        return Err(FrameError::UnexpectedEof);
    }
    assert(find_colon(s, i as int) == Some(i as int));
    let ghost digits = s.subrange(start as int, i as int);
    if i == start || !all_dig {
        return Err(FrameError::InvalidDigits);
    }
    if oversize {
        return Err(FrameError::Oversize);
    }
    let len = value as usize;
    // The body and its comma must both lie inside the buffer.
    if n - (i + 1) < len + 1 {
        return Err(FrameError::UnexpectedEof);
    }
    if input[i + 1 + len] != 0x2c {
        return Err(FrameError::BadTerminator);
    }
    let mut body: Vec<u8> = Vec::new();
    let mut j: usize = i + 1;
    while j < i + 1 + len
        invariant
            i + 1 <= j <= i + 1 + len,
            i + 1 + len < n,
            n == s.len(),
            s == input@,
            body@ == s.subrange(i + 1, j as int),
        decreases i + 1 + len - j,
    {
        body.push(input[j]);
        assert(s.subrange(i + 1, j as int) + seq![s[j as int]] =~= s.subrange(i + 1, j + 1));
        j += 1;
    }
    Ok((body, i + 1 + len + 1))
}

} // verus!
