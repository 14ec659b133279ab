//! Decoding of the zero-terminated wide-character buffers in which the
//! operating system hands back text.
//!
//! A buffer is read up to its first zero unit; the units before it are
//! decoded as wide text, combining a high surrogate followed by a low
//! surrogate into one character. A surrogate that is not part of such a
//! pair makes the whole buffer undecodable.

use vstd::prelude::*;

verus! {

/// True when the wide unit is a high (leading) surrogate.
pub open spec fn is_high_surrogate(u: u16) -> bool {
    0xD800 <= u < 0xDC00
}

/// True when the wide unit is a low (trailing) surrogate.
pub open spec fn is_low_surrogate(u: u16) -> bool {
    0xDC00 <= u < 0xE000
}

/// The scalar value encoded by a surrogate pair.
pub open spec fn pair_scalar(hi: u16, lo: u16) -> u32
    recommends
        is_high_surrogate(hi),
        is_low_surrogate(lo),
{
    (0x10000 + (hi - 0xD800) * 0x400 + (lo - 0xDC00)) as u32
}

/// The characters encoded by a wide buffer, reading up to the first zero
/// unit, or `None` when an unpaired surrogate stands before it.
pub open spec fn decoded_wide(s: Seq<u16>) -> Option<Seq<char>>
    decreases s.len(),
{
    if s.len() == 0 || s[0] == 0 {
        Some(Seq::<char>::empty())
    } else if !is_high_surrogate(s[0]) && !is_low_surrogate(s[0]) {
        match decoded_wide(s.skip(1)) {
            Some(rest) => Some(seq![(s[0] as u32) as char] + rest),
            None => None,
        }
    } else if is_high_surrogate(s[0]) && s.len() >= 2 && is_low_surrogate(s[1]) {
        match decoded_wide(s.skip(2)) {
            Some(rest) => Some(seq![pair_scalar(s[0], s[1]) as char] + rest),
            None => None,
        }
    } else {
        None
    }
}

/// Relies on `char::from_u32` of std: the character with the given scalar
/// value, or `None` when the value is a surrogate or above the last scalar.
pub assume_specification[ char::from_u32 ](i: u32) -> (r: Option<char>)
    ensures
        vstd::utf8::is_scalar(i) ==> r == Some(i as char),
        !vstd::utf8::is_scalar(i) ==> r is None,
;

/// Relies on `String::push` of std: appends exactly the given character.
pub assume_specification[ String::push ](s: &mut String, ch: char)
    ensures
        final(s)@ == old(s)@.push(ch),
;

/// Decode a zero-terminated wide buffer into text, or report that it is not
/// decodable.
pub fn decode_wide(buf: &Vec<u16>) -> (r: Option<String>)
    ensures
        match decoded_wide(buf@) {
            Some(cs) => r is Some && r.unwrap()@ == cs,
            None => r is None,
        },
{
    let mut out = String::new();
    let mut i: usize = 0;
    proof {
        assert(buf@.skip(0) =~= buf@);
    }
    while i < buf.len()
        invariant
            i <= buf@.len(),
            decoded_wide(buf@) == (match decoded_wide(buf@.skip(i as int)) {
                Some(rest) => Some(out@ + rest),
                None => None::<Seq<char>>,
            }),
        decreases buf@.len() - i,
    {
        let u = buf[i];
        let ghost tail = buf@.skip(i as int);
        assert(tail[0] == u);
        if u == 0 {
            proof {
                assert(decoded_wide(tail) == Some(Seq::<char>::empty()));
                assert(out@ + Seq::<char>::empty() =~= out@);
            }
            return Some(out);
        }
        if u < 0xD800 || u >= 0xE000 {
            let c = match char::from_u32(u as u32) {
                Some(c) => c,
                None => {
                    proof {
                        assert(vstd::utf8::is_scalar(u as u32));
                    }
                    return None;
                },
            };
            proof {
                assert(tail.skip(1) =~= buf@.skip(i as int + 1));
                assert(decoded_wide(tail) == (match decoded_wide(tail.skip(1)) {
                    Some(rest) => Some(seq![c] + rest),
                    None => None::<Seq<char>>,
                }));
                assert(forall|rest: Seq<char>| out@.push(c) + rest =~= out@ + (seq![c] + rest));
            }
            out.push(c);
            i = i + 1;
        } else if u < 0xDC00 {
            // High surrogate: a low surrogate must follow.
            if i + 1 < buf.len() {
                let u2 = buf[i + 1];
                assert(tail.len() >= 2 && tail[1] == u2);
                if 0xDC00 <= u2 && u2 < 0xE000 {
                    let scalar: u32 = 0x10000 + ((u as u32) - 0xD800) * 0x400 + ((u2 as u32)
                        - 0xDC00);
                    assert(scalar == pair_scalar(u, u2));
                    let c = match char::from_u32(scalar) {
                        Some(c) => c,
                        None => {
                            proof {
                                assert(vstd::utf8::is_scalar(scalar));
                            }
                            return None;
                        },
                    };
                    proof {
                        assert(tail.skip(2) =~= buf@.skip(i as int + 2));
                        assert(decoded_wide(tail) == (match decoded_wide(tail.skip(2)) {
                            Some(rest) => Some(seq![c] + rest),
                            None => None::<Seq<char>>,
                        }));
                        assert(forall|rest: Seq<char>|
                            out@.push(c) + rest =~= out@ + (seq![c] + rest));
                    }
                    out.push(c);
                    i = i + 2;
                } else {
                    return None;
                }
            } else {
                return None;
            }
        } else {
            // Unpaired low surrogate.
            return None;
        }
    }
    proof {
        assert(buf@.skip(buf@.len() as int).len() == 0);
        assert(out@ + Seq::<char>::empty() =~= out@);
    }
    Some(out)
}

/// A decodable buffer that does not begin with the terminator decodes to at
/// least one character.
pub proof fn lemma_decoded_nonempty(s: Seq<u16>)
    requires
        s.len() > 0,
        s[0] != 0,
        decoded_wide(s) is Some,
    ensures
        decoded_wide(s).unwrap().len() > 0,
{
}

} // verus!
