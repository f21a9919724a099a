use vstd::prelude::*;
use vstd::utf8::decode_utf8;
use vstd::utf8::is_continuation_byte;
use vstd::utf8::is_leading_byte_width_1;
use vstd::utf8::is_leading_byte_width_2;
use vstd::utf8::is_leading_byte_width_3;
use vstd::utf8::is_leading_byte_width_4;
use vstd::utf8::length_of_first_scalar;
use vstd::utf8::partial_valid_partial_invalid_utf8;
use vstd::utf8::partial_valid_utf8;
use vstd::utf8::partial_valid_utf8_extend;
use vstd::utf8::valid_first_scalar;
use vstd::utf8::valid_leading_and_continuation_bytes_first_codepoint;
use vstd::utf8::valid_utf8;

verus! {

/// Reports whether the bytes form a valid UTF-8 encoding.
///
/// The drain path decides with this whether a buffered chunk of shell
/// output can be handed to the caller as text or must be reported as a
/// decode failure.
pub fn check_utf8(bytes: &[u8]) -> (r: bool)
    ensures
        r == valid_utf8(bytes@),
{
    let ghost all = bytes@;
    let n: usize = bytes.len();
    let mut i: usize = 0;
    proof {
        assert(all.subrange(0, 0) =~= Seq::<u8>::empty());
    }
    while i < n
        invariant
            i <= n,
            n == all.len(),
            all == bytes@,
            partial_valid_utf8(all, i as int),
        decreases n - i,
    {
        let ghost rest = all.subrange(i as int, n as int);
        proof {
            assert(rest.len() == n - i);
            assert(forall|k: int| 0 <= k < rest.len() ==> rest[k] == all[i + k]);
        }
        let remaining: usize = n - i;
        let b0: u8 = bytes[i];
        if b0 < 0x80 {
            // A 1-byte scalar: never overlong, never a surrogate.
            proof {
                assert(is_leading_byte_width_1(rest[0]));
                assert(valid_first_scalar(rest));
                assert(length_of_first_scalar(rest) == 1);
                partial_valid_utf8_extend(all, i as int);
            }
            i = i + 1;
        } else if b0 < 0xC0 {
            // A continuation byte in leading position.
            proof {
                assert(!valid_leading_and_continuation_bytes_first_codepoint(rest));
                assert(!valid_utf8(rest));
                partial_valid_partial_invalid_utf8(all, i as int);
            }
            return false;
        } else if b0 < 0xE0 {
            if remaining < 2 || !(0x80 <= bytes[i + 1] && bytes[i + 1] < 0xC0) {
                proof {
                    assert(!valid_leading_and_continuation_bytes_first_codepoint(rest));
                    assert(!valid_utf8(rest));
                    partial_valid_partial_invalid_utf8(all, i as int);
                }
                return false;
            }
            let b1: u8 = bytes[i + 1];
            let cp: u32 = (((b0 & 0x1F) as u32) << 6) | ((b1 & 0x3F) as u32);
            if cp < 0x80 || (0xD800 <= cp && cp <= 0xDFFF) {
                // Overlong, or (unreachably for this width) a surrogate.
                proof {
                    assert(rest[0] == b0 && rest[1] == b1);
                    assert(!valid_first_scalar(rest));
                    assert(!valid_utf8(rest));
                    partial_valid_partial_invalid_utf8(all, i as int);
                }
                return false;
            }
            proof {
                assert(rest[0] == b0 && rest[1] == b1);
                assert(is_continuation_byte(rest[1]));
                assert(valid_first_scalar(rest));
                assert(length_of_first_scalar(rest) == 2);
                partial_valid_utf8_extend(all, i as int);
            }
            i = i + 2;
        } else if b0 < 0xF0 {
            if remaining < 3 || !(0x80 <= bytes[i + 1] && bytes[i + 1] < 0xC0) || !(0x80 <= bytes[i
                + 2] && bytes[i + 2] < 0xC0) {
                proof {
                    assert(!valid_leading_and_continuation_bytes_first_codepoint(rest));
                    assert(!valid_utf8(rest));
                    partial_valid_partial_invalid_utf8(all, i as int);
                }
                return false;
            }
            let b1: u8 = bytes[i + 1];
            let b2: u8 = bytes[i + 2];
            let cp: u32 = (((b0 & 0x0F) as u32) << 12) | (((b1 & 0x3F) as u32) << 6) | ((b2
                & 0x3F) as u32);
            if cp < 0x800 || (0xD800 <= cp && cp <= 0xDFFF) {
                // Overlong, or a surrogate codepoint.
                proof {
                    assert(rest[0] == b0 && rest[1] == b1 && rest[2] == b2);
                    assert(!valid_first_scalar(rest));
                    assert(!valid_utf8(rest));
                    partial_valid_partial_invalid_utf8(all, i as int);
                }
                return false;
            }
            proof {
                assert(rest[0] == b0 && rest[1] == b1 && rest[2] == b2);
                assert(valid_first_scalar(rest));
                assert(length_of_first_scalar(rest) == 3);
                partial_valid_utf8_extend(all, i as int);
            }
            i = i + 3;
        } else if b0 < 0xF8 {
            if remaining < 4 || !(0x80 <= bytes[i + 1] && bytes[i + 1] < 0xC0) || !(0x80 <= bytes[i
                + 2] && bytes[i + 2] < 0xC0) || !(0x80 <= bytes[i + 3] && bytes[i + 3] < 0xC0) {
                proof {
                    assert(!valid_leading_and_continuation_bytes_first_codepoint(rest));
                    assert(!valid_utf8(rest));
                    partial_valid_partial_invalid_utf8(all, i as int);
                }
                return false;
            }
            let b1: u8 = bytes[i + 1];
            let b2: u8 = bytes[i + 2];
            let b3: u8 = bytes[i + 3];
            let cp: u32 = (((b0 & 0x07) as u32) << 18) | (((b1 & 0x3F) as u32) << 12) | (((b2
                & 0x3F) as u32) << 6) | ((b3 & 0x3F) as u32);
            if cp < 0x10000 || cp > 0x10FFFF {
                // Overlong, or beyond the last Unicode scalar.
                proof {
                    assert(rest[0] == b0 && rest[1] == b1 && rest[2] == b2 && rest[3] == b3);
                    assert(!valid_first_scalar(rest));
                    assert(!valid_utf8(rest));
                    partial_valid_partial_invalid_utf8(all, i as int);
                }
                return false;
            }
            proof {
                assert(rest[0] == b0 && rest[1] == b1 && rest[2] == b2 && rest[3] == b3);
                assert(valid_first_scalar(rest));
                assert(length_of_first_scalar(rest) == 4);
                partial_valid_utf8_extend(all, i as int);
            }
            i = i + 4;
        } else {
            // No UTF-8 leading byte is 0xF8 or above.
            proof {
                assert(!valid_leading_and_continuation_bytes_first_codepoint(rest));
                assert(!valid_utf8(rest));
                partial_valid_partial_invalid_utf8(all, i as int);
            }
            return false;
        }
    }
    proof {
        assert(all.subrange(0, n as int) =~= all);
    }
    true
}

/// Relies on `String::from_utf8`: on a byte vector that is valid UTF-8 it
/// returns `Ok` with the string those bytes encode.
#[verifier::external_body]
pub(crate) fn string_from_utf8(bytes: Vec<u8>) -> (text: String)
    requires
        valid_utf8(bytes@),
    ensures
        text@ == decode_utf8(bytes@),
{
    match String::from_utf8(bytes) {
        Ok(text) => text,
        Err(_) => String::new(),
    }
}

} // verus!
