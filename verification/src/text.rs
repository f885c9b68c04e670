//! UTF-8 validation, verified against vstd's model of UTF-8, and the
//! decoding of bytes already known to be valid.

use vstd::prelude::*;
use vstd::utf8::{
    codepoint_width_2, codepoint_width_3, codepoint_width_4, decode_utf8,
    length_of_first_scalar, pop_first_scalar, valid_first_scalar, valid_utf8,
};

verus! {

/// Whether the bytes form a valid UTF-8 encoding: correct leading and
/// continuation bit patterns, no overlong encodings, no surrogates.
pub fn utf8_is_valid(bytes: &Vec<u8>) -> (r: bool)
    ensures
        r == valid_utf8(bytes@),
{
    let n = bytes.len();
    proof {
        assert(bytes@.subrange(0, n as int) =~= bytes@);
    }
    let mut i: usize = 0;
    while i < n
        invariant
            i <= n,
            n == bytes@.len(),
            valid_utf8(bytes@) == valid_utf8(bytes@.subrange(i as int, n as int)),
        decreases n - i,
    {
        let ghost s = bytes@.subrange(i as int, n as int);
        let b0 = bytes[i];
        assert(s[0] == b0);
        if b0 < 0x80 {
            proof {
                assert(valid_first_scalar(s));
                assert(pop_first_scalar(s) =~= bytes@.subrange(i + 1, n as int));
            }
            i += 1;
        } else if 0xc0 <= b0 && b0 <= 0xdf {
            if n - i < 2 {
                assert(!valid_first_scalar(s));
                return false;
            }
            let b1 = bytes[i + 1];
            assert(s[1] == b1);
            if !(0x80 <= b1 && b1 <= 0xbf) {
                assert(!valid_first_scalar(s));
                return false;
            }
            if b0 < 0xc2 {
                proof {
                    assert(codepoint_width_2(b0, b1) < 0x80) by (bit_vector)
                        requires
                            0xc0 <= b0 && b0 <= 0xc1,
                            0x80 <= b1 && b1 <= 0xbf,
                    ;
                    assert(!valid_first_scalar(s));
                }
                return false;
            }
            proof {
                assert(0x80 <= codepoint_width_2(b0, b1) && codepoint_width_2(b0, b1) < 0x800)
                    by (bit_vector)
                    requires
                        0xc2 <= b0 && b0 <= 0xdf,
                        0x80 <= b1 && b1 <= 0xbf,
                ;
                assert(valid_first_scalar(s));
                assert(length_of_first_scalar(s) == 2);
                assert(pop_first_scalar(s) =~= bytes@.subrange(i + 2, n as int));
            }
            i += 2;
        } else if 0xe0 <= b0 && b0 <= 0xef {
            if n - i < 3 {
                assert(!valid_first_scalar(s));
                return false;
            }
            let b1 = bytes[i + 1];
            let b2 = bytes[i + 2];
            assert(s[1] == b1 && s[2] == b2);
            if !(0x80 <= b1 && b1 <= 0xbf) || !(0x80 <= b2 && b2 <= 0xbf) {
                assert(!valid_first_scalar(s));
                return false;
            }
            if b0 == 0xe0 && b1 < 0xa0 {
                proof {
                    assert(codepoint_width_3(b0, b1, b2) < 0x800) by (bit_vector)
                        requires
                            b0 == 0xe0,
                            0x80 <= b1 && b1 < 0xa0,
                            0x80 <= b2 && b2 <= 0xbf,
                    ;
                    assert(!valid_first_scalar(s));
                }
                return false;
            }
            if b0 == 0xed && b1 >= 0xa0 {
                proof {
                    assert(0xd800 <= codepoint_width_3(b0, b1, b2) && codepoint_width_3(
                        b0,
                        b1,
                        b2,
                    ) <= 0xdfff) by (bit_vector)
                        requires
                            b0 == 0xed,
                            0xa0 <= b1 && b1 <= 0xbf,
                            0x80 <= b2 && b2 <= 0xbf,
                    ;
                    assert(!valid_first_scalar(s));
                }
                return false;
            }
            proof {
                assert(0x800 <= codepoint_width_3(b0, b1, b2) && !(0xd800 <= codepoint_width_3(
                    b0,
                    b1,
                    b2,
                ) && codepoint_width_3(b0, b1, b2) <= 0xdfff)) by (bit_vector)
                    requires
                        0xe0 <= b0 && b0 <= 0xef,
                        0x80 <= b1 && b1 <= 0xbf,
                        0x80 <= b2 && b2 <= 0xbf,
                        !(b0 == 0xe0 && b1 < 0xa0),
                        !(b0 == 0xed && b1 >= 0xa0),
                ;
                assert(valid_first_scalar(s));
                assert(length_of_first_scalar(s) == 3);
                assert(pop_first_scalar(s) =~= bytes@.subrange(i + 3, n as int));
            }
            i += 3;
        } else if 0xf0 <= b0 && b0 <= 0xf7 {
            if n - i < 4 {
                assert(!valid_first_scalar(s));
                return false;
            }
            let b1 = bytes[i + 1];
            let b2 = bytes[i + 2];
            let b3 = bytes[i + 3];
            assert(s[1] == b1 && s[2] == b2 && s[3] == b3);
            if !(0x80 <= b1 && b1 <= 0xbf) || !(0x80 <= b2 && b2 <= 0xbf) || !(0x80 <= b3 && b3
                <= 0xbf) {
                assert(!valid_first_scalar(s));
                return false;
            }
            if b0 == 0xf0 && b1 < 0x90 {
                proof {
                    assert(codepoint_width_4(b0, b1, b2, b3) < 0x10000) by (bit_vector)
                        requires
                            b0 == 0xf0,
                            0x80 <= b1 && b1 < 0x90,
                            0x80 <= b2 && b2 <= 0xbf,
                            0x80 <= b3 && b3 <= 0xbf,
                    ;
                    assert(!valid_first_scalar(s));
                }
                return false;
            }
            if b0 > 0xf4 || (b0 == 0xf4 && b1 >= 0x90) {
                proof {
                    assert(codepoint_width_4(b0, b1, b2, b3) > 0x10ffff) by (bit_vector)
                        requires
                            0xf0 <= b0 && b0 <= 0xf7,
                            0x80 <= b1 && b1 <= 0xbf,
                            0x80 <= b2 && b2 <= 0xbf,
                            0x80 <= b3 && b3 <= 0xbf,
                            b0 > 0xf4 || (b0 == 0xf4 && b1 >= 0x90),
                    ;
                    assert(!valid_first_scalar(s));
                }
                return false;
            }
            proof {
                assert(0x10000 <= codepoint_width_4(b0, b1, b2, b3) && codepoint_width_4(
                    b0,
                    b1,
                    b2,
                    b3,
                ) <= 0x10ffff) by (bit_vector)
                    requires
                        0xf0 <= b0 && b0 <= 0xf7,
                        0x80 <= b1 && b1 <= 0xbf,
                        0x80 <= b2 && b2 <= 0xbf,
                        0x80 <= b3 && b3 <= 0xbf,
                        !(b0 == 0xf0 && b1 < 0x90),
                        !(b0 > 0xf4 || (b0 == 0xf4 && b1 >= 0x90)),
                ;
                assert(valid_first_scalar(s));
                assert(length_of_first_scalar(s) == 4);
                assert(pop_first_scalar(s) =~= bytes@.subrange(i + 4, n as int));
            }
            i += 4;
        } else {
            assert(!valid_first_scalar(s));
            return false;
        }
    }
    proof {
        assert(bytes@.subrange(n as int, n as int) =~= Seq::<u8>::empty());
    }
    true
}

/// Relies on std's String::from_utf8 for the decoding itself; that the
/// bytes are valid UTF-8 is established by the verified validator before
/// the call.
#[verifier::external_body]
pub(crate) fn decode_valid_utf8(bytes: &Vec<u8>) -> (r: String)
    requires
        valid_utf8(bytes@),
    ensures
        r@ == decode_utf8(bytes@),
{
    match String::from_utf8(bytes.clone()) {
        Ok(s) => s,
        Err(_) => String::new(),
    }
}

} // verus!
