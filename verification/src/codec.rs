//! The encoding family of the catalog: hexadecimal rendering, written
//! and proved here, and the standard text-safe binary-to-text scheme,
//! called in the `base64` crate behind trusted wrappers.

use vstd::prelude::*;

verus! {

use crate::ctx::{Ctx, spec_set_error};
use crate::numtext::{digit_char, push_digit};
use crate::render::{conv_err_message, conv_err_text};
use crate::value::{Value, ValView, bytes_of_value, to_native_bytes, from_native_bytes};
use crate::SoftFail;
use vstd::string::StringExecFns;

broadcast use vstd::seq::group_seq_axioms, vstd::std_specs::vec::group_vec_axioms;

/// The character of one hexadecimal digit, lower case.
pub open spec fn hex_digit(d: int) -> char
    recommends
        0 <= d < 16,
{
    if d < 10 {
        digit_char(d)
    } else if d == 10 {
        'a'
    } else if d == 11 {
        'b'
    } else if d == 12 {
        'c'
    } else if d == 13 {
        'd'
    } else if d == 14 {
        'e'
    } else {
        'f'
    }
}

/// Hexadecimal text of a byte sequence: two lower-case digits for each
/// byte, in order.
pub open spec fn hex_of(b: Seq<u8>) -> Seq<char>
    decreases b.len(),
{
    if b.len() == 0 {
        Seq::empty()
    } else {
        hex_of(b.drop_last()) + seq![
            hex_digit(b.last() as int / 16),
            hex_digit(b.last() as int % 16),
        ]
    }
}

/// Appends one hexadecimal digit character.
fn push_hex_digit(out: &mut String, d: u8)
    requires
        d < 16,
    ensures
        final(out)@ == old(out)@ + seq![hex_digit(d as int)],
{
    if d < 10 {
        push_digit(out, d);
    } else {
        proof {
            reveal_strlit("a");
            reveal_strlit("b");
            reveal_strlit("c");
            reveal_strlit("d");
            reveal_strlit("e");
            reveal_strlit("f");
        }
        match d {
            10 => out.append("a"),
            11 => out.append("b"),
            12 => out.append("c"),
            13 => out.append("d"),
            14 => out.append("e"),
            _ => out.append("f"),
        }
        proof {
            assert(out@ =~= old(out)@ + seq![hex_digit(d as int)]);
        }
    }
}

/// Hexadecimal text of a nonnegative integer, lower case, most
/// significant digit first, without leading zeros.
pub open spec fn hex_digits(n: int) -> Seq<char>
    recommends
        n >= 0,
    decreases n,
{
    if n < 16 {
        seq![hex_digit(n)]
    } else {
        hex_digits(n / 16) + seq![hex_digit(n % 16)]
    }
}

/// Appends the hexadecimal text of a nonnegative number.
pub fn push_hex_num(out: &mut String, n: u32)
    ensures
        final(out)@ == old(out)@ + hex_digits(n as int),
    decreases n,
{
    if n < 16 {
        push_hex_digit(out, n as u8);
    } else {
        push_hex_num(out, n / 16);
        push_hex_digit(out, (n % 16) as u8);
        proof {
            assert(final(out)@ =~= old(out)@ + hex_digits(n as int));
        }
    }
}

/// Renders a byte sequence as lower-case hexadecimal text, exactly as
/// [`hex_of`] says.
pub fn hex_bytes(b: &Vec<u8>) -> (r: String)
    ensures
        r@ == hex_of(b@),
{
    let mut out = String::new();
    let mut i: usize = 0;
    proof {
        assert(out@ =~= hex_of(b@.take(0)));
    }
    while i < b.len()
        invariant
            i <= b@.len(),
            out@ == hex_of(b@.take(i as int)),
        decreases b@.len() - i,
    {
        let byte = b[i];
        push_hex_digit(&mut out, byte / 16);
        push_hex_digit(&mut out, byte % 16);
        proof {
            assert(b@.take(i + 1).drop_last() =~= b@.take(i as int));
            assert(b@.take(i + 1).last() == b@[i as int]);
            assert(out@ =~= hex_of(b@.take(i + 1)));
        }
        i += 1;
    }
    proof {
        assert(b@.take(b@.len() as int) =~= b@);
    }
    out
}

/// What the standard base64 encoding returns; a function of the bytes
/// alone.
pub uninterp spec fn b64_of(b: Seq<u8>) -> Seq<char>;

/// What the standard base64 decoder accepts and returns; a function of
/// the text alone, absent exactly on malformed input.
pub uninterp spec fn b64_decode_of(s: Seq<char>) -> Option<Seq<u8>>;

/// Relies on base64::encode (standard alphabet, padded): the text is a
/// function of the bytes alone, four characters for every started group
/// of three bytes.
#[verifier::external_body]
fn b64_encode_raw(b: &Vec<u8>) -> (r: String)
    ensures
        r@ == b64_of(b@),
        r@.len() == ((b@.len() + 2) / 3) * 4,
{
    base64::encode(b)
}

/// Relies on base64::decode (standard alphabet, padded): the outcome is
/// a function of the text alone, an error exactly on malformed input.
#[verifier::external_body]
fn b64_decode_raw(s: &str) -> (r: Result<Vec<u8>, String>)
    ensures
        match r {
            Ok(b) => b64_decode_of(s@) == Some(b@),
            Err(_) => b64_decode_of(s@) is None,
        },
{
    match base64::decode(s) {
        Ok(b) => Ok(b),
        Err(e) => Err(format!("{}", e)),
    }
}

/// Shared entry of the byte-consuming capabilities: converts the script
/// value to bytes, or records the conversion diagnostic in the error
/// slot and hands back the soft-failure marker.
pub fn capability_bytes(ctx: &mut Ctx, v: Value) -> (r: Result<Vec<u8>, SoftFail>)
    ensures
        match r {
            Ok(b) => bytes_of_value(v@) matches Ok(bv) && bv == b@ && final(ctx)@ == old(ctx)@,
            Err(_) => bytes_of_value(v@) matches Err(e) && final(ctx)@ == spec_set_error(
                old(ctx)@,
                conv_err_text(e),
            ),
        },
{
    match to_native_bytes(v) {
        Ok(b) => Ok(b),
        Err(e) => {
            let message = conv_err_message(&e);
            Err(ctx.set_error(message))
        },
    }
}

/// The hex capability: converts its argument to bytes and renders them
/// in lower-case hexadecimal; a conversion failure is recorded in the
/// error slot.
pub fn hex(ctx: &mut Ctx, bytes: Value) -> (r: Result<String, SoftFail>)
    ensures
        match r {
            Ok(s) => bytes_of_value(bytes@) matches Ok(b) && s@ == hex_of(b) && final(ctx)@ == old(ctx)@,
            Err(_) => bytes_of_value(bytes@) matches Err(e) && final(ctx)@ == spec_set_error(
                old(ctx)@,
                conv_err_text(e),
            ),
        },
{
    let b = capability_bytes(ctx, bytes)?;
    Ok(hex_bytes(&b))
}

/// The encode capability: converts its argument to bytes and encodes
/// them as text; a conversion failure is recorded in the error slot.
pub fn base64_encode(ctx: &mut Ctx, bytes: Value) -> (r: Result<String, SoftFail>)
    ensures
        match r {
            Ok(s) => bytes_of_value(bytes@) matches Ok(b) && s@ == b64_of(b) && final(ctx)@ == old(ctx)@,
            Err(_) => bytes_of_value(bytes@) matches Err(e) && final(ctx)@ == spec_set_error(
                old(ctx)@,
                conv_err_text(e),
            ),
        },
{
    let b = capability_bytes(ctx, bytes)?;
    Ok(b64_encode_raw(&b))
}

/// The decode capability: decodes text in the standard scheme into an
/// opaque byte string; malformed input is an operational failure whose
/// diagnostic is recorded in the error slot.
pub fn base64_decode(ctx: &mut Ctx, text: &str) -> (r: Result<Value, SoftFail>)
    ensures
        match r {
            Ok(v) => b64_decode_of(text@) matches Some(b) && v@ == ValView::Bytes(b) && final(ctx)@ == old(ctx)@,
            Err(_) => {
                &&& b64_decode_of(text@) is None
                &&& final(ctx)@.error is Some
                &&& final(ctx)@ == spec_set_error(old(ctx)@, final(ctx)@.error->Some_0)
            },
        },
{
    match b64_decode_raw(text) {
        Ok(b) => Ok(from_native_bytes(b.as_slice())),
        Err(message) => Err(ctx.set_error(message)),
    }
}

} // verus!
