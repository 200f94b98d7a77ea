//! The digest family of the catalog.  Each digest accepts a byte
//! sequence and returns the opaque byte-string digest; it never fails
//! for well-formed input, and the failure path applies only to the
//! argument conversion.  The algorithms themselves are called in the
//! RustCrypto crates behind trusted wrappers; each result is named,
//! since it is a function of the input bytes alone.

use vstd::prelude::*;

verus! {

use crate::codec::capability_bytes;
use sha2::Digest;
use crate::ctx::{Ctx, spec_set_error};
use crate::render::conv_err_text;
use crate::value::{Value, ValView, bytes_of_value, from_native_bytes};
use crate::SoftFail;

/// What the MD5 digest of a byte sequence is; a function of the bytes alone.
pub uninterp spec fn md5_of(b: Seq<u8>) -> Seq<u8>;

/// What the SHA-1 digest of a byte sequence is; a function of the bytes alone.
pub uninterp spec fn sha1_of(b: Seq<u8>) -> Seq<u8>;

/// What the SHA-256 digest of a byte sequence is; a function of the bytes alone.
pub uninterp spec fn sha2_256_of(b: Seq<u8>) -> Seq<u8>;

/// What the SHA-512 digest of a byte sequence is; a function of the bytes alone.
pub uninterp spec fn sha2_512_of(b: Seq<u8>) -> Seq<u8>;

/// What the SHA3-256 digest of a byte sequence is; a function of the bytes alone.
pub uninterp spec fn sha3_256_of(b: Seq<u8>) -> Seq<u8>;

/// What the SHA3-512 digest of a byte sequence is; a function of the bytes alone.
pub uninterp spec fn sha3_512_of(b: Seq<u8>) -> Seq<u8>;

/// Relies on md5::Md5 (the RustCrypto MD5): a 16-byte digest of the
/// input alone.
#[verifier::external_body]
fn md5_raw(b: &Vec<u8>) -> (r: Vec<u8>)
    ensures
        r@ == md5_of(b@),
        r@.len() == 16,
{
    md5::Md5::digest(b.as_slice()).to_vec()
}

/// Relies on sha1::Sha1: a 20-byte digest of the input alone.
#[verifier::external_body]
fn sha1_raw(b: &Vec<u8>) -> (r: Vec<u8>)
    ensures
        r@ == sha1_of(b@),
        r@.len() == 20,
{
    sha1::Sha1::digest(b.as_slice()).to_vec()
}

/// Relies on sha2::Sha256: a 32-byte digest of the input alone.
#[verifier::external_body]
fn sha2_256_raw(b: &Vec<u8>) -> (r: Vec<u8>)
    ensures
        r@ == sha2_256_of(b@),
        r@.len() == 32,
{
    sha2::Sha256::digest(b.as_slice()).to_vec()
}

/// Relies on sha2::Sha512: a 64-byte digest of the input alone.
#[verifier::external_body]
fn sha2_512_raw(b: &Vec<u8>) -> (r: Vec<u8>)
    ensures
        r@ == sha2_512_of(b@),
        r@.len() == 64,
{
    sha2::Sha512::digest(b.as_slice()).to_vec()
}

/// Relies on sha3::Sha3_256: a 32-byte digest of the input alone.
#[verifier::external_body]
fn sha3_256_raw(b: &Vec<u8>) -> (r: Vec<u8>)
    ensures
        r@ == sha3_256_of(b@),
        r@.len() == 32,
{
    sha3::Sha3_256::digest(b.as_slice()).to_vec()
}

/// Relies on sha3::Sha3_512: a 64-byte digest of the input alone.
#[verifier::external_body]
fn sha3_512_raw(b: &Vec<u8>) -> (r: Vec<u8>)
    ensures
        r@ == sha3_512_of(b@),
        r@.len() == 64,
{
    sha3::Sha3_512::digest(b.as_slice()).to_vec()
}

/// The MD5 capability: the digest of the argument's byte reading, as an
/// opaque byte string; a conversion failure is recorded in the error
/// slot.
pub fn md5(ctx: &mut Ctx, bytes: Value) -> (r: Result<Value, SoftFail>)
    ensures
        match r {
            Ok(v) => bytes_of_value(bytes@) matches Ok(b) && v@ == ValView::Bytes(md5_of(b))
                && md5_of(b).len() == 16 && final(ctx)@ == old(ctx)@,
            Err(_) => bytes_of_value(bytes@) matches Err(e) && final(ctx)@ == spec_set_error(
                old(ctx)@,
                conv_err_text(e),
            ),
        },
{
    let b = capability_bytes(ctx, bytes)?;
    let d = md5_raw(&b);
    Ok(from_native_bytes(d.as_slice()))
}

/// The SHA-1 capability; as [`md5`], with the SHA-1 digest.
pub fn sha1(ctx: &mut Ctx, bytes: Value) -> (r: Result<Value, SoftFail>)
    ensures
        match r {
            Ok(v) => bytes_of_value(bytes@) matches Ok(b) && v@ == ValView::Bytes(sha1_of(b))
                && sha1_of(b).len() == 20 && final(ctx)@ == old(ctx)@,
            Err(_) => bytes_of_value(bytes@) matches Err(e) && final(ctx)@ == spec_set_error(
                old(ctx)@,
                conv_err_text(e),
            ),
        },
{
    let b = capability_bytes(ctx, bytes)?;
    let d = sha1_raw(&b);
    Ok(from_native_bytes(d.as_slice()))
}

/// The SHA-256 capability; as [`md5`], with the SHA-256 digest.
pub fn sha2_256(ctx: &mut Ctx, bytes: Value) -> (r: Result<Value, SoftFail>)
    ensures
        match r {
            Ok(v) => bytes_of_value(bytes@) matches Ok(b) && v@ == ValView::Bytes(sha2_256_of(b))
                && sha2_256_of(b).len() == 32 && final(ctx)@ == old(ctx)@,
            Err(_) => bytes_of_value(bytes@) matches Err(e) && final(ctx)@ == spec_set_error(
                old(ctx)@,
                conv_err_text(e),
            ),
        },
{
    let b = capability_bytes(ctx, bytes)?;
    let d = sha2_256_raw(&b);
    Ok(from_native_bytes(d.as_slice()))
}

/// The SHA-512 capability; as [`md5`], with the SHA-512 digest.
pub fn sha2_512(ctx: &mut Ctx, bytes: Value) -> (r: Result<Value, SoftFail>)
    ensures
        match r {
            Ok(v) => bytes_of_value(bytes@) matches Ok(b) && v@ == ValView::Bytes(sha2_512_of(b))
                && sha2_512_of(b).len() == 64 && final(ctx)@ == old(ctx)@,
            Err(_) => bytes_of_value(bytes@) matches Err(e) && final(ctx)@ == spec_set_error(
                old(ctx)@,
                conv_err_text(e),
            ),
        },
{
    let b = capability_bytes(ctx, bytes)?;
    let d = sha2_512_raw(&b);
    Ok(from_native_bytes(d.as_slice()))
}

/// The SHA3-256 capability; as [`md5`], with the SHA3-256 digest.
pub fn sha3_256(ctx: &mut Ctx, bytes: Value) -> (r: Result<Value, SoftFail>)
    ensures
        match r {
            Ok(v) => bytes_of_value(bytes@) matches Ok(b) && v@ == ValView::Bytes(sha3_256_of(b))
                && sha3_256_of(b).len() == 32 && final(ctx)@ == old(ctx)@,
            Err(_) => bytes_of_value(bytes@) matches Err(e) && final(ctx)@ == spec_set_error(
                old(ctx)@,
                conv_err_text(e),
            ),
        },
{
    let b = capability_bytes(ctx, bytes)?;
    let d = sha3_256_raw(&b);
    Ok(from_native_bytes(d.as_slice()))
}

/// The SHA3-512 capability; as [`md5`], with the SHA3-512 digest.
pub fn sha3_512(ctx: &mut Ctx, bytes: Value) -> (r: Result<Value, SoftFail>)
    ensures
        match r {
            Ok(v) => bytes_of_value(bytes@) matches Ok(b) && v@ == ValView::Bytes(sha3_512_of(b))
                && sha3_512_of(b).len() == 64 && final(ctx)@ == old(ctx)@,
            Err(_) => bytes_of_value(bytes@) matches Err(e) && final(ctx)@ == spec_set_error(
                old(ctx)@,
                conv_err_text(e),
            ),
        },
{
    let b = capability_bytes(ctx, bytes)?;
    let d = sha3_512_raw(&b);
    Ok(from_native_bytes(d.as_slice()))
}

} // verus!
