//! Salted password hashing for adding users.
//!
//! The broker stores a user's password as a salted hash: four random
//! salt bytes, followed by the SHA-256 digest of the salt and the
//! password, all Base64-encoded.

use vstd::prelude::*;
use vstd::string::StringSliceAdditionalSpecFns;
use rand::distr::Alphanumeric;
use rand::distr::SampleString;

verus! {

/// Salts are four bytes long.
pub const SALT_LENGTH: usize = 4;

/// The SHA-256 digest of a byte string; it depends on the input alone.
pub uninterp spec fn sha256_of(input: Seq<u8>) -> Seq<u8>;

/// The Base64 encoding of a byte string; it depends on the input alone.
pub uninterp spec fn base64_of(input: Seq<u8>) -> Seq<char>;

/// Generates and returns a salt: four random ASCII alphanumeric bytes.
///
/// Relies on `rand`'s `Alphanumeric` distribution: every sampled byte is
/// an ASCII letter or digit; which bytes come back is random.
#[verifier::external_body]
pub fn salt() -> (r: Vec<u8>)
    ensures
        r@.len() == SALT_LENGTH,
        forall|i: int|
            0 <= i < r@.len() ==> ((0x30 <= #[trigger] r@[i] <= 0x39) || (0x41 <= r@[i] <= 0x5a)
                || (0x61 <= r@[i] <= 0x7a)),
{
    let sample = Alphanumeric.sample_string(&mut rand::rng(), SALT_LENGTH);
    Vec::from(sample.as_bytes())
}

/// Relies on `ring::digest` with the SHA-256 algorithm: a 32-byte digest
/// that depends on the input bytes alone.
#[verifier::external_body]
fn sha256(input: &[u8]) -> (r: Vec<u8>)
    ensures
        r@ == sha256_of(input@),
        r@.len() == 32,
{
    let mut ctx = ring::digest::Context::new(&ring::digest::SHA256);
    ctx.update(input);
    let digest = ctx.finish();
    Vec::from(digest.as_ref())
}

/// Relies on `rbase64::encode`: standard Base64 with `=` padding, four
/// output characters for every started group of three input bytes,
/// depending on the input alone.
#[verifier::external_body]
fn base64_encode(input: &[u8]) -> (r: String)
    ensures
        r@ == base64_of(input@),
        r@.len() == 4 * ((input@.len() + 2) / 3),
{
    rbase64::encode(input)
}

/// The two byte strings, one after the other.
fn concat_bytes(a: &[u8], b: &[u8]) -> (r: Vec<u8>)
    ensures
        r@ == a@ + b@,
{
    let mut r = vstd::slice::slice_to_vec(a);
    let mut i: usize = 0;
    while i < b.len()
        invariant
            i <= b@.len(),
            r@ == a@ + b@.take(i as int),
        decreases b@.len() - i,
    {
        r.push(b[i]);
        proof {
            assert(a@ + b@.take(i as int) + seq![b@[i as int]] =~= a@ + b@.take(i + 1));
        }
        i = i + 1;
    }
    proof {
        assert(b@.take(b@.len() as int) =~= b@);
    }
    r
}

/// Produces the salted SHA-256 password hash: the salt, followed by the
/// SHA-256 digest of the salt and the password's bytes.
///
/// Prefer [`base64_encoded_salted_password_hash_sha256`], which encodes
/// this value the way the user endpoint expects it.
pub fn salted_password_hash_sha256(salt: &[u8], password: &str) -> (r: Vec<u8>)
    ensures
        r@ == salt@ + sha256_of(salt@ + password.spec_bytes()),
        r@.len() == salt@.len() + 32,
{
    let salted = concat_bytes(salt, password.as_bytes());
    let digest = sha256(salted.as_slice());
    concat_bytes(salt, digest.as_slice())
}

/// Produces the Base64-encoded, salted, SHA-256 password hash that the
/// user creation endpoint takes as a password hash.
pub fn base64_encoded_salted_password_hash_sha256(salt: &[u8], password: &str) -> (r: String)
    ensures
        r@ == base64_of(salt@ + sha256_of(salt@ + password.spec_bytes())),
{
    let salted = salted_password_hash_sha256(salt, password);
    base64_encode(salted.as_slice())
}

} // verus!
