//! Calls into the cryptography crates (block ciphers in CBC mode, message
//! digests, PBKDF2, big-integer exponentiation, hex encoding and the random
//! number generator). Each function that makes such a call is trusted: its
//! contract states what the called crate computes. Hexadecimal encoding is
//! stated here in full, and that decoding undoes it is proved.

use aes::cipher::block_padding::NoPadding;
use aes::cipher::{BlockModeDecrypt, BlockModeEncrypt, KeyIvInit};
use num_bigint::BigUint;
use rand::RngExt;
use sha2::Digest;
use vstd::arithmetic::power::pow;
use vstd::prelude::*;

verus! {

/// AES-128 in CBC mode, no padding: the ciphertext of `data` under `key`
/// starting from `iv`.
pub uninterp spec fn aes128_cbc_encrypt(key: Seq<u8>, iv: Seq<u8>, data: Seq<u8>) -> Seq<u8>;

/// AES-192 in CBC mode, no padding.
pub uninterp spec fn aes192_cbc_encrypt(key: Seq<u8>, iv: Seq<u8>, data: Seq<u8>) -> Seq<u8>;

/// AES-256 in CBC mode, no padding.
pub uninterp spec fn aes256_cbc_encrypt(key: Seq<u8>, iv: Seq<u8>, data: Seq<u8>) -> Seq<u8>;

/// AES-128 CBC decryption, no padding.
pub uninterp spec fn aes128_cbc_decrypt(key: Seq<u8>, iv: Seq<u8>, data: Seq<u8>) -> Seq<u8>;

/// AES-192 CBC decryption, no padding.
pub uninterp spec fn aes192_cbc_decrypt(key: Seq<u8>, iv: Seq<u8>, data: Seq<u8>) -> Seq<u8>;

/// AES-256 CBC decryption, no padding.
pub uninterp spec fn aes256_cbc_decrypt(key: Seq<u8>, iv: Seq<u8>, data: Seq<u8>) -> Seq<u8>;

/// DES in CBC mode, no padding.
pub uninterp spec fn des_cbc_encrypt(key: Seq<u8>, iv: Seq<u8>, data: Seq<u8>) -> Seq<u8>;

/// The SHA-256 digest.
pub uninterp spec fn sha256(data: Seq<u8>) -> Seq<u8>;

/// The SHA-384 digest.
pub uninterp spec fn sha384(data: Seq<u8>) -> Seq<u8>;

/// The SHA-512 digest.
pub uninterp spec fn sha512(data: Seq<u8>) -> Seq<u8>;

/// The MD5 digest.
pub uninterp spec fn md5(data: Seq<u8>) -> Seq<u8>;

/// PBKDF2 with HMAC-SHA512 deriving `len` bytes.
pub uninterp spec fn pbkdf2_hmac_sha512(password: Seq<u8>, salt: Seq<u8>, rounds: u32, len: nat) -> Seq<u8>;

/// The value of a big-endian unsigned integer.
pub open spec fn be_value(s: Seq<u8>) -> nat
    decreases s.len(),
{
    if s.len() == 0 {
        0
    } else {
        be_value(s.drop_last()) * 256 + s.last() as nat
    }
}

/// The shortest big-endian encoding of a number (a single zero byte for
/// zero).
pub open spec fn be_min_bytes(v: nat) -> Seq<u8>
    decreases v,
{
    if v < 256 {
        seq![v as u8]
    } else {
        be_min_bytes(v / 256).push((v % 256) as u8)
    }
}

/// The upper-case hexadecimal digit of a nibble.
pub open spec fn hex_digit(n: u8) -> u8 {
    if n < 10 { (48 + n) as u8 } else { (55 + n) as u8 }
}

/// The upper-case hexadecimal encoding of bytes, two digits per byte.
pub open spec fn hex_upper(s: Seq<u8>) -> Seq<u8>
    decreases s.len(),
{
    if s.len() == 0 {
        seq![]
    } else {
        hex_upper(s.drop_last()) + seq![hex_digit(s.last() / 16), hex_digit(s.last() % 16)]
    }
}

/// The value of an upper-case hexadecimal digit.
pub open spec fn hex_value(c: u8) -> Option<u8> {
    if 48 <= c <= 57 {
        Some((c - 48) as u8)
    } else if 65 <= c <= 70 {
        Some((c - 55) as u8)
    } else {
        None
    }
}

/// The bytes that an upper-case hexadecimal text encodes, if it is one.
pub open spec fn hex_decode(s: Seq<u8>) -> Option<Seq<u8>>
    decreases s.len(),
{
    if s.len() % 2 != 0 {
        None
    } else if s.len() == 0 {
        Some(seq![])
    } else {
        match (
            hex_decode(s.subrange(0, s.len() - 2)),
            hex_value(s[s.len() - 2]),
            hex_value(s[s.len() - 1]),
        ) {
            (Some(p), Some(h), Some(l)) => Some(p.push((h * 16 + l) as u8)),
            _ => None,
        }
    }
}

/// `cbc::Encryptor::<aes::Aes128>` with `encrypt_padded_b2b::<NoPadding>`:
/// encrypts block-aligned data; the ciphertext is as long as the input, and
/// CBC decryption with the same key and IV gives the input back. Each
/// ciphertext block depends only on the blocks up to it, so the first block
/// is the encryption of the first data block alone.
#[verifier::external_body]
pub fn aes128_cbc_encrypt_bytes(key: &[u8], iv: &[u8], data: &[u8]) -> (out: Vec<u8>)
    requires
        key@.len() == 16,
        iv@.len() == 16,
        data@.len() % 16 == 0,
    ensures
        out@ == aes128_cbc_encrypt(key@, iv@, data@),
        out@.len() == data@.len(),
        aes128_cbc_decrypt(key@, iv@, out@) == data@,
        data@.len() >= 16 ==> out@.subrange(0, 16) == aes128_cbc_encrypt(key@, iv@, data@.subrange(0, 16)),
{
    let mut out = vec![0u8; data.len()];
    cbc::Encryptor::<aes::Aes128>::new_from_slices(key, iv)
        .expect("key and iv lengths")
        .encrypt_padded_b2b::<NoPadding>(data, &mut out)
        .expect("block-aligned input");
    out
}

/// `cbc::Encryptor::<aes::Aes192>` with `encrypt_padded_b2b::<NoPadding>`.
#[verifier::external_body]
pub fn aes192_cbc_encrypt_bytes(key: &[u8], iv: &[u8], data: &[u8]) -> (out: Vec<u8>)
    requires
        key@.len() == 24,
        iv@.len() == 16,
        data@.len() % 16 == 0,
    ensures
        out@ == aes192_cbc_encrypt(key@, iv@, data@),
        out@.len() == data@.len(),
        aes192_cbc_decrypt(key@, iv@, out@) == data@,
        data@.len() >= 16 ==> out@.subrange(0, 16) == aes192_cbc_encrypt(key@, iv@, data@.subrange(0, 16)),
{
    let mut out = vec![0u8; data.len()];
    cbc::Encryptor::<aes::Aes192>::new_from_slices(key, iv)
        .expect("key and iv lengths")
        .encrypt_padded_b2b::<NoPadding>(data, &mut out)
        .expect("block-aligned input");
    out
}

/// `cbc::Encryptor::<aes::Aes256>` with `encrypt_padded_b2b::<NoPadding>`.
#[verifier::external_body]
pub fn aes256_cbc_encrypt_bytes(key: &[u8], iv: &[u8], data: &[u8]) -> (out: Vec<u8>)
    requires
        key@.len() == 32,
        iv@.len() == 16,
        data@.len() % 16 == 0,
    ensures
        out@ == aes256_cbc_encrypt(key@, iv@, data@),
        out@.len() == data@.len(),
        aes256_cbc_decrypt(key@, iv@, out@) == data@,
        data@.len() >= 16 ==> out@.subrange(0, 16) == aes256_cbc_encrypt(key@, iv@, data@.subrange(0, 16)),
{
    let mut out = vec![0u8; data.len()];
    cbc::Encryptor::<aes::Aes256>::new_from_slices(key, iv)
        .expect("key and iv lengths")
        .encrypt_padded_b2b::<NoPadding>(data, &mut out)
        .expect("block-aligned input");
    out
}

/// `cbc::Decryptor::<aes::Aes128>` with `decrypt_padded_b2b::<NoPadding>`:
/// decrypts block-aligned data; the plaintext is as long as the input.
#[verifier::external_body]
pub fn aes128_cbc_decrypt_bytes(key: &[u8], iv: &[u8], data: &[u8]) -> (out: Vec<u8>)
    requires
        key@.len() == 16,
        iv@.len() == 16,
        data@.len() % 16 == 0,
    ensures
        out@ == aes128_cbc_decrypt(key@, iv@, data@),
        out@.len() == data@.len(),
{
    let mut out = vec![0u8; data.len()];
    cbc::Decryptor::<aes::Aes128>::new_from_slices(key, iv)
        .expect("key and iv lengths")
        .decrypt_padded_b2b::<NoPadding>(data, &mut out)
        .expect("block-aligned input");
    out
}

/// `cbc::Decryptor::<aes::Aes192>` with `decrypt_padded_b2b::<NoPadding>`.
#[verifier::external_body]
pub fn aes192_cbc_decrypt_bytes(key: &[u8], iv: &[u8], data: &[u8]) -> (out: Vec<u8>)
    requires
        key@.len() == 24,
        iv@.len() == 16,
        data@.len() % 16 == 0,
    ensures
        out@ == aes192_cbc_decrypt(key@, iv@, data@),
        out@.len() == data@.len(),
{
    let mut out = vec![0u8; data.len()];
    cbc::Decryptor::<aes::Aes192>::new_from_slices(key, iv)
        .expect("key and iv lengths")
        .decrypt_padded_b2b::<NoPadding>(data, &mut out)
        .expect("block-aligned input");
    out
}

/// `cbc::Decryptor::<aes::Aes256>` with `decrypt_padded_b2b::<NoPadding>`.
#[verifier::external_body]
pub fn aes256_cbc_decrypt_bytes(key: &[u8], iv: &[u8], data: &[u8]) -> (out: Vec<u8>)
    requires
        key@.len() == 32,
        iv@.len() == 16,
        data@.len() % 16 == 0,
    ensures
        out@ == aes256_cbc_decrypt(key@, iv@, data@),
        out@.len() == data@.len(),
{
    let mut out = vec![0u8; data.len()];
    cbc::Decryptor::<aes::Aes256>::new_from_slices(key, iv)
        .expect("key and iv lengths")
        .decrypt_padded_b2b::<NoPadding>(data, &mut out)
        .expect("block-aligned input");
    out
}

/// `cbc::Encryptor::<des::Des>` with `encrypt_padded_b2b::<NoPadding>`:
/// DES-CBC of 8-byte aligned data; the ciphertext is as long as the input.
#[verifier::external_body]
pub fn des_cbc_encrypt_bytes(key: &[u8], iv: &[u8], data: &[u8]) -> (out: Vec<u8>)
    requires
        key@.len() == 8,
        iv@.len() == 8,
        data@.len() % 8 == 0,
    ensures
        out@ == des_cbc_encrypt(key@, iv@, data@),
        out@.len() == data@.len(),
{
    let mut out = vec![0u8; data.len()];
    cbc::Encryptor::<des::Des>::new_from_slices(key, iv)
        .expect("key and iv lengths")
        .encrypt_padded_b2b::<NoPadding>(data, &mut out)
        .expect("data is 8-byte aligned");
    out
}

/// `sha2::Sha256::digest`: the 32-byte SHA-256 digest.
#[verifier::external_body]
pub fn sha256_digest(data: &[u8]) -> (out: Vec<u8>)
    ensures
        out@ == sha256(data@),
        out@.len() == 32,
{
    sha2::Sha256::digest(data).to_vec()
}

/// `sha2::Sha384::digest`: the 48-byte SHA-384 digest.
#[verifier::external_body]
pub fn sha384_digest(data: &[u8]) -> (out: Vec<u8>)
    ensures
        out@ == sha384(data@),
        out@.len() == 48,
{
    sha2::Sha384::digest(data).to_vec()
}

/// `sha2::Sha512::digest`: the 64-byte SHA-512 digest.
#[verifier::external_body]
pub fn sha512_digest(data: &[u8]) -> (out: Vec<u8>)
    ensures
        out@ == sha512(data@),
        out@.len() == 64,
{
    sha2::Sha512::digest(data).to_vec()
}

/// `md5::Md5::digest` (package md-5): the 16-byte MD5 digest.
#[verifier::external_body]
pub fn md5_digest(data: &[u8]) -> (out: Vec<u8>)
    ensures
        out@ == md5(data@),
        out@.len() == 16,
{
    <md5::Md5 as md5::Digest>::digest(data).to_vec()
}

/// `pbkdf2::pbkdf2_hmac::<sha2::Sha512>`: derives `len` bytes from the
/// password and salt with the given number of rounds. Its block counter is
/// a 32-bit number, which the bound on `len` keeps from overflowing.
#[verifier::external_body]
pub fn pbkdf2_sha512(password: &[u8], salt: &[u8], rounds: u32, len: usize) -> (out: Vec<u8>)
    requires
        len <= u32::MAX,
    ensures
        out@ == pbkdf2_hmac_sha512(password@, salt@, rounds, len as nat),
        out@.len() == len,
{
    let mut out = vec![0u8; len];
    pbkdf2::pbkdf2_hmac::<sha2::Sha512>(password, salt, rounds, &mut out);
    out
}

/// `num_bigint::BigUint::modpow` on big-endian byte strings (read with
/// `from_bytes_be`, written with `to_bytes_be`): the shortest big-endian
/// encoding of `base^exp mod modulus`. The modulus must not be zero.
#[verifier::external_body]
pub fn modpow_be(base: &[u8], exp: &[u8], modulus: &[u8]) -> (out: Vec<u8>)
    requires
        be_value(modulus@) > 0,
    ensures
        out@ == be_min_bytes((pow(be_value(base@) as int, be_value(exp@)) % (be_value(modulus@) as int)) as nat),
{
    let base = BigUint::from_bytes_be(base);
    let exp = BigUint::from_bytes_be(exp);
    let modulus = BigUint::from_bytes_be(modulus);
    base.modpow(&exp, &modulus).to_bytes_be()
}

/// `base16ct::upper::encode_string`: upper-case hexadecimal, two digits per
/// byte. It panics when the encoding's length overflows `usize`, which the
/// precondition rules out.
#[verifier::external_body]
pub fn hex_encode_upper(input: &[u8]) -> (out: Vec<u8>)
    requires
        2 * input@.len() <= usize::MAX,
    ensures
        out@ == hex_upper(input@),
{
    base16ct::upper::encode_string(input).into_bytes()
}

/// `base16ct::upper::decode_vec`: the bytes that an upper-case hexadecimal
/// text encodes; `None` where the text has an odd length or a character that
/// is not an upper-case hexadecimal digit.
#[verifier::external_body]
pub fn hex_decode_upper(input: &[u8]) -> (out: Option<Vec<u8>>)
    ensures
        out is Some <==> hex_decode(input@) is Some,
        out matches Some(v) ==> v@ == hex_decode(input@).unwrap(),
{
    base16ct::upper::decode_vec(input).ok()
}

/// `rand::rng().fill`: `len` bytes from the thread-local random number
/// generator. Nothing is known of their values.
#[verifier::external_body]
pub fn random_bytes(len: usize) -> (out: Vec<u8>)
    ensures
        out@.len() == len,
{
    let mut out = vec![0u8; len];
    rand::rng().fill(&mut out[..]);
    out
}

/// Hexadecimal text decodes back to the bytes it encodes.
pub proof fn hex_round_trip(s: Seq<u8>)
    ensures
        hex_upper(s).len() == 2 * s.len(),
        hex_decode(hex_upper(s)) == Some(s),
    decreases s.len(),
{
    if s.len() > 0 {
        let p = s.drop_last();
        hex_round_trip(p);
        let h = hex_upper(s);
        let b = s.last();
        assert(h.subrange(0, h.len() - 2) =~= hex_upper(p));
        assert(hex_value(hex_digit(b / 16)) == Some(b / 16));
        assert(hex_value(hex_digit(b % 16)) == Some(b % 16));
        assert(h[h.len() - 2] == hex_digit(b / 16));
        assert(h[h.len() - 1] == hex_digit(b % 16));
        assert(((b / 16) * 16 + b % 16) as u8 == b);
        assert(p.push(b) =~= s);
    }
}

/// The hexadecimal of bytes one after the other is their hexadecimals one
/// after the other.
pub proof fn lemma_hex_upper_concat(a: Seq<u8>, b: Seq<u8>)
    ensures
        hex_upper(a + b) == hex_upper(a) + hex_upper(b),
    decreases b.len(),
{
    if b.len() > 0 {
        lemma_hex_upper_concat(a, b.drop_last());
        assert((a + b).drop_last() =~= a + b.drop_last());
        assert((a + b).last() == b.last());
    } else {
        assert(a + b =~= a);
    }
}

} // verus!
