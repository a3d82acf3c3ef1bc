//! Native network encryption (ANO) primitives: AES-CBC packet encryption,
//! the Diffie-Hellman key agreement, the 10G password verifier and the
//! packet checksums of the data integrity service.

use vstd::arithmetic::power::{lemma_pow_mod_noop, lemma_pow_multiplies, pow};
use vstd::arithmetic::mul::lemma_mul_is_commutative;
use vstd::prelude::*;
use vstd::string::{StringExecFns, StringSliceAdditionalSpecFns};

use crate::bytes::{append_slice, append_zeros, bytes_equal, copy_bytes, zero_bytes, zeros};
use crate::crypto::{
    aes128_cbc_decrypt, aes128_cbc_decrypt_bytes, aes128_cbc_encrypt, aes128_cbc_encrypt_bytes,
    aes192_cbc_decrypt, aes192_cbc_decrypt_bytes, aes192_cbc_encrypt, aes192_cbc_encrypt_bytes,
    aes256_cbc_decrypt, aes256_cbc_decrypt_bytes, aes256_cbc_encrypt, aes256_cbc_encrypt_bytes,
    be_min_bytes, be_value, des_cbc_encrypt, des_cbc_encrypt_bytes, modpow_be, sha256,
    sha256_digest, sha384, sha384_digest, sha512, sha512_digest,
};
use crate::text::{append_decimal, decimal};
use crate::utf8::{ascii_upper_chars, to_uppercase_text, uppercase_text, utf16_code_units, utf8_to_string};
use vstd::utf8::{decode_utf8, encode_utf8, encode_utf8_decode_utf8, is_ascii_chars, valid_utf8};

verus! {

/// Encryption algorithms negotiated by the ANO "encrypt" service.
#[derive(Debug, Clone, Copy, PartialEq, Eq, Structural)]
pub enum EncryptAlgo {
    Aes128,
    Aes192,
    Aes256,
}

/// The key length of an encryption algorithm.
pub open spec fn spec_key_len(algo: EncryptAlgo) -> usize {
    match algo {
        EncryptAlgo::Aes128 => 16,
        EncryptAlgo::Aes192 => 24,
        EncryptAlgo::Aes256 => 32,
    }
}

/// The algorithm that a wire algorithm id names, if any.
pub open spec fn spec_encrypt_algo_from_id(id: u8) -> Option<EncryptAlgo> {
    if id == 15 {
        Some(EncryptAlgo::Aes128)
    } else if id == 16 {
        Some(EncryptAlgo::Aes192)
    } else if id == 17 {
        Some(EncryptAlgo::Aes256)
    } else {
        None
    }
}

impl EncryptAlgo {
    /// Maps the wire algorithm id.
    pub fn from_id(id: u8) -> (r: Option<Self>)
        ensures
            r == spec_encrypt_algo_from_id(id),
    {
        if id == 15 {
            Some(EncryptAlgo::Aes128)
        } else if id == 16 {
            Some(EncryptAlgo::Aes192)
        } else if id == 17 {
            Some(EncryptAlgo::Aes256)
        } else {
            None
        }
    }

    pub fn key_len(self) -> (r: usize)
        ensures
            r == spec_key_len(self),
    {
        match self {
            EncryptAlgo::Aes128 => 16,
            EncryptAlgo::Aes192 => 24,
            EncryptAlgo::Aes256 => 32,
        }
    }
}

/// The all-zero initialisation vector that each packet is encrypted with.
pub open spec fn zero_iv() -> Seq<u8> {
    zeros(16)
}

/// AES-CBC encryption (no padding) with the algorithm's key size.
pub open spec fn cbc_encrypt_with(algo: EncryptAlgo, key: Seq<u8>, iv: Seq<u8>, data: Seq<u8>) -> Seq<u8> {
    match algo {
        EncryptAlgo::Aes128 => aes128_cbc_encrypt(key, iv, data),
        EncryptAlgo::Aes192 => aes192_cbc_encrypt(key, iv, data),
        EncryptAlgo::Aes256 => aes256_cbc_encrypt(key, iv, data),
    }
}

/// AES-CBC decryption (no padding) with the algorithm's key size.
pub open spec fn cbc_decrypt_with(algo: EncryptAlgo, key: Seq<u8>, iv: Seq<u8>, data: Seq<u8>) -> Seq<u8> {
    match algo {
        EncryptAlgo::Aes128 => aes128_cbc_decrypt(key, iv, data),
        EncryptAlgo::Aes192 => aes192_cbc_decrypt(key, iv, data),
        EncryptAlgo::Aes256 => aes256_cbc_decrypt(key, iv, data),
    }
}

/// The number of zero bytes that pad `n` bytes to a whole number of blocks.
pub open spec fn pad_len(n: nat) -> nat {
    if n % 16 == 0 {
        0
    } else {
        (16 - n % 16) as nat
    }
}

/// An encrypted packet body: the data padded with zero bytes to whole
/// blocks, encrypted, followed by one byte holding the padding count plus
/// one.
pub open spec fn ano_encrypt(algo: EncryptAlgo, key: Seq<u8>, data: Seq<u8>) -> Seq<u8> {
    cbc_encrypt_with(algo, key, zero_iv(), data + zeros(pad_len(data.len()))).push(
        (pad_len(data.len()) + 1) as u8,
    )
}

/// Why an encrypted packet body is refused, if it is.
pub open spec fn ano_decrypt_refusal(data: Seq<u8>) -> Option<Seq<char>> {
    if data.len() == 0 {
        None
    } else if (data.len() - 1) % 16 != 0 {
        Some("invalid ANO ciphertext length"@)
    } else if data.last() == 0 || data.last() > 16 {
        Some("invalid ANO padding count"@)
    } else if data.last() - 1 > data.len() - 1 {
        Some("invalid ANO padding"@)
    } else {
        None
    }
}

/// The data that an accepted encrypted packet body holds: the body without
/// its count byte, decrypted, without the padding.
pub open spec fn ano_decrypt(algo: EncryptAlgo, key: Seq<u8>, data: Seq<u8>) -> Seq<u8> {
    if data.len() == 0 {
        seq![]
    } else {
        let ct = data.drop_last();
        cbc_decrypt_with(algo, key, zero_iv(), ct).subrange(0, ct.len() - (data.last() - 1))
    }
}

/// AES-CBC cryptor for TNS DATA packet bodies.
///
/// Oracle uses an all-zero IV per packet and pads with `N` zero bytes
/// followed by a single count byte `N+1`. The key is the leading bytes of the
/// Diffie-Hellman shared secret.
pub struct AesCryptor {
    algo: EncryptAlgo,
    key: Vec<u8>,
}

impl AesCryptor {
    #[verifier::type_invariant]
    spec fn inv(self) -> bool {
        self.key@.len() == spec_key_len(self.algo)
    }

    /// The algorithm of the cryptor.
    pub closed spec fn algo(self) -> EncryptAlgo {
        self.algo
    }

    /// The key of the cryptor.
    pub closed spec fn key(self) -> Seq<u8> {
        self.key@
    }

    /// Creates a cryptor from the leading bytes of `key`; fails when `key` is
    /// shorter than the algorithm's key length.
    pub fn new(algo: EncryptAlgo, key: &[u8]) -> (r: Result<Self, String>)
        ensures
            key@.len() >= spec_key_len(algo) <==> r is Ok,
            r matches Ok(c) ==> c.algo() == algo && c.key() == key@.subrange(
                0,
                spec_key_len(algo) as int,
            ),
            r matches Err(m) ==> m@ == "ANO AES key too short: "@ + decimal(key@.len() as nat)
                + " bytes, need "@ + decimal(spec_key_len(algo) as nat),
    {
        let need = algo.key_len();
        if key.len() < need {
            let mut m = String::from_str("ANO AES key too short: ");
            append_decimal(&mut m, key.len() as u64);
            m.append(" bytes, need ");
            append_decimal(&mut m, need as u64);
            return Err(m);
        }
        let k = copy_bytes(&key[0..need]);
        Ok(AesCryptor { algo, key: k })
    }

    /// Pads, encrypts, and appends the padding-count byte. Decrypting the
    /// result gives `data` back.
    pub fn encrypt(&self, data: &[u8]) -> (r: Vec<u8>)
        requires
            data@.len() + 32 <= usize::MAX,
        ensures
            r@ == ano_encrypt(self.algo(), self.key(), data@),
            r@.len() == data@.len() + pad_len(data@.len() as nat) + 1,
            ano_decrypt_refusal(r@) is None,
            ano_decrypt(self.algo(), self.key(), r@) == data@,
            data@.len() >= 16 ==> r@.subrange(0, 16) == cbc_encrypt_with(
                self.algo(),
                self.key(),
                zero_iv(),
                data@.subrange(0, 16),
            ),
    {
        proof { use_type_invariant(self); }
        let n = data.len();
        let pad: usize = if n % 16 == 0 { 0 } else { 16 - n % 16 };
        let mut buf: Vec<u8> = Vec::new();
        append_slice(&mut buf, data);
        append_zeros(&mut buf, pad);
        assert(buf@ =~= data@ + zeros(pad_len(n as nat)));
        let iv = zero_bytes(16);
        let mut out = match self.algo {
            EncryptAlgo::Aes128 => aes128_cbc_encrypt_bytes(self.key.as_slice(), iv.as_slice(), buf.as_slice()),
            EncryptAlgo::Aes192 => aes192_cbc_encrypt_bytes(self.key.as_slice(), iv.as_slice(), buf.as_slice()),
            EncryptAlgo::Aes256 => aes256_cbc_encrypt_bytes(self.key.as_slice(), iv.as_slice(), buf.as_slice()),
        };
        let ghost ct = out@;
        assert(cbc_decrypt_with(self.algo, self.key@, zero_iv(), ct) == buf@);
        out.push((pad + 1) as u8);
        proof {
            assert(out@.drop_last() =~= ct);
            assert(buf@.subrange(0, n as int) =~= data@);
            if n >= 16 {
                assert(buf@.subrange(0, 16) =~= data@.subrange(0, 16));
                assert(out@.subrange(0, 16) =~= ct.subrange(0, 16));
            }
        }
        out
    }

    /// Strips the count byte, decrypts, and removes the zero padding.
    pub fn decrypt(&self, data: &[u8]) -> (r: Result<Vec<u8>, String>)
        ensures
            ano_decrypt_refusal(data@) is None <==> r is Ok,
            r matches Ok(v) ==> v@ == ano_decrypt(self.algo(), self.key(), data@),
            r matches Ok(v) ==> v@.len() == if data@.len() == 0 {
                0
            } else {
                data@.len() - 1 - (data@.last() - 1)
            },
            r matches Err(m) ==> m@ == ano_decrypt_refusal(data@).unwrap(),
    {
        proof { use_type_invariant(self); }
        if data.len() == 0 {
            return Ok(Vec::new());
        }
        if (data.len() - 1) % 16 != 0 {
            proof { reveal_strlit("invalid ANO ciphertext length"); }
            return Err(String::from_str("invalid ANO ciphertext length"));
        }
        let count = data[data.len() - 1] as usize;
        if count == 0 || count > 16 {
            proof { reveal_strlit("invalid ANO padding count"); }
            return Err(String::from_str("invalid ANO padding count"));
        }
        let ct = &data[0..data.len() - 1];
        if count - 1 > ct.len() {
            proof { reveal_strlit("invalid ANO padding"); }
            return Err(String::from_str("invalid ANO padding"));
        }
        let iv = zero_bytes(16);
        let out = match self.algo {
            EncryptAlgo::Aes128 => aes128_cbc_decrypt_bytes(self.key.as_slice(), iv.as_slice(), ct),
            EncryptAlgo::Aes192 => aes192_cbc_decrypt_bytes(self.key.as_slice(), iv.as_slice(), ct),
            EncryptAlgo::Aes256 => aes256_cbc_decrypt_bytes(self.key.as_slice(), iv.as_slice(), ct),
        };
        let keep = ct.len() - (count - 1);
        let r = copy_bytes(&out.as_slice()[0..keep]);
        proof {
            assert(ct@ =~= data@.drop_last());
        }
        Ok(r)
    }
}


/// A big-endian byte string left-padded with zero bytes to at least `n`
/// bytes.
pub open spec fn left_pad(s: Seq<u8>, n: nat) -> Seq<u8> {
    if s.len() < n {
        zeros((n - s.len()) as nat) + s
    } else {
        s
    }
}

/// `base^exp mod modulus` over big-endian byte strings, left-padded to
/// `out_len` bytes.
pub open spec fn spec_modpow_fixed(base: Seq<u8>, exp: Seq<u8>, modulus: Seq<u8>, out_len: nat) -> Seq<u8> {
    left_pad(
        be_min_bytes((pow(be_value(base) as int, be_value(exp)) % (be_value(modulus) as int)) as nat),
        out_len,
    )
}

/// The client's Diffie-Hellman public key: `generator^private mod prime`.
pub open spec fn spec_dh_public_key(generator: Seq<u8>, prime: Seq<u8>, private: Seq<u8>, out_len: nat) -> Seq<u8> {
    spec_modpow_fixed(generator, private, prime, out_len)
}

/// The Diffie-Hellman shared secret: `server_public^private mod prime`.
pub open spec fn spec_dh_shared_key(server_public: Seq<u8>, private: Seq<u8>, prime: Seq<u8>, out_len: nat) -> Seq<u8> {
    spec_modpow_fixed(server_public, private, prime, out_len)
}

/// `base^exp mod modulus`, left-padded to `out_len` bytes (the DH values are
/// fixed width).
fn modpow_fixed(base: &[u8], exp: &[u8], modulus: &[u8], out_len: usize) -> (out: Vec<u8>)
    requires
        be_value(modulus@) > 0,
    ensures
        out@ == spec_modpow_fixed(base@, exp@, modulus@, out_len as nat),
{
    let mut out = modpow_be(base, exp, modulus);
    if out.len() < out_len {
        let mut padded = zero_bytes(out_len - out.len());
        append_slice(&mut padded, out.as_slice());
        out = padded;
    }
    out
}

/// Client DH public key: `generator^private mod prime`.
pub fn dh_public_key(generator: &[u8], prime: &[u8], private: &[u8], out_len: usize) -> (out: Vec<u8>)
    requires
        be_value(prime@) > 0,
    ensures
        out@ == spec_dh_public_key(generator@, prime@, private@, out_len as nat),
{
    modpow_fixed(generator, private, prime, out_len)
}

/// Shared secret: `server_public^private mod prime`.
pub fn dh_shared_key(server_public: &[u8], private: &[u8], prime: &[u8], out_len: usize) -> (out: Vec<u8>)
    requires
        be_value(prime@) > 0,
    ensures
        out@ == spec_dh_shared_key(server_public@, private@, prime@, out_len as nat),
{
    modpow_fixed(server_public, private, prime, out_len)
}

/// Leading zero bytes do not change the value of a big-endian integer.
pub proof fn lemma_be_value_zero_prefix(k: nat, s: Seq<u8>)
    ensures
        be_value(zeros(k) + s) == be_value(s),
    decreases s.len(), k,
{
    if s.len() == 0 {
        assert(zeros(k) + s =~= zeros(k));
        if k > 0 {
            assert(zeros(k).drop_last() =~= zeros((k - 1) as nat));
            lemma_be_value_zero_prefix((k - 1) as nat, s);
            assert(zeros((k - 1) as nat) + s =~= zeros((k - 1) as nat));
        }
    } else {
        assert((zeros(k) + s).drop_last() =~= zeros(k) + s.drop_last());
        lemma_be_value_zero_prefix(k, s.drop_last());
    }
}

/// The shortest big-endian encoding of a number has that number as value.
pub proof fn lemma_be_min_bytes_value(v: nat)
    ensures
        be_value(be_min_bytes(v)) == v,
    decreases v,
{
    if v < 256 {
        assert(be_min_bytes(v).drop_last() =~= Seq::<u8>::empty());
        assert(be_value(Seq::<u8>::empty()) == 0);
        assert(be_min_bytes(v).last() as nat == v);
    } else {
        lemma_be_min_bytes_value(v / 256);
        assert(be_min_bytes(v).drop_last() =~= be_min_bytes(v / 256));
        assert(be_min_bytes(v).last() as nat == v % 256);
        assert((v / 256) * 256 + v % 256 == v);
    }
}

/// A number no greater than the value of a non-empty byte string has a
/// shortest encoding no longer than that string.
pub proof fn lemma_be_min_bytes_len(v: nat, s: Seq<u8>)
    requires
        v <= be_value(s),
        s.len() > 0,
    ensures
        be_min_bytes(v).len() <= s.len(),
    decreases s.len(),
{
    if v >= 256 {
        let d = s.drop_last();
        if d.len() == 0 {
            assert(be_value(d) == 0);
            assert(false);
        }
        assert(v <= be_value(d) * 256 + 255);
        assert(v / 256 <= be_value(d));
        lemma_be_min_bytes_len(v / 256, d);
    }
}

/// The value of a fixed-width modular power.
pub proof fn lemma_modpow_fixed_value(base: Seq<u8>, exp: Seq<u8>, modulus: Seq<u8>, out_len: nat)
    requires
        be_value(modulus) > 0,
    ensures
        be_value(spec_modpow_fixed(base, exp, modulus, out_len)) == pow(be_value(base) as int, be_value(exp))
            % (be_value(modulus) as int),
{
    let v = pow(be_value(base) as int, be_value(exp)) % (be_value(modulus) as int);
    let m = be_min_bytes(v as nat);
    lemma_be_min_bytes_value(v as nat);
    if m.len() < out_len {
        lemma_be_value_zero_prefix((out_len - m.len()) as nat, m);
    }
}

/// A fixed-width modular power is no longer than the wider of the width
/// and the modulus.
pub proof fn lemma_modpow_fixed_len_bound(base: Seq<u8>, exp: Seq<u8>, modulus: Seq<u8>, out_len: nat)
    requires
        be_value(modulus) > 0,
    ensures
        spec_modpow_fixed(base, exp, modulus, out_len).len() <= out_len + modulus.len(),
{
    let v = (pow(be_value(base) as int, be_value(exp)) % (be_value(modulus) as int)) as nat;
    if modulus.len() == 0 {
        assert(be_value(modulus) == 0);
    }
    lemma_be_min_bytes_len(v, modulus);
}

/// Diffie-Hellman agreement: both sides of the exchange derive the same
/// shared secret. Each side combines the other's public key with its own
/// private key; for any generator, non-zero prime and private keys, the two
/// secrets are byte for byte equal.
pub proof fn dh_agreement(generator: Seq<u8>, prime: Seq<u8>, a_private: Seq<u8>, b_private: Seq<u8>, out_len: nat)
    requires
        be_value(prime) > 0,
    ensures
        spec_dh_shared_key(spec_dh_public_key(generator, prime, b_private, out_len), a_private, prime, out_len)
            == spec_dh_shared_key(spec_dh_public_key(generator, prime, a_private, out_len), b_private, prime, out_len),
{
    let g = be_value(generator) as int;
    let p = be_value(prime) as int;
    let a = be_value(a_private);
    let b = be_value(b_private);
    let b_pub = spec_dh_public_key(generator, prime, b_private, out_len);
    let a_pub = spec_dh_public_key(generator, prime, a_private, out_len);
    lemma_modpow_fixed_value(generator, b_private, prime, out_len);
    lemma_modpow_fixed_value(generator, a_private, prime, out_len);
    lemma_pow_mod_noop(pow(g, b), a, p);
    lemma_pow_mod_noop(pow(g, a), b, p);
    lemma_pow_multiplies(g, b, a);
    lemma_pow_multiplies(g, a, b);
    lemma_mul_is_commutative(a as int, b as int);
    assert(pow(be_value(b_pub) as int, a) % p == pow(be_value(a_pub) as int, b) % p);
}

/// The UTF-16 code units of a text: one unit for a character below
/// `0x10000`, a surrogate pair for the others.
pub open spec fn utf16_units(s: Seq<char>) -> Seq<u16>
    decreases s.len(),
{
    if s.len() == 0 {
        seq![]
    } else {
        let c = s.last() as u32;
        let rest = utf16_units(s.drop_last());
        if c < 0x10000 {
            rest.push(c as u16)
        } else {
            let v = (c - 0x10000) as nat;
            rest.push((0xD800 + v / 0x400) as u16).push((0xDC00 + v % 0x400) as u16)
        }
    }
}

/// Big-endian bytes of 16-bit code units, two per unit.
pub open spec fn utf16_be(units: Seq<u16>) -> Seq<u8>
    decreases units.len(),
{
    if units.len() == 0 {
        seq![]
    } else {
        utf16_be(units.drop_last()) + seq![(units.last() / 256) as u8, (units.last() % 256) as u8]
    }
}

/// The number of zero bytes that pad `n` bytes to a multiple of eight.
pub open spec fn pad8_len(n: nat) -> nat {
    if n % 8 == 0 {
        0
    } else {
        (8 - n % 8) as nat
    }
}

/// The buffer that the 10G verifier encrypts: the upper-cased text
/// encoded as UTF-16BE, zero padded to a multiple of eight bytes.
pub open spec fn verifier_input(upper: Seq<char>) -> Seq<u8> {
    let w = utf16_be(utf16_units(upper));
    w + zeros(pad8_len(w.len()))
}

/// The fixed DES key of the first 10G verifier pass.
pub open spec fn verifier_key1() -> Seq<u8> {
    seq![0x01u8, 0x23u8, 0x45u8, 0x67u8, 0x89u8, 0xabu8, 0xcdu8, 0xefu8]
}

/// The last eight bytes of a byte string.
pub open spec fn last8(s: Seq<u8>) -> Seq<u8> {
    s.subrange(s.len() - 8, s.len() as int)
}

/// The 10G verifier of an upper-cased text: its buffer DES-CBC encrypted
/// under the fixed key, then again under the last block of that, of which
/// the last block is kept.
pub open spec fn upper_text_verifier(upper: Seq<char>) -> Seq<u8> {
    let data = verifier_input(upper);
    let first = des_cbc_encrypt(verifier_key1(), zeros(8), data);
    last8(des_cbc_encrypt(last8(first), zeros(8), data))
}

/// The 10G verifier of a text (the user name followed by the password):
/// that of the text upper-cased.
pub open spec fn text_verifier(text: Seq<char>) -> Seq<u8> {
    upper_text_verifier(uppercase_text(text))
}

/// The text of a user name and password given as UTF-8 bytes.
pub open spec fn verifier_text(user: Seq<u8>, password: Seq<u8>) -> Seq<char> {
    decode_utf8(user) + decode_utf8(password)
}

/// The Oracle 10G (O3LOGON) password verifier of a user name and password,
/// both given as UTF-8 bytes.
pub open spec fn spec_oracle10g_verifier(user: Seq<u8>, password: Seq<u8>) -> Seq<u8> {
    text_verifier(verifier_text(user, password))
}

/// The 10G verifier is case-insensitive: user names and passwords whose
/// text upper-cases alike have the same verifier.
pub proof fn oracle10g_verifier_ignores_case(user1: Seq<u8>, password1: Seq<u8>, user2: Seq<u8>, password2: Seq<u8>)
    requires
        uppercase_text(verifier_text(user1, password1)) == uppercase_text(verifier_text(user2, password2)),
    ensures
        spec_oracle10g_verifier(user1, password1) == spec_oracle10g_verifier(user2, password2),
{
}

/// For ASCII text the verifier ignores the case of the letters: two ASCII
/// texts that differ only in the case of their letters have the same
/// verifier, the one that `oracle10g_verifier` gives them (its contract
/// states it for ASCII text through `ascii_upper_chars`).
pub proof fn oracle10g_verifier_ignores_ascii_case(text1: Seq<char>, text2: Seq<char>)
    requires
        is_ascii_chars(text1),
        is_ascii_chars(text2),
        ascii_upper_chars(text1) == ascii_upper_chars(text2),
    ensures
        upper_text_verifier(ascii_upper_chars(text1)) == upper_text_verifier(ascii_upper_chars(text2)),
        ascii_upper_chars(ascii_upper_chars(text1)) == ascii_upper_chars(text1),
{
    assert(ascii_upper_chars(ascii_upper_chars(text1)) =~= ascii_upper_chars(text1));
}

proof fn lemma_utf16_be_len(units: Seq<u16>)
    ensures
        utf16_be(units).len() == 2 * units.len(),
    decreases units.len(),
{
    if units.len() > 0 {
        lemma_utf16_be_len(units.drop_last());
    }
}

/// Appends the big-endian bytes of each code unit.
fn utf16_be_bytes(units: &[u16]) -> (data: Vec<u8>)
    ensures
        data@ == utf16_be(units@),
{
    let mut data: Vec<u8> = Vec::new();
    let mut i: usize = 0;
    while i < units.len()
        invariant
            i <= units@.len(),
            data@ == utf16_be(units@.subrange(0, i as int)),
        decreases units@.len() - i,
    {
        let u = units[i];
        data.push((u / 256) as u8);
        data.push((u % 256) as u8);
        proof {
            assert(units@.subrange(0, i + 1).drop_last() =~= units@.subrange(0, i as int));
        }
        i = i + 1;
    }
    assert(units@.subrange(0, units@.len() as int) =~= units@);
    data
}

/// Computes the Oracle 10G (O3LOGON) password verifier.
///
/// The verifier is derived from the case-insensitive (upper-cased) username
/// and password, encoded as UTF-16BE and zero padded to a multiple of eight
/// bytes. That buffer is DES-CBC encrypted twice with an all-zero IV: the
/// first pass uses the fixed key `0x0123456789ABCDEF`, the second pass uses
/// the last ciphertext block of the first pass. Only the final block is kept.
/// The password is text, in UTF-8.
pub fn oracle10g_verifier(user: &str, password: &[u8]) -> (r: [u8; 8])
    requires
        user.spec_bytes().len() + password@.len() > 0,
        2 * (user.spec_bytes().len() + password@.len()) + 8 <= usize::MAX,
        valid_utf8(password@),
    ensures
        r@ == spec_oracle10g_verifier(user.spec_bytes(), password@),
        is_ascii_chars(verifier_text(user.spec_bytes(), password@)) ==> r@ == upper_text_verifier(
            ascii_upper_chars(verifier_text(user.spec_bytes(), password@)),
        ),
{
    let password_text = utf8_to_string(copy_bytes(password)).unwrap();
    let mut text = String::from_str(user);
    text.append(password_text.as_str());
    let upper = to_uppercase_text(text.as_str());
    let units = utf16_code_units(upper.as_str());
    let mut data = utf16_be_bytes(units.as_slice());
    proof {
        encode_utf8_decode_utf8(user@);
        lemma_utf16_be_len(units@);
        if user@.len() == 0 {
            assert(encode_utf8(user@) =~= Seq::<u8>::empty());
            assert(password@.len() > 0);
            assert(decode_utf8(password@).len() > 0);
        }
        assert(text@.len() > 0);
        lemma_utf16_units_nonempty(upper@);
    }
    let pad: usize = if data.len() % 8 == 0 { 0 } else { 8 - data.len() % 8 };
    append_zeros(&mut data, pad);
    let key1: Vec<u8> = vec![0x01u8, 0x23u8, 0x45u8, 0x67u8, 0x89u8, 0xabu8, 0xcdu8, 0xefu8];
    assert(key1@ =~= verifier_key1());
    let iv = zero_bytes(8);
    let first = des_cbc_encrypt_bytes(key1.as_slice(), iv.as_slice(), data.as_slice());
    let n = first.len();
    let key2 = copy_bytes(&first.as_slice()[n - 8..n]);
    let second = des_cbc_encrypt_bytes(key2.as_slice(), iv.as_slice(), data.as_slice());
    let m = second.len();
    let r: [u8; 8] = [
        second[m - 8],
        second[m - 7],
        second[m - 6],
        second[m - 5],
        second[m - 4],
        second[m - 3],
        second[m - 2],
        second[m - 1],
    ];
    assert(r@ =~= last8(second@));
    r
}

/// A non-empty text has code units.
proof fn lemma_utf16_units_nonempty(s: Seq<char>)
    requires
        s.len() > 0,
    ensures
        utf16_units(s).len() > 0,
{
}

/// Data-integrity (checksum) algorithms negotiated by the ANO "integrity"
/// service. Only the AES-keystream variants are implemented (MD5/SHA1 would
/// need an RC4 keystream).
#[derive(Debug, Clone, Copy, PartialEq, Eq, Structural)]
pub enum IntegrityAlgo {
    Sha256,
    Sha384,
    Sha512,
}

/// The algorithm that a wire integrity algorithm id names, if any.
pub open spec fn spec_integrity_algo_from_id(id: u8) -> Option<IntegrityAlgo> {
    if id == 5 {
        Some(IntegrityAlgo::Sha256)
    } else if id == 6 {
        Some(IntegrityAlgo::Sha384)
    } else if id == 4 {
        Some(IntegrityAlgo::Sha512)
    } else {
        None
    }
}

/// The digest size of an integrity algorithm.
pub open spec fn spec_hash_size(algo: IntegrityAlgo) -> usize {
    match algo {
        IntegrityAlgo::Sha256 => 32,
        IntegrityAlgo::Sha384 => 48,
        IntegrityAlgo::Sha512 => 64,
    }
}

/// The digest of an integrity algorithm.
pub open spec fn digest_with(algo: IntegrityAlgo, data: Seq<u8>) -> Seq<u8> {
    match algo {
        IntegrityAlgo::Sha256 => sha256(data),
        IntegrityAlgo::Sha384 => sha384(data),
        IntegrityAlgo::Sha512 => sha512(data),
    }
}

impl IntegrityAlgo {
    pub fn from_id(id: u8) -> (r: Option<Self>)
        ensures
            r == spec_integrity_algo_from_id(id),
    {
        if id == 5 {
            Some(IntegrityAlgo::Sha256)
        } else if id == 6 {
            Some(IntegrityAlgo::Sha384)
        } else if id == 4 {
            Some(IntegrityAlgo::Sha512)
        } else {
            None
        }
    }

    pub fn hash_size(self) -> (r: usize)
        ensures
            r == spec_hash_size(self),
    {
        match self {
            IntegrityAlgo::Sha256 => 32,
            IntegrityAlgo::Sha384 => 48,
            IntegrityAlgo::Sha512 => 64,
        }
    }

    fn digest(self, data: &[u8]) -> (r: Vec<u8>)
        ensures
            r@ == digest_with(self, data@),
            r@.len() == spec_hash_size(self),
    {
        match self {
            IntegrityAlgo::Sha256 => sha256_digest(data),
            IntegrityAlgo::Sha384 => sha384_digest(data),
            IntegrityAlgo::Sha512 => sha512_digest(data),
        }
    }
}

/// The state of an AES-CBC keystream: key, chaining value and the running
/// buffer.
pub struct KeystreamState {
    pub key: Seq<u8>,
    pub iv: Seq<u8>,
    pub buf: Seq<u8>,
}

/// The block produced by advancing a keystream: the running buffer
/// encrypted under the key from the chaining value.
pub open spec fn keystream_output(k: KeystreamState) -> Seq<u8> {
    aes128_cbc_encrypt(k.key, k.iv, k.buf)
}

/// The keystream after advancing: the output becomes the running buffer and
/// its last block the chaining value.
pub open spec fn keystream_advance(k: KeystreamState) -> KeystreamState {
    let out = keystream_output(k);
    KeystreamState { key: k.key, iv: out.subrange(out.len() - 16, out.len() as int), buf: out }
}

/// A stateful AES-CBC keystream (the `OracleNetworkHash2` construction). Each
/// `next` encrypts the running buffer; the buffer is the previous
/// ciphertext, so the state advances exactly as Oracle's does.
struct Keystream {
    key: Vec<u8>,
    iv: Vec<u8>,
    buf: Vec<u8>,
}

impl Keystream {
    #[verifier::type_invariant]
    spec fn inv(self) -> bool {
        &&& self.key@.len() == 16
        &&& self.iv@.len() == 16
        &&& self.buf@.len() >= 16
        &&& self.buf@.len() % 16 == 0
    }

    closed spec fn state(self) -> KeystreamState {
        KeystreamState { key: self.key@, iv: self.iv@, buf: self.buf@ }
    }

    closed spec fn size(self) -> nat {
        self.buf@.len()
    }

    fn new(key: Vec<u8>, iv: Vec<u8>, size: usize) -> (k: Self)
        requires
            key@.len() == 16,
            iv@.len() == 16,
            size >= 16,
            size % 16 == 0,
        ensures
            k.state() == (KeystreamState { key: key@, iv: iv@, buf: zeros(size as nat) }),
    {
        Keystream { key, iv, buf: zero_bytes(size) }
    }

    fn next(&mut self) -> (r: Vec<u8>)
        ensures
            r@ == keystream_output(old(self).state()),
            final(self).state() == keystream_advance(old(self).state()),
            final(self).size() == old(self).size(),
    {
        proof { use_type_invariant(&*self); }
        let out = aes128_cbc_encrypt_bytes(self.key.as_slice(), self.iv.as_slice(), self.buf.as_slice());
        let last = out.len() - 16;
        self.iv = copy_bytes(&out.as_slice()[last..out.len()]);
        self.buf = copy_bytes(out.as_slice());
        out
    }
}

/// The state of the data integrity service.
pub struct IntegrityState {
    pub algo: IntegrityAlgo,
    pub kdf_key: Seq<u8>,
    pub kdf_iv: Seq<u8>,
    pub kdf_buf: Seq<u8>,
    pub send: KeystreamState,
    pub receive: KeystreamState,
}

/// The integrity state after (re)deriving the keystreams: the key-derivation
/// buffer is encrypted; its two halves become the next key and IV; the send
/// and receive keystreams start from that key with byte 5 set to 90 and 180.
pub open spec fn integrity_derive(s: IntegrityState) -> IntegrityState {
    let out = aes128_cbc_encrypt(s.kdf_key, s.kdf_iv, s.kdf_buf);
    let key = out.subrange(0, 16);
    let iv = out.subrange(16, 32);
    let size = spec_hash_size(s.algo) as nat;
    IntegrityState {
        algo: s.algo,
        kdf_key: key,
        kdf_iv: iv,
        kdf_buf: out,
        send: KeystreamState { key: key.update(5, 90u8), iv: iv, buf: zeros(size) },
        receive: KeystreamState { key: key.update(5, 180u8), iv: iv, buf: zeros(size) },
    }
}

/// The keystreams of the two directions as derived: both take the derived
/// key (the next key-derivation key) and IV, the send keystream with byte 5
/// of the key set to 90 and the receive keystream with it set to 180.
pub open spec fn keys_by_direction(s: IntegrityState) -> bool {
    &&& s.kdf_key.len() == 16
    &&& s.send.key.len() == 16
    &&& s.receive.key.len() == 16
    &&& s.send.key[5] == 90u8
    &&& s.receive.key[5] == 180u8
    &&& forall|i: int| 0 <= i < 16 && i != 5 ==> s.send.key[i] == s.kdf_key[i] && s.receive.key[i] == s.kdf_key[i]
    &&& s.send.iv == s.kdf_iv
    &&& s.receive.iv == s.kdf_iv
}

/// Deriving the keystreams keys the two directions apart: the send
/// keystream's key has byte 5 set to 90, the receive keystream's to 180,
/// and otherwise both are the derived key, the first half of the
/// encryption of the key-derivation buffer, whose second half is the IV of
/// both.
pub proof fn integrity_direction_keys(s: IntegrityState)
    requires
        aes128_cbc_encrypt(s.kdf_key, s.kdf_iv, s.kdf_buf).len() == 32,
    ensures
        keys_by_direction(integrity_derive(s)),
        integrity_derive(s).kdf_key == aes128_cbc_encrypt(s.kdf_key, s.kdf_iv, s.kdf_buf).subrange(0, 16),
        integrity_derive(s).kdf_iv == aes128_cbc_encrypt(s.kdf_key, s.kdf_iv, s.kdf_buf).subrange(16, 32),
{
}

/// The key-derivation key made from the leading five bytes of the shared
/// key: those bytes, then `0xFF`, then zeros.
pub open spec fn integrity_kdf_key(key: Seq<u8>) -> Seq<u8> {
    key.subrange(0, 5) + seq![0xFFu8] + zeros(10)
}

/// The checksum that the sender appends: the digest of the data followed
/// by the next block of the send keystream.
pub open spec fn integrity_checksum(s: IntegrityState, data: Seq<u8>) -> Seq<u8> {
    digest_with(s.algo, data + keystream_output(s.send))
}

/// Oracle ANO data integrity: appends/verifies a checksum derived from the DH
/// shared key. Send and receive use independent keystream state.
pub struct Integrity {
    algo: IntegrityAlgo,
    kdf_key: Vec<u8>,
    kdf_iv: Vec<u8>,
    kdf_buf: Vec<u8>,
    encryptor: Keystream,
    decryptor: Keystream,
}

impl Integrity {
    /// The buffers have their fixed sizes and the keystreams the digest
    /// size.
    pub closed spec fn wf(self) -> bool {
        &&& self.kdf_key@.len() == 16
        &&& self.kdf_iv@.len() == 16
        &&& self.kdf_buf@.len() == 32
        &&& self.encryptor.size() == spec_hash_size(self.algo)
        &&& self.decryptor.size() == spec_hash_size(self.algo)
    }

    /// The state of the integrity service.
    pub closed spec fn state(self) -> IntegrityState {
        IntegrityState {
            algo: self.algo,
            kdf_key: self.kdf_key@,
            kdf_iv: self.kdf_iv@,
            kdf_buf: self.kdf_buf@,
            send: self.encryptor.state(),
            receive: self.decryptor.state(),
        }
    }

    /// Sets up the integrity service from the shared key and IV; fails when
    /// the key has fewer than five bytes or the IV fewer than sixteen.
    pub fn new(algo: IntegrityAlgo, key: &[u8], iv: &[u8]) -> (r: Result<Self, String>)
        ensures
            (key@.len() >= 5 && iv@.len() >= 16) <==> r is Ok,
            r matches Ok(i) ==> i.wf(),
            r matches Ok(i) ==> i.state() == integrity_derive(
                IntegrityState {
                    algo,
                    kdf_key: integrity_kdf_key(key@),
                    kdf_iv: iv@.subrange(0, 16),
                    kdf_buf: zeros(32),
                    send: i.state().send,
                    receive: i.state().receive,
                },
            ),
            r matches Ok(i) ==> keys_by_direction(i.state()),
            r matches Err(m) ==> m@ == "ANO integrity key/IV too short"@,
    {
        if key.len() < 5 || iv.len() < 16 {
            proof { reveal_strlit("ANO integrity key/IV too short"); }
            return Err(String::from_str("ANO integrity key/IV too short"));
        }
        let mut kdf_key = copy_bytes(&key[0..5]);
        kdf_key.push(0xFF);
        append_zeros(&mut kdf_key, 10);
        assert(kdf_key@ =~= integrity_kdf_key(key@));
        let kdf_iv = copy_bytes(&iv[0..16]);
        let size = algo.hash_size();
        let mut this = Integrity {
            algo,
            kdf_key,
            kdf_iv,
            kdf_buf: zero_bytes(32),
            encryptor: Keystream::new(zero_bytes(16), zero_bytes(16), size),
            decryptor: Keystream::new(zero_bytes(16), zero_bytes(16), size),
        };
        this.init();
        Ok(this)
    }

    /// (Re)derives the send/receive keystreams. Called once at setup and again
    /// after every reset, matching Oracle's per-request crypto state.
    pub fn init(&mut self)
        requires
            old(self).wf(),
        ensures
            final(self).wf(),
            final(self).state() == integrity_derive(old(self).state()),
            keys_by_direction(final(self).state()),
    {
        let out = aes128_cbc_encrypt_bytes(self.kdf_key.as_slice(), self.kdf_iv.as_slice(), self.kdf_buf.as_slice());
        let key = copy_bytes(&out.as_slice()[0..16]);
        let iv = copy_bytes(&out.as_slice()[16..32]);
        self.kdf_buf = out;
        // The next re-derivation uses CBC(key, iv), as Oracle does.
        self.kdf_key = copy_bytes(key.as_slice());
        self.kdf_iv = copy_bytes(iv.as_slice());
        let mut send_key = copy_bytes(key.as_slice());
        send_key.set(5, 90);
        let mut recv_key = copy_bytes(key.as_slice());
        recv_key.set(5, 180);
        let size = self.algo.hash_size();
        self.encryptor = Keystream::new(send_key, copy_bytes(iv.as_slice()), size);
        self.decryptor = Keystream::new(recv_key, iv, size);
    }

    pub fn hash_size(&self) -> (r: usize)
        ensures
            r == spec_hash_size(self.state().algo),
    {
        self.algo.hash_size()
    }

    /// Returns `data` followed by its checksum, to be encrypted afterwards;
    /// the send keystream advances.
    pub fn compute(&mut self, data: &[u8]) -> (r: Vec<u8>)
        requires
            old(self).wf(),
            data@.len() + 64 <= usize::MAX,
        ensures
            final(self).wf(),
            r@ == data@ + integrity_checksum(old(self).state(), data@),
            final(self).state() == integrity_after(old(self).state(), IntegrityCall::Compute(data@)),
            r@.len() == data@.len() + spec_hash_size(old(self).state().algo),
            final(self).state() == (IntegrityState {
                send: keystream_advance(old(self).state().send),
                ..old(self).state()
            }),
    {
        let keystream = self.encryptor.next();
        let mut combined = copy_bytes(data);
        append_slice(&mut combined, keystream.as_slice());
        let checksum = self.algo.digest(combined.as_slice());
        let mut packet = copy_bytes(data);
        append_slice(&mut packet, checksum.as_slice());
        packet
    }

    /// Verifies and strips the trailing checksum. The data is accepted when
    /// its trailer is the digest of the rest followed by the next block of
    /// the receive keystream.
    pub fn validate(&mut self, data: &[u8]) -> (r: Result<Vec<u8>, String>)
        requires
            old(self).wf(),
        ensures
            final(self).wf(),
            final(self).state() == integrity_after(old(self).state(), IntegrityCall::Validate(data@)),
            data@.len() <= spec_hash_size(old(self).state().algo) ==> {
                &&& r matches Err(m) && m@ == "data integrity check failed: short input"@
                &&& final(self).state() == old(self).state()
            },
            data@.len() > spec_hash_size(old(self).state().algo) ==> {
                let split = data@.len() - spec_hash_size(old(self).state().algo);
                let payload = data@.subrange(0, split);
                let received = data@.subrange(split, data@.len() as int);
                let expected = digest_with(
                    old(self).state().algo,
                    payload + keystream_output(old(self).state().receive),
                );
                &&& final(self).state() == (IntegrityState {
                    receive: keystream_advance(old(self).state().receive),
                    ..old(self).state()
                })
                &&& expected == received ==> (r matches Ok(v) && v@ == payload)
                &&& expected != received ==> (r matches Err(m) && m@
                    == "data integrity check failed"@)
            },
    {
        let size = self.algo.hash_size();
        if data.len() <= size {
            proof { reveal_strlit("data integrity check failed: short input"); }
            return Err(String::from_str("data integrity check failed: short input"));
        }
        let split = data.len() - size;
        let payload = &data[0..split];
        let received = &data[split..data.len()];
        let keystream = self.decryptor.next();
        let mut combined = copy_bytes(payload);
        append_slice(&mut combined, keystream.as_slice());
        let expected = self.algo.digest(combined.as_slice());
        if bytes_equal(expected.as_slice(), received) {
            Ok(copy_bytes(payload))
        } else {
            proof { reveal_strlit("data integrity check failed"); }
            Err(String::from_str("data integrity check failed"))
        }
    }
}

/// A peer whose receive keystream is the sender's send keystream accepts
/// what the sender checksummed, and strips the checksum: for the data
/// followed by its checksum (as `Integrity::compute` returns it), the split
/// that `Integrity::validate` makes gives back the data and a trailer equal
/// to the checksum it expects.
pub proof fn integrity_round_trip(sender: IntegrityState, receiver: IntegrityState, data: Seq<u8>)
    requires
        receiver.algo == sender.algo,
        receiver.receive == sender.send,
        data.len() > 0,
        integrity_checksum(sender, data).len() == spec_hash_size(sender.algo),
    ensures
        ({
            let packet = data + integrity_checksum(sender, data);
            let split = packet.len() - spec_hash_size(receiver.algo);
            &&& packet.len() > spec_hash_size(receiver.algo)
            &&& packet.subrange(0, split) == data
            &&& digest_with(receiver.algo, packet.subrange(0, split) + keystream_output(receiver.receive))
                == packet.subrange(split, packet.len() as int)
        }),
{
    let packet = data + integrity_checksum(sender, data);
    let split = packet.len() - spec_hash_size(receiver.algo);
    assert(packet.subrange(0, split) =~= data);
    assert(packet.subrange(split, packet.len() as int) =~= integrity_checksum(sender, data));
}

/// A call on an integrity service: a checksum computed over data, or data
/// validated.
pub enum IntegrityCall {
    Compute(Seq<u8>),
    Validate(Seq<u8>),
}

/// The integrity state after a call (as `Integrity::compute` and
/// `Integrity::validate` state it): computing advances the send keystream;
/// validating data longer than a checksum advances the receive keystream,
/// and shorter data leaves the state as it was.
pub open spec fn integrity_after(s: IntegrityState, call: IntegrityCall) -> IntegrityState {
    match call {
        IntegrityCall::Compute(_) => IntegrityState { send: keystream_advance(s.send), ..s },
        IntegrityCall::Validate(d) => if d.len() <= spec_hash_size(s.algo) {
            s
        } else {
            IntegrityState { receive: keystream_advance(s.receive), ..s }
        },
    }
}

/// The integrity state after a sequence of calls.
pub open spec fn integrity_run(s: IntegrityState, calls: Seq<IntegrityCall>) -> IntegrityState
    decreases calls.len(),
{
    if calls.len() == 0 {
        s
    } else {
        integrity_after(integrity_run(s, calls.drop_last()), calls.last())
    }
}

/// The number of checksums computed in a sequence of calls.
pub open spec fn computes(calls: Seq<IntegrityCall>) -> nat
    decreases calls.len(),
{
    if calls.len() == 0 {
        0
    } else {
        computes(calls.drop_last()) + if calls.last() is Compute {
            1nat
        } else {
            0nat
        }
    }
}

/// A keystream advanced `n` times.
pub open spec fn keystream_advance_n(k: KeystreamState, n: nat) -> KeystreamState
    decreases n,
{
    if n == 0 {
        k
    } else {
        keystream_advance(keystream_advance_n(k, (n - 1) as nat))
    }
}

proof fn lemma_integrity_run_send(s: IntegrityState, calls: Seq<IntegrityCall>)
    ensures
        integrity_run(s, calls).algo == s.algo,
        integrity_run(s, calls).send == keystream_advance_n(s.send, computes(calls)),
    decreases calls.len(),
{
    if calls.len() > 0 {
        lemma_integrity_run_send(s, calls.drop_last());
    }
}

/// The send and receive keystreams are independent: two integrity services
/// of the same algorithm that start from the same send keystream and have
/// computed as many checksums compute the same checksum of any data, however
/// many validations (successful or not) either made in between.
pub proof fn checksums_ignore_validation(
    s1: IntegrityState,
    s2: IntegrityState,
    calls1: Seq<IntegrityCall>,
    calls2: Seq<IntegrityCall>,
    data: Seq<u8>,
)
    requires
        s1.algo == s2.algo,
        s1.send == s2.send,
        computes(calls1) == computes(calls2),
    ensures
        integrity_checksum(integrity_run(s1, calls1), data) == integrity_checksum(integrity_run(s2, calls2), data),
{
    lemma_integrity_run_send(s1, calls1);
    lemma_integrity_run_send(s2, calls2);
}

/// A cryptor's key is the leading bytes of the secret it was made from
/// (see `AesCryptor::new`): two secrets that agree on those bytes encrypt
/// and decrypt every packet body alike.
pub proof fn cryptor_uses_leading_key_bytes(algo: EncryptAlgo, k1: Seq<u8>, k2: Seq<u8>, data: Seq<u8>)
    requires
        k1.len() >= spec_key_len(algo),
        k2.len() >= spec_key_len(algo),
        k1.subrange(0, spec_key_len(algo) as int) == k2.subrange(0, spec_key_len(algo) as int),
    ensures
        ano_encrypt(algo, k1.subrange(0, spec_key_len(algo) as int), data) == ano_encrypt(
            algo,
            k2.subrange(0, spec_key_len(algo) as int),
            data,
        ),
        ano_decrypt(algo, k1.subrange(0, spec_key_len(algo) as int), data) == ano_decrypt(
            algo,
            k2.subrange(0, spec_key_len(algo) as int),
            data,
        ),
{
}

} // verus!
