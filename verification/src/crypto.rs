//! Pairing cryptography: digests, zero-padded AES-128-ECB, certificate
//! signatures and the client identity.
use vstd::prelude::*;
use aes::cipher::{BlockDecrypt, BlockEncrypt, KeyInit};
use sha2::Digest;

use crate::control::ControlError;

verus! {

/// The SHA-256 digest of `data`.
pub uninterp spec fn sha256(data: Seq<u8>) -> Seq<u8>;

/// The SHA-1 digest of `data`.
pub uninterp spec fn sha1(data: Seq<u8>) -> Seq<u8>;

/// AES-128 encryption of one 16-byte block under `key`.
pub uninterp spec fn aes128_encrypt(key: Seq<u8>, block: Seq<u8>) -> Seq<u8>;

/// AES-128 decryption of one 16-byte block under `key`.
pub uninterp spec fn aes128_decrypt(key: Seq<u8>, block: Seq<u8>) -> Seq<u8>;

/// SHA-256 of `data` (`sha2::Sha256::digest`).
///
/// Trusted: the digest is what `sha256` names and is 32 bytes long.
#[verifier::external_body]
pub(crate) fn sha256_digest(data: &[u8]) -> (res: Vec<u8>)
    ensures
        res@ == sha256(data@),
        res@.len() == 32,
{
    sha2::Sha256::digest(data).to_vec()
}

/// SHA-1 of `data` (`sha1::Sha1::digest`).
///
/// Trusted: the digest is what `sha1` names and is 20 bytes long.
#[verifier::external_body]
pub(crate) fn sha1_digest(data: &[u8]) -> (res: Vec<u8>)
    ensures
        res@ == sha1(data@),
        res@.len() == 20,
{
    sha1::Sha1::digest(data).to_vec()
}

/// Encrypts one block with AES-128 (`aes::Aes128::encrypt_block`).
///
/// Trusted: the ciphertext is what `aes128_encrypt` names, and decrypting it
/// under the same key gives the block back.
#[verifier::external_body]
pub(crate) fn aes128_encrypt_block(key: &[u8; 16], block: &[u8; 16]) -> (res: [u8; 16])
    ensures
        res@ == aes128_encrypt(key@, block@),
        aes128_decrypt(key@, res@) == block@,
{
    let cipher = aes::Aes128::new(key.into());
    let mut buffer = aes::Block::from(*block);
    cipher.encrypt_block(&mut buffer);
    buffer.into()
}

/// Decrypts one block with AES-128 (`aes::Aes128::decrypt_block`).
///
/// Trusted: the plaintext is what `aes128_decrypt` names.
#[verifier::external_body]
pub(crate) fn aes128_decrypt_block(key: &[u8; 16], block: &[u8; 16]) -> (res: [u8; 16])
    ensures
        res@ == aes128_decrypt(key@, block@),
{
    let cipher = aes::Aes128::new(key.into());
    let mut buffer = aes::Block::from(*block);
    cipher.decrypt_block(&mut buffer);
    buffer.into()
}

/// The digest that a host of the given major version expects: SHA-256 from
/// generation 7 on, SHA-1 before.
pub open spec fn spec_hash_for_server(input: Seq<u8>, server_major_version: u32) -> Seq<u8> {
    if server_major_version >= 7 {
        sha256(input)
    } else {
        sha1(input)
    }
}

/// Length of the digest a host of the given major version expects.
pub open spec fn spec_hash_length(server_major_version: u32) -> nat {
    if server_major_version >= 7 { 32 } else { 20 }
}

/// The digest that the host expects.
pub fn hash_for_server(input: &[u8], server_major_version: u32) -> (res: Vec<u8>)
    ensures
        res@ == spec_hash_for_server(input@, server_major_version),
        res@.len() == spec_hash_length(server_major_version),
{
    if server_major_version >= 7 {
        sha256_digest(input)
    } else {
        sha1_digest(input)
    }
}

/// `data` followed by zeros up to the next multiple of 16 bytes.
pub open spec fn spec_zero_padded(data: Seq<u8>) -> Seq<u8> {
    data + Seq::new(((16 - data.len() % 16) % 16) as nat, |i: int| 0u8)
}

/// AES-128-ECB encryption of `data`, whose length is a multiple of 16.
pub open spec fn spec_ecb_encrypt(key: Seq<u8>, data: Seq<u8>) -> Seq<u8>
    decreases data.len(),
{
    if data.len() < 16 {
        Seq::empty()
    } else {
        aes128_encrypt(key, data.subrange(0, 16)) + spec_ecb_encrypt(key, data.subrange(16, data.len() as int))
    }
}

/// AES-128-ECB decryption of `data`, whose length is a multiple of 16.
pub open spec fn spec_ecb_decrypt(key: Seq<u8>, data: Seq<u8>) -> Seq<u8>
    decreases data.len(),
{
    if data.len() < 16 {
        Seq::empty()
    } else {
        aes128_decrypt(key, data.subrange(0, 16)) + spec_ecb_decrypt(key, data.subrange(16, data.len() as int))
    }
}

proof fn lemma_ecb_encrypt_append(key: Seq<u8>, data: Seq<u8>, block: Seq<u8>)
    requires
        data.len() % 16 == 0,
        block.len() == 16,
    ensures
        spec_ecb_encrypt(key, data + block) == spec_ecb_encrypt(key, data) + aes128_encrypt(key, block),
    decreases data.len(),
{
    let whole = data + block;
    if data.len() < 16 {
        assert(data.len() == 0);
        assert(whole =~= block);
        let tail = whole.subrange(16, whole.len() as int);
        assert(tail.len() == 0);
        assert(spec_ecb_encrypt(key, tail) =~= Seq::<u8>::empty());
        assert(whole.subrange(0, 16) =~= block);
        assert(spec_ecb_encrypt(key, whole) == aes128_encrypt(key, block) + spec_ecb_encrypt(key, tail));
        assert(spec_ecb_encrypt(key, data) =~= Seq::<u8>::empty());
        assert(spec_ecb_encrypt(key, whole) =~= spec_ecb_encrypt(key, data) + aes128_encrypt(key, block));
    } else {
        let rest = data.subrange(16, data.len() as int);
        lemma_ecb_encrypt_append(key, rest, block);
        assert(whole.subrange(0, 16) =~= data.subrange(0, 16));
        assert(whole.subrange(16, whole.len() as int) =~= rest + block);
        assert(spec_ecb_encrypt(key, whole) == aes128_encrypt(key, data.subrange(0, 16)) + spec_ecb_encrypt(
            key,
            rest + block,
        ));
        assert(spec_ecb_encrypt(key, data) == aes128_encrypt(key, data.subrange(0, 16)) + spec_ecb_encrypt(key, rest));
        assert(spec_ecb_encrypt(key, whole) =~= spec_ecb_encrypt(key, data) + aes128_encrypt(key, block));
    }
}

proof fn lemma_ecb_decrypt_append(key: Seq<u8>, data: Seq<u8>, block: Seq<u8>)
    requires
        data.len() % 16 == 0,
        block.len() == 16,
    ensures
        spec_ecb_decrypt(key, data + block) == spec_ecb_decrypt(key, data) + aes128_decrypt(key, block),
    decreases data.len(),
{
    let whole = data + block;
    if data.len() < 16 {
        assert(data.len() == 0);
        assert(whole =~= block);
        let tail = whole.subrange(16, whole.len() as int);
        assert(tail.len() == 0);
        assert(spec_ecb_decrypt(key, tail) =~= Seq::<u8>::empty());
        assert(whole.subrange(0, 16) =~= block);
        assert(spec_ecb_decrypt(key, whole) == aes128_decrypt(key, block) + spec_ecb_decrypt(key, tail));
        assert(spec_ecb_decrypt(key, data) =~= Seq::<u8>::empty());
        assert(spec_ecb_decrypt(key, whole) =~= spec_ecb_decrypt(key, data) + aes128_decrypt(key, block));
    } else {
        let rest = data.subrange(16, data.len() as int);
        lemma_ecb_decrypt_append(key, rest, block);
        assert(whole.subrange(0, 16) =~= data.subrange(0, 16));
        assert(whole.subrange(16, whole.len() as int) =~= rest + block);
        assert(spec_ecb_decrypt(key, whole) == aes128_decrypt(key, data.subrange(0, 16)) + spec_ecb_decrypt(
            key,
            rest + block,
        ));
        assert(spec_ecb_decrypt(key, data) == aes128_decrypt(key, data.subrange(0, 16)) + spec_ecb_decrypt(key, rest));
        assert(spec_ecb_decrypt(key, whole) =~= spec_ecb_decrypt(key, data) + aes128_decrypt(key, block));
    }
}

pub(crate) fn block_at(data: &Vec<u8>, start: usize) -> (res: [u8; 16])
    requires
        start + 16 <= data.len(),
    ensures
        res@ == data@.subrange(start as int, start + 16),
{
    let res: [u8; 16] = [
        data[start],
        data[start + 1],
        data[start + 2],
        data[start + 3],
        data[start + 4],
        data[start + 5],
        data[start + 6],
        data[start + 7],
        data[start + 8],
        data[start + 9],
        data[start + 10],
        data[start + 11],
        data[start + 12],
        data[start + 13],
        data[start + 14],
        data[start + 15],
    ];
    assert(res@ =~= data@.subrange(start as int, start + 16));
    res
}

/// Appends all of `data` to `out`.
pub fn append_bytes(out: &mut Vec<u8>, data: &[u8])
    ensures
        final(out)@ == old(out)@ + data@,
{
    let mut i: usize = 0;
    while i < data.len()
        invariant
            i <= data.len(),
            out@ == old(out)@ + data@.subrange(0, i as int),
        decreases data.len() - i,
    {
        out.push(data[i]);
        i = i + 1;
        assert(out@ =~= old(out)@ + data@.subrange(0, i as int));
    }
    assert(data@.subrange(0, data.len() as int) =~= data@);
}

fn append_block(out: &mut Vec<u8>, block: &[u8; 16])
    ensures
        final(out)@ == old(out)@ + block@,
{
    let mut i: usize = 0;
    while i < 16
        invariant
            i <= 16,
            out@ == old(out)@ + block@.subrange(0, i as int),
        decreases 16 - i,
    {
        out.push(block[i]);
        i = i + 1;
        assert(out@ =~= old(out)@ + block@.subrange(0, i as int));
    }
    assert(block@.subrange(0, 16) =~= block@);
}

/// AES-128-ECB over `data`, whose length is a multiple of 16, encrypting
/// (`encrypt`) or decrypting each block in turn.
fn ecb(key: &[u8; 16], data: &Vec<u8>, encrypt: bool) -> (res: Vec<u8>)
    requires
        data.len() % 16 == 0,
    ensures
        encrypt ==> res@ == spec_ecb_encrypt(key@, data@),
        encrypt ==> spec_ecb_decrypt(key@, res@) == data@,
        !encrypt ==> res@ == spec_ecb_decrypt(key@, data@),
        res@.len() == data@.len(),
{
    let mut out: Vec<u8> = Vec::new();
    let mut start: usize = 0;
    assert(data@.subrange(0, 0) =~= Seq::<u8>::empty());
    while start < data.len()
        invariant
            start <= data.len(),
            start % 16 == 0,
            data.len() % 16 == 0,
            encrypt ==> out@ == spec_ecb_encrypt(key@, data@.subrange(0, start as int)),
            encrypt ==> spec_ecb_decrypt(key@, out@) == data@.subrange(0, start as int),
            out@.len() == start,
            !encrypt ==> out@ == spec_ecb_decrypt(key@, data@.subrange(0, start as int)),
        decreases data.len() - start,
    {
        let block = block_at(data, start);
        proof {
            assert(data@.subrange(0, start + 16) =~= data@.subrange(0, start as int) + block@);
            lemma_ecb_encrypt_append(key@, data@.subrange(0, start as int), block@);
            lemma_ecb_decrypt_append(key@, data@.subrange(0, start as int), block@);
        }
        let processed = if encrypt {
            aes128_encrypt_block(key, &block)
        } else {
            aes128_decrypt_block(key, &block)
        };
        proof {
            lemma_ecb_decrypt_append(key@, out@, processed@);
        }
        append_block(&mut out, &processed);
        start = start + 16;
    }
    assert(data@.subrange(0, data.len() as int) =~= data@);
    out
}

/// Zero-pads `plaintext` to whole blocks and encrypts it with AES-128-ECB;
/// an empty plaintext gives an empty ciphertext.
pub fn aes_encrypt_zero_padded(plaintext: &[u8], key: &[u8; 16]) -> (res: Result<Vec<u8>, ControlError>)
    ensures
        plaintext.len() + 15 <= usize::MAX ==> res is Ok && res->Ok_0@ == spec_ecb_encrypt(
            key@,
            spec_zero_padded(plaintext@),
        ),
        res matches Ok(c) ==> spec_ecb_decrypt(key@, c@) == spec_zero_padded(plaintext@),
        res matches Ok(c) ==> c@.len() == spec_zero_padded(plaintext@).len() && c@.len() % 16 == 0,
        plaintext.len() + 15 > usize::MAX ==> res is Err && res->Err_0 is Crypto,
{
    if plaintext.len() == 0 {
        assert(spec_zero_padded(plaintext@) =~= Seq::<u8>::empty());
        assert(spec_ecb_decrypt(key@, Seq::<u8>::empty()) =~= Seq::<u8>::empty());
        return Ok(Vec::new());
    }
    if plaintext.len() > usize::MAX - 15 {
        return Err(ControlError::Crypto("AES input is too large".to_owned()));
    }
    let mut padded: Vec<u8> = Vec::new();
    let mut i: usize = 0;
    while i < plaintext.len()
        invariant
            i <= plaintext.len(),
            padded@ == plaintext@.subrange(0, i as int),
        decreases plaintext.len() - i,
    {
        padded.push(plaintext[i]);
        i = i + 1;
        assert(padded@ =~= plaintext@.subrange(0, i as int));
    }
    assert(plaintext@.subrange(0, plaintext.len() as int) =~= plaintext@);
    let ghost base = padded@;
    while padded.len() % 16 != 0
        invariant
            base == plaintext@,
            padded@.len() >= base.len(),
            padded@.len() <= base.len() + 15,
            padded@.subrange(0, base.len() as int) == base,
            forall|k: int| base.len() <= k < padded@.len() ==> padded@[k] == 0u8,
            (padded@.len() - base.len()) <= (16 - base.len() % 16) % 16,
            padded@.len() % 16 == (base.len() + (padded@.len() - base.len())) % 16,
        decreases (16 - base.len() % 16) % 16 - (padded@.len() - base.len()),
    {
        padded.push(0);
    }
    assert(padded@ =~= spec_zero_padded(plaintext@));
    Ok(ecb(key, &padded, true))
}

/// Decrypts AES-128-ECB ciphertext, whose length must be a multiple of 16.
pub fn aes_decrypt(ciphertext: &[u8], key: &[u8; 16]) -> (res: Result<Vec<u8>, ControlError>)
    ensures
        ciphertext.len() % 16 == 0 ==> res is Ok && res->Ok_0@ == spec_ecb_decrypt(key@, ciphertext@),
        ciphertext.len() % 16 != 0 ==> res is Err && crate::control::is_crypto_error(
            res->Err_0,
            "AES ciphertext length is not a multiple of 16"@,
        ),
{
    if ciphertext.len() % 16 != 0 {
        return Err(ControlError::Crypto("AES ciphertext length is not a multiple of 16".to_owned()));
    }
    let data = vstd::slice::slice_to_vec(ciphertext);
    Ok(ecb(key, &data, false))
}

} // verus!
