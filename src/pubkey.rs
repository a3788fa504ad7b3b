use vstd::prelude::*;

verus! {

/// A status code reported by the host's cryptographic engine.
#[derive(Debug, Clone, Copy, PartialEq, Eq, Structural)]
pub struct CxError {
    pub code: u32,
}

/// An uncompressed elliptic-curve public key: a format tag, then the 32-byte
/// x and y coordinates.
#[derive(Debug, Clone, Copy)]
pub struct UncompressedPublicKey {
    pub pubkey: [u8; 65],
}

/// The compressed form of a 65-byte uncompressed key: the parity tag (0x03
/// when y is odd, 0x02 when it is even), then the x coordinate.
pub open spec fn compressed_key(k: Seq<u8>) -> Seq<u8> {
    seq![if k[64] % 2 == 1 { 0x03u8 } else { 0x02u8 }] + k.subrange(1, 33)
}

/// Compresses an uncompressed public key to its 33-byte form. The point is
/// not checked to lie on the curve.
pub fn compress_public_key(uncompressed: UncompressedPublicKey) -> (r: [u8; 33])
    ensures
        r@ == compressed_key(uncompressed.pubkey@),
{
    let key = &uncompressed.pubkey;
    let mut compressed: [u8; 33] = [0; 33];
    compressed[0] = if key[64] % 2 == 1 {
        0x03
    } else {
        0x02
    };
    let mut i: usize = 1;
    while i < 33
        invariant
            1 <= i <= 33,
            compressed@.len() == 33,
            compressed@[0] == compressed_key(key@)[0],
            forall|j: int| 1 <= j < i ==> compressed@[j] == key@[j],
        decreases 33 - i,
    {
        compressed[i] = key[i];
        i = i + 1;
    }
    assert(compressed@ =~= compressed_key(key@));
    compressed
}

/// Compresses the public key that the host derived, or passes on the host's
/// error when derivation failed.
pub fn get_pubkey(derived: Result<UncompressedPublicKey, CxError>) -> (r: Result<[u8; 33], CxError>)
    ensures
        match derived {
            Ok(k) => r matches Ok(c) && c@ == compressed_key(k.pubkey@),
            Err(e) => r == Err::<[u8; 33], CxError>(e),
        },
{
    match derived {
        Ok(k) => Ok(compress_public_key(k)),
        Err(e) => Err(e),
    }
}

/// Compression is a function of the key alone, yields 33 bytes, and its tag
/// is 0x02 exactly when the key's last byte is even and 0x03 exactly when it
/// is odd.
pub proof fn compressed_key_tag(k: Seq<u8>)
    requires
        k.len() == 65,
    ensures
        compressed_key(k).len() == 33,
        compressed_key(k)[0] == 0x02 <==> k[64] % 2 == 0,
        compressed_key(k)[0] == 0x03 <==> k[64] % 2 == 1,
        compressed_key(k).subrange(1, 33) == k.subrange(1, 33),
{
    assert(compressed_key(k).subrange(1, 33) =~= k.subrange(1, 33));
}

} // verus!
