use vstd::prelude::*;
use vstd::arithmetic::power2::pow2;

verus! {

/// The human-readable prefix of the addresses this application shows.
pub const HRP: &'static str = "pb";

/// The SHA-256 digest of a byte string.
pub uninterp spec fn sha256_of(b: Seq<u8>) -> Seq<u8>;

/// The RIPEMD-160 digest of a byte string.
pub uninterp spec fn ripemd160_of(b: Seq<u8>) -> Seq<u8>;

/// The bech32 string (original checksum variant) for a human-readable prefix
/// and a sequence of 5-bit values.
pub uninterp spec fn bech32_of(hrp: Seq<char>, data: Seq<u8>) -> Seq<char>;

/// Bit `k` of `b`, counting from the most significant bit of the first byte;
/// zero past the end.
pub open spec fn bit_at(b: Seq<u8>, k: int) -> nat {
    if 0 <= k < 8 * b.len() {
        ((b[k / 8] as nat) / pow2((7 - k % 8) as nat)) % 2
    } else {
        0
    }
}

/// The `i`-th 5-bit group of `b`, most significant bit first.
pub open spec fn group_at(b: Seq<u8>, i: int) -> nat {
    16 * bit_at(b, 5 * i) + 8 * bit_at(b, 5 * i + 1) + 4 * bit_at(b, 5 * i + 2) + 2 * bit_at(
        b,
        5 * i + 3,
    ) + bit_at(b, 5 * i + 4)
}

/// `b` regrouped into 5-bit values, the last one padded with zero bits.
pub open spec fn base32_of(b: Seq<u8>) -> Seq<u8> {
    Seq::new(((8 * b.len() + 4) / 5) as nat, |i: int| group_at(b, i) as u8)
}

/// Every value fits in 5 bits.
pub open spec fn all_u5(d: Seq<u8>) -> bool {
    forall|i: int| 0 <= i < d.len() ==> d[i] < 32
}

/// A prefix that bech32 accepts: 1 to 83 printable ASCII characters, not
/// both lower and upper case.
pub open spec fn hrp_valid(hrp: Seq<char>) -> bool {
    &&& 1 <= hrp.len() <= 83
    &&& forall|i: int| 0 <= i < hrp.len() ==> 33 <= (#[trigger] hrp[i] as u32) <= 126
    &&& !((exists|i: int| 0 <= i < hrp.len() && 97 <= (#[trigger] hrp[i] as u32) <= 122) && (exists|j: int|
        0 <= j < hrp.len() && 65 <= (#[trigger] hrp[j] as u32) <= 90))
}

#[verifier::external_type_specification]
#[verifier::external_body]
pub struct ExBech32Error(bech32::Error);

/// Relies on sha2's `Sha256::digest`: the SHA-256 digest of the bytes.
#[verifier::external_body]
fn sha256(b: &[u8]) -> (r: [u8; 32])
    ensures
        r@ == sha256_of(b@),
{
    <sha2::Sha256 as sha2::Digest>::digest(b).into()
}

/// Relies on ripemd's `Ripemd160::digest`: the RIPEMD-160 digest of the bytes.
#[verifier::external_body]
fn ripemd160(b: &[u8]) -> (r: [u8; 20])
    ensures
        r@ == ripemd160_of(b@),
{
    <ripemd::Ripemd160 as ripemd::Digest>::digest(b).into()
}

/// Relies on bech32's `ToBase32::to_base32`: the bytes regrouped into 5-bit
/// values, most significant bit first, the last group padded with zero bits.
#[verifier::external_body]
fn to_base32(b: &[u8]) -> (r: Vec<u8>)
    ensures
        r@ == base32_of(b@),
{
    bech32::ToBase32::to_base32(&b).into_iter().map(u8::from).collect()
}

/// Relies on bech32's `encode` with `Variant::Bech32`, after
/// `CheckBase32::check_base32` turns the values into 5-bit ones: it fails
/// exactly when a value exceeds 5 bits or the prefix is not valid.
#[verifier::external_body]
fn encode_bech32(hrp: &str, data: &[u8]) -> (r: Result<String, bech32::Error>)
    ensures
        r is Ok <==> (hrp_valid(hrp@) && all_u5(data@)),
        r matches Ok(s) ==> s@ == bech32_of(hrp@, data@),
{
    let groups: Vec<bech32::u5> = bech32::CheckBase32::check_base32(data)?;
    bech32::encode(hrp, groups, bech32::Variant::Bech32)
}

/// A public-key hash: the RIPEMD-160 digest of the SHA-256 digest of a
/// compressed public key.
pub struct PKH(pub [u8; 20]);

impl Default for PKH {
    fn default() -> (r: PKH)
        ensures
            r.0@ == Seq::new(20, |i: int| 0u8),
    {
        let r = PKH([0; 20]);
        assert(r.0@ =~= Seq::new(20, |i: int| 0u8));
        r
    }
}

/// Every 5-bit group is below 32.
pub proof fn base32_values_fit(b: Seq<u8>)
    ensures
        all_u5(base32_of(b)),
        base32_of(b).len() == (8 * b.len() + 4) / 5,
{
    assert forall|i: int| 0 <= i < base32_of(b).len() implies base32_of(b)[i] < 32 by {
        assert(group_at(b, i) < 32);
    }
}

impl PKH {
    /// The hash as a bech32 address with the prefix `HRP`.
    pub fn to_bech32(&self) -> (r: String)
        ensures
            r@ == bech32_of(HRP@, base32_of(self.0@)),
    {
        let data = to_base32(&self.0);
        proof {
            base32_values_fit(self.0@);
            reveal_strlit("pb");
            assert(hrp_valid(HRP@));
        }
        match encode_bech32(HRP, &data) {
            Ok(s) => s,
            Err(_) => {
                proof {
                    assert(false);
                }
                String::new()
            },
        }
    }
}

/// The public-key hash of a compressed key: RIPEMD-160 of its SHA-256
/// digest.
pub fn get_pkh(key: &[u8; 33]) -> (r: PKH)
    ensures
        r.0@ == ripemd160_of(sha256_of(key@)),
{
    let digest = sha256(key);
    PKH(ripemd160(&digest))
}

} // verus!
