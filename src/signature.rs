use vstd::prelude::*;

verus! {

/// Width of each of the two halves of a compact signature.
pub const COMPONENT_LEN: usize = 32;

/// The content of a DER INTEGER that holds a non-negative value in minimal
/// form: not empty, no sign bit set, and no leading zero byte that is not
/// needed to clear the sign bit.
pub open spec fn der_int_canonical(c: Seq<u8>) -> bool {
    &&& c.len() >= 1
    &&& c[0] < 0x80
    &&& !(c[0] == 0 && c.len() >= 2 && c[1] < 0x80)
}

/// The big-endian magnitude of a canonical DER INTEGER: its content without
/// the zero byte that only clears the sign bit.
pub open spec fn der_int_magnitude(c: Seq<u8>) -> Seq<u8> {
    if c[0] == 0 {
        c.drop_first()
    } else {
        c
    }
}

/// A signature component that fits the curve: canonical, and its magnitude
/// between 1 and 32 bytes long.
pub open spec fn component_ok(c: Seq<u8>) -> bool {
    &&& der_int_canonical(c)
    &&& 1 <= der_int_magnitude(c).len() <= COMPONENT_LEN
}

/// The INTEGER element (tag 0x02, short-form length) that starts at `pos` in
/// `b`: its content bytes and the position just after it.
pub open spec fn der_int_at(b: Seq<u8>, pos: int) -> Option<(Seq<u8>, int)> {
    if 0 <= pos && pos + 2 <= b.len() && b[pos] == 0x02 && b[pos + 1] < 0x80 && pos + 2
        + b[pos + 1] <= b.len() {
        let end = pos + 2 + b[pos + 1];
        Some((b.subrange(pos + 2, end), end))
    } else {
        None
    }
}

/// The `r` and `s` magnitudes of a DER-encoded ECDSA signature: a SEQUENCE
/// that spans all of `b` and holds exactly two INTEGERs, each of them
/// canonical with a magnitude of 1 to 32 bytes. `None` for anything else.
///
/// Only short-form lengths occur: with both magnitudes at most 32 bytes long
/// every length is below 0x80, and DER forbids the long form there.
pub open spec fn der_signature(b: Seq<u8>) -> Option<(Seq<u8>, Seq<u8>)> {
    if b.len() >= 2 && b[0] == 0x30 && b[1] < 0x80 && b[1] + 2 == b.len() {
        match der_int_at(b, 2) {
            Some((rc, p)) => match der_int_at(b, p) {
                Some((sc, q)) => {
                    if q == b.len() && component_ok(rc) && component_ok(sc) {
                        Some((der_int_magnitude(rc), der_int_magnitude(sc)))
                    } else {
                        None
                    }
                },
                None => None,
            },
            None => None,
        }
    } else {
        None
    }
}

/// `v` right-aligned in 32 bytes, the leading bytes zero.
pub open spec fn left_pad(v: Seq<u8>) -> Seq<u8> {
    Seq::new((COMPONENT_LEN - v.len()) as nat, |i: int| 0u8) + v
}

/// The compact form of a signature: `r` then `s`, each left-padded to 32
/// bytes.
pub open spec fn compact_signature(r: Seq<u8>, s: Seq<u8>) -> Seq<u8> {
    left_pad(r) + left_pad(s)
}

/// What a signature buffer stands for: its first `length` bytes, or `None`
/// when `length` exceeds the buffer.
pub open spec fn signature_bytes<const K: usize>(sig: ([u8; K], u32, u32)) -> Option<Seq<u8>> {
    if sig.1 <= K {
        Some(sig.0@.subrange(0, sig.1 as int))
    } else {
        None
    }
}

/// What `format_signature` returns for a signature buffer.
pub open spec fn formatted<const K: usize>(sig: ([u8; K], u32, u32)) -> Option<Seq<u8>> {
    match signature_bytes(sig) {
        Some(b) => match der_signature(b) {
            Some((r, s)) => Some(compact_signature(r, s)),
            None => None,
        },
        None => None,
    }
}

/// Reads the INTEGER that starts at `pos` in the first `n` bytes of `b`.
/// Returns where its magnitude starts, how long it is, and where the element
/// ends.
fn read_integer<const K: usize>(b: &[u8; K], n: usize, pos: usize) -> (r: Option<
    (usize, usize, usize),
>)
    requires
        n <= K,
        pos <= n,
    ensures
        ({
            let p = b@.subrange(0, n as int);
            match r {
                Some((start, len, next)) => {
                    &&& der_int_at(p, pos as int) matches Some((c, e))
                    &&& e == next
                    &&& component_ok(c)
                    &&& start + len <= n
                    &&& b@.subrange(start as int, start + len) == der_int_magnitude(c)
                },
                None => !(der_int_at(p, pos as int) matches Some((c, e)) && component_ok(c)),
            }
        }),
{
    let ghost p = b@.subrange(0, n as int);
    if n - pos < 2 || b[pos] != 0x02 || b[pos + 1] >= 0x80 {
        return None;
    }
    let clen = b[pos + 1] as usize;
    if n - pos - 2 < clen {
        return None;
    }
    let start = pos + 2;
    let end = start + clen;
    let ghost c = p.subrange(start as int, end as int);
    assert(der_int_at(p, pos as int) == Some((c, end as int)));
    if clen == 0 || b[start] >= 0x80 {
        return None;
    }
    if b[start] == 0 && clen >= 2 && b[start + 1] < 0x80 {
        return None;
    }
    let (mstart, mlen) = if b[start] == 0 {
        (start + 1, clen - 1)
    } else {
        (start, clen)
    };
    assert(b@.subrange(mstart as int, mstart + mlen) =~= der_int_magnitude(c));
    if mlen == 0 || mlen > COMPONENT_LEN {
        return None;
    }
    Some((mstart, mlen, end))
}

/// Copies `b[start..start + len]` into `out`, right-aligned in the 32 bytes
/// that begin at `at`.
fn place_component<const K: usize>(out: &mut [u8; 64], at: usize, b: &[u8; K], start: usize, len: usize)
    requires
        at == 0 || at == COMPONENT_LEN,
        1 <= len <= COMPONENT_LEN,
        start + len <= K,
    ensures
        final(out)@ == old(out)@.subrange(0, at as int) + old(out)@.subrange(
            at as int,
            at + COMPONENT_LEN - len,
        ) + b@.subrange(start as int, start + len) + old(out)@.subrange(
            at + COMPONENT_LEN,
            64,
        ),
{
    let ghost o = out@;
    let first = at + (COMPONENT_LEN - len);
    let mut i: usize = 0;
    while i < len
        invariant
            i <= len,
            first == at + (COMPONENT_LEN - len),
            at == 0 || at == COMPONENT_LEN,
            1 <= len <= COMPONENT_LEN,
            start + len <= K,
            out@.len() == 64,
            o.len() == 64,
            forall|j: int| 0 <= j < first ==> out@[j] == o[j],
            forall|j: int| first + i <= j < 64 ==> out@[j] == o[j],
            forall|j: int| first <= j < first + i ==> out@[j] == b@[start + (j - first)],
        decreases len - i,
    {
        out[first + i] = b[start + i];
        i = i + 1;
    }
    assert(out@ =~= o.subrange(0, at as int) + o.subrange(at as int, at + COMPONENT_LEN - len)
        + b@.subrange(start as int, start + len) + o.subrange(at + COMPONENT_LEN, 64));
}

/// Repacks a DER-encoded ECDSA signature into its 64-byte compact form.
///
/// `sig` holds a buffer, the length of the signature at its start, and a
/// third value that is not read. The result is `r` in the first 32 bytes and
/// `s` in the last 32, each big-endian and right-aligned with zero bytes
/// before it. It is `None` when the length exceeds the buffer or the bytes are
/// not a DER signature whose two components are 1 to 32 bytes long.
pub fn format_signature<const K: usize>(sig: &([u8; K], u32, u32)) -> (r: Option<[u8; 64]>)
    ensures
        match r {
            Some(out) => formatted(*sig) == Some(out@),
            None => formatted(*sig) is None,
        },
{
    let signature = &sig.0;
    if sig.1 as usize > K {
        return None;
    }
    let n = sig.1 as usize;
    let ghost b = signature@.subrange(0, n as int);
    assert(signature_bytes(*sig) == Some(b));
    if n < 2 || signature[0] != 0x30 || signature[1] >= 0x80 || signature[1] as usize + 2 != n {
        return None;
    }
    let (rs, rl, p) = match read_integer(signature, n, 2) {
        Some(t) => t,
        None => return None,
    };
    let (ss, sl, q) = match read_integer(signature, n, p) {
        Some(t) => t,
        None => return None,
    };
    if q != n {
        return None;
    }
    let mut out: [u8; 64] = [0; 64];
    place_component(&mut out, 0, signature, rs, rl);
    place_component(&mut out, COMPONENT_LEN, signature, ss, sl);
    proof {
        let (r, s) = der_signature(b).unwrap();
        assert(out@ =~= compact_signature(r, s));
    }
    Some(out)
}

/// For every signature that decodes, both components are 1 to 32 bytes long
/// and the compact form is 64 bytes: its first `32 - r.len()` bytes are zero
/// and the rest of the first half is `r`; bytes `32` up to `64 - s.len()` are
/// zero and the rest is `s`.
pub proof fn compact_layout(b: Seq<u8>)
    requires
        der_signature(b) is Some,
    ensures
        ({
            let (r, s) = der_signature(b)->Some_0;
            let c = compact_signature(r, s);
            &&& 1 <= r.len() <= COMPONENT_LEN
            &&& 1 <= s.len() <= COMPONENT_LEN
            &&& c.len() == 64
            &&& forall|i: int| 0 <= i < COMPONENT_LEN - r.len() ==> c[i] == 0
            &&& c.subrange(COMPONENT_LEN - r.len(), COMPONENT_LEN as int) == r
            &&& forall|i: int| COMPONENT_LEN <= i < 64 - s.len() ==> c[i] == 0
            &&& c.subrange(64 - s.len(), 64) == s
        }),
{
    let (r, s) = der_signature(b)->Some_0;
    let c = compact_signature(r, s);
    assert(c.subrange(COMPONENT_LEN - r.len(), COMPONENT_LEN as int) =~= r);
    assert(c.subrange(64 - s.len(), 64) =~= s);
}

/// A signature cut short anywhere no longer decodes.
pub proof fn truncated_signature_rejected(b: Seq<u8>, n: int)
    requires
        der_signature(b) is Some,
        0 <= n < b.len(),
    ensures
        der_signature(b.subrange(0, n)) is None,
{
}

/// Bytes that do not open with the SEQUENCE tag, or whose first element does
/// not carry the INTEGER tag, do not decode.
pub proof fn invalid_tag_rejected(b: Seq<u8>)
    requires
        b.len() < 3 || b[0] != 0x30 || b[2] != 0x02,
    ensures
        der_signature(b) is None,
{
}

} // verus!
