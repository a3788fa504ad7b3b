use bech32::FromBase32;
use crypto_helpers::{
    compress_public_key, format_signature, get_pkh, get_pubkey, pending_message, pending_next,
    CxError, PendingEvent, PendingScreen, UncompressedPublicKey, HRP, PKH,
};

const GX: &str = "79be667ef9dcbbac55a06295ce870b07029bfcdb2dce28d959f2815b16f81798";
const GY: &str = "483ada7726a3c4655da4fbfc0e1108a8fd17b448a68554199c47d08ffb10d4b8";
const G_PKH: &str = "751e76e8199196d454941c45d1b3a323f1433bd6";
const G_ADDRESS: &str = "pb1w508d6qejxtdg4y5r3zarvary0c5xw7knnulzy";

fn hex(s: &str) -> Vec<u8> {
    (0..s.len())
        .step_by(2)
        .map(|i| u8::from_str_radix(&s[i..i + 2], 16).unwrap())
        .collect()
}

fn buffer<const K: usize>(bytes: &[u8]) -> ([u8; K], u32, u32) {
    let mut b = [0u8; K];
    b[..bytes.len()].copy_from_slice(bytes);
    (b, bytes.len() as u32, 0)
}

fn der(r: &[u8], s: &[u8]) -> Vec<u8> {
    let mut v = vec![0x30, (4 + r.len() + s.len()) as u8, 0x02, r.len() as u8];
    v.extend_from_slice(r);
    v.push(0x02);
    v.push(s.len() as u8);
    v.extend_from_slice(s);
    v
}

fn generator_key() -> UncompressedPublicKey {
    let mut pubkey = [0u8; 65];
    pubkey[0] = 0x04;
    pubkey[1..33].copy_from_slice(&hex(GX));
    pubkey[33..65].copy_from_slice(&hex(GY));
    UncompressedPublicKey { pubkey }
}

#[test]
fn format_signature_one_byte_components() {
    let sig = buffer::<73>(&der(&[0x01], &[0x02]));
    let out = format_signature(&sig).unwrap();
    let mut expected = [0u8; 64];
    expected[31] = 0x01;
    expected[63] = 0x02;
    assert_eq!(out, expected);
}

#[test]
fn format_signature_full_width_components() {
    let r: Vec<u8> = (0..32).map(|i| 0x80 + i as u8).collect();
    let s: Vec<u8> = (0..32).map(|i| 0x10 + i as u8).collect();
    let mut r_content = vec![0x00];
    r_content.extend_from_slice(&r);
    let sig = buffer::<73>(&der(&r_content, &s));
    let out = format_signature(&sig).unwrap();
    assert_eq!(&out[..32], &r[..]);
    assert_eq!(&out[32..], &s[..]);
}

#[test]
fn format_signature_mixed_lengths() {
    let sig = buffer::<80>(&der(&[0x00, 0x90, 0x01], &[0x7f, 0x00, 0x01, 0x02]));
    let out = format_signature(&sig).unwrap();
    assert!(out[..30].iter().all(|b| *b == 0));
    assert_eq!(&out[30..32], &[0x90, 0x01]);
    assert!(out[32..60].iter().all(|b| *b == 0));
    assert_eq!(&out[60..], &[0x7f, 0x00, 0x01, 0x02]);
}

#[test]
fn format_signature_ignores_bytes_past_length() {
    let mut sig = buffer::<73>(&der(&[0x05], &[0x06]));
    sig.0[8] = 0xaa;
    sig.0[9] = 0xbb;
    let out = format_signature(&sig).unwrap();
    assert_eq!(out[31], 0x05);
    assert_eq!(out[63], 0x06);
}

#[test]
fn format_signature_rejects_truncation() {
    let full = der(&[0x01, 0x02], &[0x03]);
    for n in 0..full.len() {
        let sig = buffer::<73>(&full[..n]);
        assert_eq!(format_signature(&sig), None);
    }
}

#[test]
fn format_signature_rejects_bad_tags() {
    let mut bytes = der(&[0x01], &[0x02]);
    bytes[0] = 0x31;
    assert_eq!(format_signature(&buffer::<73>(&bytes)), None);
    let mut bytes = der(&[0x01], &[0x02]);
    bytes[2] = 0x03;
    assert_eq!(format_signature(&buffer::<73>(&bytes)), None);
    let mut bytes = der(&[0x01], &[0x02]);
    bytes[5] = 0x04;
    assert_eq!(format_signature(&buffer::<73>(&bytes)), None);
}

#[test]
fn format_signature_rejects_non_canonical_integers() {
    // sign bit set
    assert_eq!(format_signature(&buffer::<73>(&der(&[0x80], &[0x01]))), None);
    // needless leading zero
    assert_eq!(format_signature(&buffer::<73>(&der(&[0x00, 0x01], &[0x01]))), None);
    // zero value
    assert_eq!(format_signature(&buffer::<73>(&der(&[0x00], &[0x01]))), None);
    // empty integer
    assert_eq!(format_signature(&buffer::<73>(&der(&[], &[0x01]))), None);
}

#[test]
fn format_signature_rejects_oversized_component() {
    let r = vec![0x11u8; 33];
    assert_eq!(format_signature(&buffer::<80>(&der(&r, &[0x01]))), None);
}

#[test]
fn format_signature_rejects_garbage_and_bad_length() {
    let mut bytes = der(&[0x01], &[0x02]);
    bytes.push(0x00);
    assert_eq!(format_signature(&buffer::<73>(&bytes)), None);
    let mut bytes = der(&[0x01], &[0x02]);
    bytes[1] += 1;
    bytes.push(0x00);
    assert_eq!(format_signature(&buffer::<73>(&bytes)), None);
    let mut sig = buffer::<8>(&der(&[0x01], &[0x02]));
    sig.1 = 9;
    assert_eq!(format_signature(&sig), None);
}

#[test]
fn compress_even_and_odd_keys() {
    let key = generator_key();
    let c = compress_public_key(key);
    assert_eq!(c[0], 0x02);
    assert_eq!(&c[1..], &hex(GX)[..]);
    let mut odd = generator_key();
    odd.pubkey[64] |= 1;
    let c = compress_public_key(odd);
    assert_eq!(c[0], 0x03);
    assert_eq!(&c[1..], &hex(GX)[..]);
    assert_eq!(compress_public_key(odd), compress_public_key(odd));
}

#[test]
fn get_pubkey_passes_errors_on() {
    let e = CxError { code: 0x6982 };
    assert_eq!(get_pubkey(Err(e)), Err(e));
    let c = get_pubkey(Ok(generator_key())).unwrap();
    assert_eq!(c, compress_public_key(generator_key()));
}

#[test]
fn get_pkh_known_vector() {
    let mut key = [0u8; 33];
    key[0] = 0x02;
    key[1..].copy_from_slice(&hex(GX));
    let pkh = get_pkh(&key);
    assert_eq!(pkh.0.to_vec(), hex(G_PKH));
    assert_eq!(get_pkh(&key).0, pkh.0);
}

#[test]
fn bech32_golden_vector_and_decode() {
    let mut h = [0u8; 20];
    h.copy_from_slice(&hex(G_PKH));
    let text = PKH(h).to_bech32();
    assert_eq!(text, G_ADDRESS);
    let (hrp, data, variant) = bech32::decode(&text).unwrap();
    assert_eq!(hrp, HRP);
    assert_eq!(variant, bech32::Variant::Bech32);
    assert_eq!(Vec::<u8>::from_base32(&data).unwrap(), h.to_vec());
}

#[test]
fn default_pkh_is_zero() {
    let pkh = PKH::default();
    assert_eq!(pkh.0, [0u8; 20]);
    assert_eq!(pkh.to_bech32(), "pb1qqqqqqqqqqqqqqqqqqqqqqqqqqqqqqqq6dt62p");
}

#[test]
fn address_end_to_end() {
    // stands for the key that the host derives for [0x80000000, 0x80000000, 0x80000000]
    let derived: Result<UncompressedPublicKey, CxError> = Ok(generator_key());
    let compressed = get_pubkey(derived).unwrap();
    let pkh = get_pkh(&compressed);
    assert_eq!(pkh.to_bech32(), G_ADDRESS);
}

#[test]
fn pending_flow() {
    let mut screen = PendingScreen::Pending;
    assert_eq!(pending_message(screen), Some("Pending"));
    screen = pending_next(screen, PendingEvent::BothButtonsRelease);
    assert_eq!(screen, PendingScreen::Pending);
    screen = pending_next(screen, PendingEvent::RightButtonRelease);
    assert_eq!(screen, PendingScreen::Review);
    assert_eq!(pending_message(screen), Some("Ledger review"));
    screen = pending_next(screen, PendingEvent::RightButtonRelease);
    assert_eq!(screen, PendingScreen::Review);
    screen = pending_next(screen, PendingEvent::Other);
    assert_eq!(screen, PendingScreen::Review);
    screen = pending_next(screen, PendingEvent::BothButtonsRelease);
    assert_eq!(screen, PendingScreen::Done);
    assert_eq!(pending_message(screen), None);
}
