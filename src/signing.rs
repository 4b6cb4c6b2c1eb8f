//! The canonical text that a chat signature covers, and signing and
//! verifying over it.

use base64::Engine;
use vstd::prelude::*;
use vstd::utf8::{decode_utf8, encode_utf8, encode_utf8_decode_utf8, valid_utf8};

verus! {

/// ASCII digits of `n` in base ten, most significant first, no leading zeros.
pub open spec fn decimal(n: nat) -> Seq<u8>
    decreases n,
{
    if n < 10 {
        seq![(48 + n) as u8]
    } else {
        decimal(n / 10).push((48 + n % 10) as u8)
    }
}

/// The bytes a chat signature covers: the UTF-8 of `"{body};{timestamp}"`.
pub open spec fn canonical_text(body: Seq<char>, timestamp: u64) -> Seq<u8> {
    encode_utf8(body) + seq![59u8] + decimal(timestamp as nat)
}

proof fn lemma_decimal_digits(n: nat)
    ensures
        decimal(n).len() >= 1,
        n >= 10 ==> decimal(n).len() >= 2,
        forall|i: int| 0 <= i < decimal(n).len() ==> 48 <= #[trigger] decimal(n)[i] <= 57,
    decreases n,
{
    if n >= 10 {
        lemma_decimal_digits(n / 10);
        let d = decimal(n / 10);
        assert forall|i: int| 0 <= i < decimal(n).len() implies 48 <= #[trigger] decimal(n)[i]
            <= 57 by {
            if i < d.len() {
                assert(decimal(n)[i] == d[i]);
            }
        }
    }
}

proof fn lemma_decimal_injective(a: nat, b: nat)
    requires
        decimal(a) == decimal(b),
    ensures
        a == b,
    decreases a,
{
    lemma_decimal_digits(a);
    lemma_decimal_digits(b);
    if a >= 10 && b >= 10 {
        let da = decimal(a / 10);
        let db = decimal(b / 10);
        assert(da == decimal(a).drop_last());
        assert(db == decimal(b).drop_last());
        lemma_decimal_injective(a / 10, b / 10);
        assert(decimal(a).last() == decimal(b).last());
        assert(decimal(a).last() == (48 + a % 10) as u8);
        assert(decimal(b).last() == (48 + b % 10) as u8);
        assert(0 <= a % 10 < 10 && 0 <= b % 10 < 10);
        assert(a % 10 == b % 10);
        assert(a == (a / 10) * 10 + a % 10);
        assert(b == (b / 10) * 10 + b % 10);
    } else if a < 10 && b < 10 {
        assert(decimal(a)[0] == (48 + a) as u8);
        assert(decimal(b)[0] == (48 + b) as u8);
        assert(decimal(a)[0] == decimal(b)[0]);
    } else {
        assert(decimal(a).len() != decimal(b).len());
    }
}

/// The signed text binds both of its parts: two (body, timestamp) pairs with
/// the same canonical text are the same pair, so a signature made over one
/// pair's text is never checked against another pair's text.
pub proof fn lemma_canonical_text_binds(b1: Seq<char>, t1: u64, b2: Seq<char>, t2: u64)
    requires
        canonical_text(b1, t1) == canonical_text(b2, t2),
    ensures
        b1 == b2,
        t1 == t2,
{
    let e1 = encode_utf8(b1);
    let e2 = encode_utf8(b2);
    let d1 = decimal(t1 as nat);
    let d2 = decimal(t2 as nat);
    let x = canonical_text(b1, t1);
    lemma_decimal_digits(t1 as nat);
    lemma_decimal_digits(t2 as nat);
    assert(x == e1 + seq![59u8] + d1);
    assert(x == e2 + seq![59u8] + d2);
    if d1.len() < d2.len() {
        let i = x.len() - 1 - d1.len();
        assert(x[i] == 59u8);
        assert(x[i] == d2[i - e2.len() - 1]);
    } else if d2.len() < d1.len() {
        let i = x.len() - 1 - d2.len();
        assert(x[i] == 59u8);
        assert(x[i] == d1[i - e1.len() - 1]);
    }
    assert(d1 == x.subrange(x.len() - d1.len(), x.len() as int));
    assert(d2 == x.subrange(x.len() - d2.len(), x.len() as int));
    assert(e1 == x.subrange(0, e1.len() as int));
    assert(e2 == x.subrange(0, e2.len() as int));
    lemma_decimal_injective(t1 as nat, t2 as nat);
    encode_utf8_decode_utf8(b1);
    encode_utf8_decode_utf8(b2);
}

fn push_decimal(out: &mut Vec<u8>, n: u64)
    ensures
        final(out)@ == old(out)@ + decimal(n as nat),
    decreases n,
{
    if n >= 10 {
        push_decimal(out, n / 10);
    }
    let digit: u8 = (n % 10) as u8;
    out.push(48 + digit);
    proof {
        if n >= 10 {
            assert(decimal(n as nat) == decimal((n / 10) as nat).push((48 + n % 10) as u8));
        }
    }
}

/// The canonical signing text of a message body and its timestamp.
pub fn canonical_bytes(body: &str, timestamp: u64) -> (r: Vec<u8>)
    ensures
        r@ == canonical_text(body@, timestamp),
{
    let bytes = body.as_bytes();
    let mut out: Vec<u8> = Vec::new();
    let mut i: usize = 0;
    while i < bytes.len()
        invariant
            bytes@ == encode_utf8(body@),
            i <= bytes@.len(),
            out@ == bytes@.subrange(0, i as int),
        decreases bytes@.len() - i,
    {
        out.push(bytes[i]);
        i = i + 1;
    }
    assert(out@ == encode_utf8(body@));
    out.push(59u8);
    push_decimal(&mut out, timestamp);
    out
}


/// The base64 digit for `v < 64` in the standard alphabet
/// `A-Z a-z 0-9 + /`.
pub open spec fn base64_digit(v: int) -> char {
    if v < 26 {
        ((65 + v) as u8) as char
    } else if v < 52 {
        ((71 + v) as u8) as char
    } else if v < 62 {
        ((v - 4) as u8) as char
    } else if v == 62 {
        '+'
    } else {
        '/'
    }
}

/// Standard base64 with padding: each three bytes become four digits; a
/// last group of one or two bytes becomes two or three digits and `=` pads
/// it to four.
pub open spec fn base64_text(b: Seq<u8>) -> Seq<char>
    decreases b.len(),
{
    if b.len() == 0 {
        Seq::empty()
    } else {
        let x = b[0] as int;
        let y = if b.len() > 1 { b[1] as int } else { 0 };
        let z = if b.len() > 2 { b[2] as int } else { 0 };
        let d0 = base64_digit(x / 4);
        let d1 = base64_digit((x % 4) * 16 + y / 16);
        let d2 = base64_digit((y % 16) * 4 + z / 64);
        let d3 = base64_digit(z % 64);
        if b.len() == 1 {
            seq![d0, d1, '=', '=']
        } else if b.len() == 2 {
            seq![d0, d1, d2, '=']
        } else {
            seq![d0, d1, d2, d3] + base64_text(b.skip(3))
        }
    }
}

/// The SHA-256 RSA signature that openssl makes over `msg` with the private
/// key held in the PEM text `private_pem`, if it reads that key and signs.
pub uninterp spec fn rsa_sha256_signature(private_pem: Seq<u8>, msg: Seq<u8>) -> Option<Seq<u8>>;

/// Whether openssl reads `public_pem` as a public key and accepts `sig` as
/// its SHA-256 signature over `msg`.
pub uninterp spec fn rsa_sha256_accepts(public_pem: Seq<u8>, msg: Seq<u8>, sig: Seq<u8>) -> bool;

/// The public key PEM that openssl writes for the RSA private key in
/// `private_pem`, if it reads that key.
pub uninterp spec fn public_pem_of(private_pem: Seq<u8>) -> Option<Seq<u8>>;

/// The public key PEM that openssl writes back after reading `pem` as a
/// public key, if it reads it.
pub uninterp spec fn reencoded_public_pem(pem: Seq<u8>) -> Option<Seq<u8>>;

/// The SHA-1 digest of `b`.
pub uninterp spec fn sha1_digest(b: Seq<u8>) -> Seq<u8>;

pub open spec fn bytes_view(o: Option<Vec<u8>>) -> Option<Seq<u8>> {
    match o {
        Some(v) => Some(v@),
        None => None,
    }
}

pub open spec fn text_view(o: Option<String>) -> Option<Seq<char>> {
    match o {
        Some(s) => Some(s@),
        None => None,
    }
}

/// Relies on base64's `STANDARD.encode`: the standard alphabet, padded.
#[verifier::external_body]
fn base64_encode(b: &[u8]) -> (r: String)
    ensures
        r@ == base64_text(b@),
{
    base64::engine::general_purpose::STANDARD.encode(b)
}

proof fn lemma_base64_digit(v: int, w: int)
    requires
        0 <= v < 64,
        0 <= w < 64,
    ensures
        base64_digit(v) != '=',
        base64_digit(v) == base64_digit(w) ==> v == w,
{
}

proof fn lemma_base64_group(x: int, y: int, z: int, x2: int, y2: int, z2: int)
    requires
        0 <= x < 256,
        0 <= y < 256,
        0 <= z < 256,
        0 <= x2 < 256,
        0 <= y2 < 256,
        0 <= z2 < 256,
        x / 4 == x2 / 4,
        (x % 4) * 16 + y / 16 == (x2 % 4) * 16 + y2 / 16,
        (y % 16) * 4 + z / 64 == (y2 % 16) * 4 + z2 / 64,
        z % 64 == z2 % 64,
    ensures
        x == x2 && y == y2 && z == z2,
{
}

/// Standard base64 text determines its bytes.
proof fn lemma_base64_injective(a: Seq<u8>, b: Seq<u8>)
    requires
        base64_text(a) == base64_text(b),
    ensures
        a == b,
    decreases a.len(),
{
    if a.len() > 0 && b.len() > 0 {
        let (x, y, z) = (a[0] as int, if a.len() > 1 { a[1] as int } else { 0 }, if a.len() > 2 {
            a[2] as int
        } else {
            0
        });
        let (x2, y2, z2) = (b[0] as int, if b.len() > 1 { b[1] as int } else { 0 }, if b.len()
            > 2 {
            b[2] as int
        } else {
            0
        });
        let t = base64_text(a);
        lemma_base64_digit(x / 4, x2 / 4);
        lemma_base64_digit((x % 4) * 16 + y / 16, (x2 % 4) * 16 + y2 / 16);
        lemma_base64_digit((y % 16) * 4 + z / 64, (y2 % 16) * 4 + z2 / 64);
        lemma_base64_digit(z % 64, z2 % 64);
        assert(t[0] == base64_digit(x / 4) && t[0] == base64_digit(x2 / 4));
        assert(t[1] == base64_digit((x % 4) * 16 + y / 16));
        assert(t[1] == base64_digit((x2 % 4) * 16 + y2 / 16));
        // the padding tells the length of the last group
        assert((a.len() == 1) == (b.len() == 1)) by {
            if a.len() == 1 && b.len() > 1 {
                assert(t[2] == '=');
            }
            if b.len() == 1 && a.len() > 1 {
                assert(t[2] == '=');
            }
        }
        assert((a.len() == 2) == (b.len() == 2)) by {
            if a.len() == 2 && b.len() > 2 {
                assert(t[3] == '=');
            }
            if b.len() == 2 && a.len() > 2 {
                assert(t[3] == '=');
            }
        }
        if a.len() > 1 {
            assert(t[2] == base64_digit((y % 16) * 4 + z / 64));
            assert(t[2] == base64_digit((y2 % 16) * 4 + z2 / 64));
        }
        if a.len() > 2 {
            assert(t[3] == base64_digit(z % 64) && t[3] == base64_digit(z2 % 64));
        }
        lemma_base64_group(x, y, z, x2, y2, z2);
        if a.len() > 2 {
            assert(base64_text(a.skip(3)) == t.skip(4));
            assert(base64_text(b.skip(3)) == t.skip(4));
            lemma_base64_injective(a.skip(3), b.skip(3));
            assert(a == a.take(3) + a.skip(3));
            assert(b == b.take(3) + b.skip(3));
        }
        assert(a =~= b);
    } else if a.len() > 0 {
        assert(base64_text(a).len() > 0);
    } else if b.len() > 0 {
        assert(base64_text(b).len() > 0);
    }
}

/// Relies on base64's `STANDARD.decode`: it requires canonical padding and
/// no trailing bits, so it accepts exactly the texts that `STANDARD.encode`
/// writes, and gives back the bytes they encode.
#[verifier::external_body]
fn base64_decode(s: &str) -> (r: Option<Vec<u8>>)
    ensures
        match r {
            Some(b) => base64_text(b@) == s@,
            None => forall|b: Seq<u8>| base64_text(b) != s@,
        },
{
    base64::engine::general_purpose::STANDARD.decode(s).ok()
}

/// Relies on openssl's `Rsa::private_key_from_pem_passphrase` (with an empty
/// passphrase, so that an encrypted key is refused rather than prompted
/// for), `PKey::from_rsa`, and a `Signer` with `MessageDigest::sha256`
/// (`new`, `update`, `sign_to_vec`).
#[verifier::external_body]
fn rsa_sign(private_pem: &[u8], msg: &[u8]) -> (r: Option<Vec<u8>>)
    ensures
        bytes_view(r) == rsa_sha256_signature(private_pem@, msg@),
{
    let rsa = openssl::rsa::Rsa::private_key_from_pem_passphrase(private_pem, b"").ok()?;
    let key = openssl::pkey::PKey::from_rsa(rsa).ok()?;
    let digest = openssl::hash::MessageDigest::sha256();
    let mut signer = openssl::sign::Signer::new(digest, &key).ok()?;
    signer.update(msg).ok()?;
    signer.sign_to_vec().ok()
}

/// Relies on openssl's `PKey::public_key_from_pem_passphrase` (with an empty
/// passphrase, so nothing is prompted for) and a `Verifier` with
/// `MessageDigest::sha256` (`new`, `update`, `verify`); any error reads as a
/// rejection.
#[verifier::external_body]
fn rsa_verify(public_pem: &[u8], msg: &[u8], sig: &[u8]) -> (r: bool)
    ensures
        r == rsa_sha256_accepts(public_pem@, msg@, sig@),
{
    let key = match openssl::pkey::PKey::public_key_from_pem_passphrase(public_pem, b"") {
        Ok(key) => key,
        Err(_) => return false,
    };
    let digest = openssl::hash::MessageDigest::sha256();
    let mut verifier = match openssl::sign::Verifier::new(digest, &key) {
        Ok(verifier) => verifier,
        Err(_) => return false,
    };
    verifier.update(msg).is_ok() && verifier.verify(sig).unwrap_or(false)
}

/// Relies on openssl's `Rsa::private_key_from_pem_passphrase` (with an empty
/// passphrase, so that an encrypted key is refused rather than prompted
/// for) and `Rsa::public_key_to_pem`.
#[verifier::external_body]
pub(crate) fn public_pem_from_private(private_pem: &[u8]) -> (r: Option<Vec<u8>>)
    ensures
        bytes_view(r) == public_pem_of(private_pem@),
{
    let rsa = openssl::rsa::Rsa::private_key_from_pem_passphrase(private_pem, b"").ok()?;
    rsa.public_key_to_pem().ok()
}

/// Relies on openssl's `PKey::public_key_from_pem_passphrase` (with an empty
/// passphrase, so nothing is prompted for) and `PKey::public_key_to_pem`.
#[verifier::external_body]
pub(crate) fn reencode_public_pem(pem: &[u8]) -> (r: Option<Vec<u8>>)
    ensures
        bytes_view(r) == reencoded_public_pem(pem@),
{
    let key = openssl::pkey::PKey::public_key_from_pem_passphrase(pem, b"").ok()?;
    key.public_key_to_pem().ok()
}

/// Relies on openssl's `sha::sha1`, whose digest has twenty bytes.
#[verifier::external_body]
fn sha1(b: &[u8]) -> (r: Vec<u8>)
    ensures
        r@ == sha1_digest(b@),
        r@.len() == 20,
{
    openssl::sha::sha1(b).to_vec()
}

/// Relies on openssl's `Rsa::generate` (2048 bits) and
/// `Rsa::private_key_to_pem`. The key is random; what holds of every key made
/// is that openssl reads it back (unencrypted PEM) and writes its public half
/// as a PEM, which is ASCII text.
#[verifier::external_body]
pub(crate) fn generate_private_pem() -> (r: Option<Vec<u8>>)
    ensures
        r matches Some(p) ==> public_pem_of(p@) matches Some(q) && valid_utf8(q),
{
    let rsa = openssl::rsa::Rsa::generate(2048).ok()?;
    rsa.private_key_to_pem().ok()
}

/// Relies on std's `String::from_utf8`: it accepts exactly the valid UTF-8
/// byte strings, and the text is what they encode.
#[verifier::external_body]
pub(crate) fn string_from_utf8(v: Vec<u8>) -> (r: Option<String>)
    ensures
        r is Some <==> valid_utf8(v@),
        r matches Some(s) ==> s@ == decode_utf8(v@),
{
    String::from_utf8(v).ok()
}

/// The lower-case hexadecimal digit for `v < 16`.
pub open spec fn hex_digit(v: u8) -> char {
    if v < 10 {
        ((48 + v) as u8) as char
    } else {
        ((87 + v) as u8) as char
    }
}

/// Two lower-case hexadecimal digits for each byte, high nibble first.
pub open spec fn hex_text(b: Seq<u8>) -> Seq<char> {
    Seq::new(
        2 * b.len(),
        |i: int|
            if i % 2 == 0 {
                hex_digit(b[i / 2] / 16)
            } else {
                hex_digit(b[i / 2] % 16)
            },
    )
}

/// Relies on hex's `encode`: two lower-case digits per byte, high nibble first.
#[verifier::external_body]
fn hex_encode(b: &[u8]) -> (r: String)
    ensures
        r@ == hex_text(b@),
{
    hex::encode(b)
}

/// What a signature over `body` and `timestamp` made with `private_pem`
/// reads as on the wire: base64 of the RSA signature.
pub open spec fn signature_text(private_pem: Seq<u8>, body: Seq<char>, timestamp: u64) -> Option<
    Seq<char>,
> {
    match rsa_sha256_signature(private_pem, canonical_text(body, timestamp)) {
        Some(sig) => Some(base64_text(sig)),
        None => None,
    }
}

/// Whether `signature` is a base64 text whose bytes openssl accepts as the
/// signature by `public_pem` over the canonical text of `body` and `timestamp`.
pub open spec fn signature_matches(
    public_pem: Seq<u8>,
    body: Seq<char>,
    timestamp: u64,
    signature: Seq<char>,
) -> bool {
    exists|sig: Seq<u8>|
        base64_text(sig) == signature && rsa_sha256_accepts(
            public_pem,
            canonical_text(body, timestamp),
            sig,
        )
}

/// Signing and verifying agree on what is signed: when openssl accepts, under
/// `public_pem`, the RSA signature that `private_pem` makes over the canonical
/// text, the base64 signature text that `sign` gives passes `verify`.
pub proof fn lemma_sign_then_verify(
    private_pem: Seq<u8>,
    public_pem: Seq<u8>,
    body: Seq<char>,
    timestamp: u64,
)
    requires
        rsa_sha256_signature(private_pem, canonical_text(body, timestamp)) matches Some(sig)
            && rsa_sha256_accepts(public_pem, canonical_text(body, timestamp), sig),
    ensures
        signature_text(private_pem, body, timestamp) matches Some(t) && signature_matches(
            public_pem,
            body,
            timestamp,
            t,
        ),
{
    let sig = rsa_sha256_signature(private_pem, canonical_text(body, timestamp))->0;
    assert(base64_text(sig) == signature_text(private_pem, body, timestamp)->0);
}

/// The short display fingerprint of a public key: the first six hexadecimal
/// digits of the SHA-1 digest of its PEM.
pub open spec fn fingerprint(public_pem: Seq<u8>) -> Seq<char> {
    hex_text(sha1_digest(public_pem).subrange(0, 3))
}

/// Signs the canonical text of `body` and `timestamp` with the private key
/// in `private_pem`, and gives the signature as base64.
pub fn sign(private_pem: &[u8], body: &str, timestamp: u64) -> (r: Option<String>)
    ensures
        text_view(r) == signature_text(private_pem@, body@, timestamp),
{
    let msg = canonical_bytes(body, timestamp);
    match rsa_sign(private_pem, msg.as_slice()) {
        Some(sig) => Some(base64_encode(sig.as_slice())),
        None => None,
    }
}

/// Checks a base64 signature over the canonical text of `body` and
/// `timestamp` against the public key in `public_pem`. Text that is not
/// base64 is rejected, never an error.
pub fn verify(public_pem: &[u8], body: &str, timestamp: u64, signature: &str) -> (r: bool)
    ensures
        r == signature_matches(public_pem@, body@, timestamp, signature@),
{
    let msg = canonical_bytes(body, timestamp);
    match base64_decode(signature) {
        Some(sig) => {
            let ok = rsa_verify(public_pem, msg.as_slice(), sig.as_slice());
            proof {
                if !ok {
                    assert forall|other: Seq<u8>| base64_text(other) == signature@ implies !rsa_sha256_accepts(
                        public_pem@,
                        msg@,
                        other,
                    ) by {
                        lemma_base64_injective(other, sig@);
                    }
                }
            }
            ok
        },
        None => false,
    }
}

/// The display fingerprint of the public key in `public_pem`.
pub fn public_key_fingerprint(public_pem: &[u8]) -> (r: String)
    ensures
        r@ == fingerprint(public_pem@),
        r@.len() == 6,
{
    let digest = sha1(public_pem);
    let mut head: Vec<u8> = Vec::new();
    head.push(digest[0]);
    head.push(digest[1]);
    head.push(digest[2]);
    assert(head@ == digest@.subrange(0, 3));
    hex_encode(head.as_slice())
}

} // verus!
