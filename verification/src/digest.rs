//! SHA-256 digests of plugin artifacts.

use sha2::{Digest, Sha256};
use vstd::prelude::*;

use crate::error::{failure, invalid, ErrorView, PluginError, PluginErrorKind};
use crate::text::{self, after, concat3, eq_ignore_ascii_case, has_prefix, trim, trimmed};

verus! {

/// What `sha2::Sha256::digest` gives for a sequence of bytes.
pub uninterp spec fn sha256_of(bytes: Seq<u8>) -> Seq<u8>;

/// Hashes bytes with `sha2::Sha256::digest`. The digest is named by the bytes and
/// has 32 bytes.
#[verifier::external_body]
fn sha256(bytes: &Vec<u8>) -> (r: Vec<u8>)
    ensures
        r@ == sha256_of(bytes@),
        r@.len() == 32,
{
    Sha256::digest(bytes).to_vec()
}

/// The lower-case hexadecimal digit of a value below sixteen.
pub open spec fn hex_char(value: int) -> char {
    if value < 10 {
        (48 + value) as char
    } else {
        (87 + value) as char
    }
}

/// Bytes in hexadecimal: two digits for each, the higher one first.
pub open spec fn hex_text(bytes: Seq<u8>) -> Seq<char> {
    Seq::new(
        2 * bytes.len(),
        |i: int|
            if i % 2 == 0 {
                hex_char(bytes[i / 2] as int / 16)
            } else {
                hex_char(bytes[i / 2] as int % 16)
            },
    )
}

/// The digest that a manifest declares, without a leading algorithm name.
pub open spec fn declared_digest(declared: Seq<char>) -> Seq<char> {
    if has_prefix(trimmed(declared), "sha256:"@) {
        after(trimmed(declared), "sha256:"@.len())
    } else {
        trimmed(declared)
    }
}

/// Whether bytes have the digest that a manifest declares, in either letter case.
pub open spec fn digest_matches(digest: Seq<u8>, declared: Seq<char>) -> bool {
    text::same_ignoring_case(hex_text(digest), declared_digest(declared))
}

/// The problem of an artifact with the digest that a manifest declares for it;
/// `contents` are its bytes, or why they could not be read.
pub open spec fn digest_problem(
    path: Seq<char>,
    contents: Result<Seq<u8>, Seq<char>>,
    declared: Seq<char>,
) -> Option<ErrorView> {
    match contents {
        Err(e) => Some(
            (PluginErrorKind::Internal, "failed to read '"@ + path + "': "@ + e),
        ),
        Ok(bytes) => mismatch_problem(path, sha256_of(bytes), declared),
    }
}

/// The problem of an artifact whose digest is known.
pub open spec fn mismatch_problem(path: Seq<char>, digest: Seq<u8>, declared: Seq<char>) -> Option<
    ErrorView,
> {
    if digest_matches(digest, declared) {
        None
    } else {
        invalid("native plugin library '"@ + path + "' sha256 mismatch"@)
    }
}

/// The hexadecimal digit of a value below sixteen.
fn hex_digit(value: u8) -> (r: &'static str)
    requires
        value < 16,
    ensures
        r@ == seq![hex_char(value as int)],
{
    proof {
        reveal_strlit("0");
        reveal_strlit("1");
        reveal_strlit("2");
        reveal_strlit("3");
        reveal_strlit("4");
        reveal_strlit("5");
        reveal_strlit("6");
        reveal_strlit("7");
        reveal_strlit("8");
        reveal_strlit("9");
        reveal_strlit("a");
        reveal_strlit("b");
        reveal_strlit("c");
        reveal_strlit("d");
        reveal_strlit("e");
        reveal_strlit("f");
    }
    if value == 0 {
        "0"
    } else if value == 1 {
        "1"
    } else if value == 2 {
        "2"
    } else if value == 3 {
        "3"
    } else if value == 4 {
        "4"
    } else if value == 5 {
        "5"
    } else if value == 6 {
        "6"
    } else if value == 7 {
        "7"
    } else if value == 8 {
        "8"
    } else if value == 9 {
        "9"
    } else if value == 10 {
        "a"
    } else if value == 11 {
        "b"
    } else if value == 12 {
        "c"
    } else if value == 13 {
        "d"
    } else if value == 14 {
        "e"
    } else {
        "f"
    }
}

/// Writes bytes in lower-case hexadecimal.
pub fn hex_digest(bytes: &Vec<u8>) -> (r: String)
    ensures
        r@ == hex_text(bytes@),
{
    let mut out = String::new();
    let mut i: usize = 0;
    while i < bytes.len()
        invariant
            i <= bytes.len(),
            out@ == hex_text(bytes@.take(i as int)),
        decreases bytes.len() - i,
    {
        let byte: u8 = bytes[i];
        out.append(hex_digit(byte / 16));
        out.append(hex_digit(byte % 16));
        assert(out@ =~= hex_text(bytes@.take(i + 1)));
        i = i + 1;
    }
    assert(bytes@.take(i as int) =~= bytes@);
    out
}

/// The digest that a manifest declares, without a leading algorithm name.
pub fn expected_digest<'a>(declared: &'a str) -> (r: &'a str)
    ensures
        r@ == declared_digest(declared@),
{
    let value = trim(declared);
    match text::strip_prefix(value, "sha256:") {
        Some(rest) => rest,
        None => value,
    }
}

/// Holds a digest against the one that a manifest declares for a library.
pub fn check_sha256(path: &str, digest: &Vec<u8>, expected: &str) -> (r: Result<(), PluginError>)
    ensures
        failure(r) == mismatch_problem(path@, digest@, expected@),
{
    let actual = hex_digest(digest);
    if eq_ignore_ascii_case(actual.as_str(), expected_digest(expected)) {
        Ok(())
    } else {
        Err(
            PluginError::InvalidConfig(
                concat3("native plugin library '", path, "' sha256 mismatch"),
            ),
        )
    }
}

/// Verifies that a library has the digest that its manifest declares; `contents`
/// are its bytes, or why they could not be read.
pub fn verify_sha256(path: &str, contents: Result<Vec<u8>, String>, expected: &str) -> (r: Result<
    (),
    PluginError,
>)
    ensures
        failure(r) == digest_problem(
            path@,
            match contents {
                Ok(bytes) => Ok(bytes@),
                Err(e) => Err(e@),
            },
            expected@,
        ),
{
    match contents {
        Err(e) => Err(
            PluginError::Internal(text::concat4("failed to read '", path, "': ", e.as_str())),
        ),
        Ok(bytes) => {
            let digest = sha256(&bytes);
            check_sha256(path, &digest, expected)
        },
    }
}

/// The digest of bytes, in hexadecimal.
pub fn sha256_hex(bytes: &Vec<u8>) -> (r: String)
    ensures
        r@ == hex_text(sha256_of(bytes@)),
        r@.len() == 64,
{
    let digest = sha256(bytes);
    hex_digest(&digest)
}

/// A hexadecimal text has two digits for each byte, all of them lower-case.
pub proof fn law_hex_text_is_well_formed(bytes: Seq<u8>)
    ensures
        hex_text(bytes).len() == 2 * bytes.len(),
        forall|i: int|
            0 <= i < hex_text(bytes).len() ==> {
                let c = #[trigger] hex_text(bytes)[i];
                '0' <= c <= '9' || 'a' <= c <= 'f'
            },
{
}

/// Different values have different digits.
proof fn lemma_hex_char_injective(a: int, b: int)
    requires
        0 <= a < 16,
        0 <= b < 16,
        hex_char(a) == hex_char(b),
    ensures
        a == b,
{
}

/// Different bytes have different hexadecimal texts.
pub proof fn law_hex_text_is_faithful(a: Seq<u8>, b: Seq<u8>)
    requires
        hex_text(a) == hex_text(b),
    ensures
        a == b,
{
    law_hex_text_is_well_formed(a);
    law_hex_text_is_well_formed(b);
    assert(a.len() == b.len());
    assert forall|i: int| 0 <= i < a.len() implies a[i] == b[i] by {
        let j = 2 * i;
        let k = 2 * i + 1;
        assert(j / 2 == i && j % 2 == 0 && k / 2 == i && k % 2 == 1);
        assert(hex_text(a)[j] == hex_char(a[i] as int / 16));
        assert(hex_text(b)[j] == hex_char(b[i] as int / 16));
        assert(hex_text(a)[k] == hex_char(a[i] as int % 16));
        assert(hex_text(b)[k] == hex_char(b[i] as int % 16));
        lemma_hex_char_injective(a[i] as int / 16, b[i] as int / 16);
        lemma_hex_char_injective(a[i] as int % 16, b[i] as int % 16);
    }
    assert(a =~= b);
}

/// A declared digest is accepted with or without the algorithm name in front of
/// it, and in either letter case.
pub proof fn law_declared_digest_forms(digest: Seq<u8>)
    ensures
        digest.len() > 0 ==> digest_matches(digest, hex_text(digest)),
        digest_matches(digest, "sha256:"@ + hex_text(digest)),
{
    reveal_strlit("sha256:");
    let h = hex_text(digest);
    law_hex_text_is_well_formed(digest);
    let p = "sha256:"@ + h;
    if digest.len() > 0 {
        assert(!text::white(h[0]) && !text::white(h.last()));
        assert(trimmed(h) == h);
        if has_prefix(h, "sha256:"@) {
            assert(h[0] == "sha256:"@[0]);
            assert(false);
        }
    }
    assert(p[0] == 's');
    assert(p.last() == (if h.len() > 0 {
        h.last()
    } else {
        ':'
    }));
    assert(!text::white(p[0]) && !text::white(p.last()));
    assert(trimmed(p) == p);
    assert(p.subrange(0, "sha256:"@.len() as int) =~= "sha256:"@);
    assert(after(p, "sha256:"@.len()) =~= h);
}

/// A digest is written byte by byte, the upper half of each byte first, in lower-case digits.
pub proof fn law_digests_are_written_by_byte(bytes: Seq<u8>, i: int)
    requires
        0 <= i < bytes.len(),
    ensures
        hex_text(bytes).len() == 2 * bytes.len(),
        hex_text(bytes)[2 * i] == "0123456789abcdef"@[bytes[i] as int / 16],
        hex_text(bytes)[2 * i + 1] == "0123456789abcdef"@[bytes[i] as int % 16],
{
    reveal_strlit("0123456789abcdef");
    let j = 2 * i;
    let k = 2 * i + 1;
    assert(j / 2 == i && j % 2 == 0 && k / 2 == i && k % 2 == 1);
    let high = bytes[i] as int / 16;
    let low = bytes[i] as int % 16;
    lemma_hex_digits(high);
    lemma_hex_digits(low);
}

/// The digits by value.
proof fn lemma_hex_digits(v: int)
    requires
        0 <= v < 16,
    ensures
        hex_char(v) == "0123456789abcdef"@[v],
{
    reveal_strlit("0123456789abcdef");
    if v < 8 {
        if v < 4 {
            assert(v == 0 || v == 1 || v == 2 || v == 3);
        } else {
            assert(v == 4 || v == 5 || v == 6 || v == 7);
        }
    } else {
        if v < 12 {
            assert(v == 8 || v == 9 || v == 10 || v == 11);
        } else {
            assert(v == 12 || v == 13 || v == 14 || v == 15);
        }
    }
}

/// A library passes exactly where it can be read and the digest of its contents, written in
/// digits, is the declared one: case does not count, nor white space around the declaration or the
/// name of the algorithm before it.
pub proof fn law_libraries_pass_with_their_digest(
    path: Seq<char>,
    contents: Result<Seq<u8>, Seq<char>>,
    declared: Seq<char>,
    stated: Seq<char>,
)
    requires
        trimmed(declared) == stated && !has_prefix(stated, "sha256:"@) || trimmed(declared)
            == "sha256:"@ + stated,
    ensures
        digest_problem(path, contents, declared) is None <==> contents is Ok
            && text::same_ignoring_case(hex_text(sha256_of(contents->Ok_0)), stated),
        contents matches Ok(bytes) ==> (digest_problem(path, contents, declared) is Some
            ==> digest_problem(path, contents, declared) == Some(
            (
                PluginErrorKind::InvalidConfig,
                "native plugin library '"@ + path + "' sha256 mismatch"@,
            ),
        )),
        contents matches Err(e) ==> digest_problem(path, contents, declared) == Some(
            (PluginErrorKind::Internal, "failed to read '"@ + path + "': "@ + e),
        ),
{
    if trimmed(declared) == "sha256:"@ + stated {
        let t = trimmed(declared);
        assert(t.subrange(0, "sha256:"@.len() as int) =~= "sha256:"@);
        assert(after(t, "sha256:"@.len()) =~= stated);
    }
}

} // verus!
