//! Installed-artifact identity.
//!
//! The identity of the installed game executable is the SHA-256 digest of
//! its bytes, rendered in the same canonical `"sha256:<hex>"` form that the
//! catalog uses for asset digests.  The hash itself is an outside
//! collaborator; the rendering is proved exact.

use sha2::Digest;
use vstd::prelude::*;
use vstd::string::StringExecFns;

verus! {

/// What the SHA-256 function returns for `data`.
pub uninterp spec fn sha256_of(data: Seq<u8>) -> Seq<u8>;

/// Relies on sha2::Sha256: a 32-byte digest determined by the input alone.
#[verifier::external_body]
fn sha256(data: &Vec<u8>) -> (r: Vec<u8>)
    ensures
        r@ == sha256_of(data@),
        r@.len() == 32,
{
    sha2::Sha256::digest(data).to_vec()
}

/// The lowercase hexadecimal digit for `n`.
pub open spec fn spec_hex_digit(n: u8) -> char
    recommends
        n < 16,
{
    if n == 0 {
        '0'
    } else if n == 1 {
        '1'
    } else if n == 2 {
        '2'
    } else if n == 3 {
        '3'
    } else if n == 4 {
        '4'
    } else if n == 5 {
        '5'
    } else if n == 6 {
        '6'
    } else if n == 7 {
        '7'
    } else if n == 8 {
        '8'
    } else if n == 9 {
        '9'
    } else if n == 10 {
        'a'
    } else if n == 11 {
        'b'
    } else if n == 12 {
        'c'
    } else if n == 13 {
        'd'
    } else if n == 14 {
        'e'
    } else {
        'f'
    }
}

/// Lowercase hexadecimal rendering of `bytes`, two digits per byte,
/// high nibble first.
pub open spec fn hex_of(bytes: Seq<u8>) -> Seq<char> {
    Seq::new(
        bytes.len() * 2,
        |i: int|
            if i % 2 == 0 {
                spec_hex_digit(bytes[i / 2] / 16)
            } else {
                spec_hex_digit(bytes[i / 2] % 16)
            },
    )
}

/// Canonical identity line for a file's bytes: `"sha256:"` followed by the
/// lowercase hex of the file's SHA-256 digest.
pub open spec fn digest_of(data: Seq<u8>) -> Seq<char> {
    "sha256:"@ + hex_of(sha256_of(data))
}

/// The one-character string holding the hexadecimal digit for `n`.
fn hex_digit_str(n: u8) -> (r: &'static str)
    requires
        n < 16,
    ensures
        r@.len() == 1,
        r@[0] == spec_hex_digit(n),
{
    proof {
        reveal_strlit("0");
        reveal_strlit("1");
        reveal_strlit("2");
        reveal_strlit("3");
        reveal_strlit("4");
        reveal_strlit("5");
        reveal_strlit("6");
        reveal_strlit("7");
        reveal_strlit("8");
        reveal_strlit("9");
        reveal_strlit("a");
        reveal_strlit("b");
        reveal_strlit("c");
        reveal_strlit("d");
        reveal_strlit("e");
        reveal_strlit("f");
    }
    if n == 0 {
        "0"
    } else if n == 1 {
        "1"
    } else if n == 2 {
        "2"
    } else if n == 3 {
        "3"
    } else if n == 4 {
        "4"
    } else if n == 5 {
        "5"
    } else if n == 6 {
        "6"
    } else if n == 7 {
        "7"
    } else if n == 8 {
        "8"
    } else if n == 9 {
        "9"
    } else if n == 10 {
        "a"
    } else if n == 11 {
        "b"
    } else if n == 12 {
        "c"
    } else if n == 13 {
        "d"
    } else if n == 14 {
        "e"
    } else {
        "f"
    }
}

/// Compute the canonical identity of a file's bytes.
pub fn digest_string(data: &Vec<u8>) -> (r: String)
    ensures
        r@ == digest_of(data@),
{
    let hash = sha256(data);
    let mut s = String::from_str("sha256:");
    proof {
        assert(s@ + hex_of(hash@.take(0)) =~= s@);
    }
    let mut i: usize = 0;
    while i < hash.len()
        invariant
            hash@ == sha256_of(data@),
            hash@.len() == 32,
            i <= 32,
            s@ == "sha256:"@ + hex_of(hash@.take(i as int)),
        decreases 32 - i,
    {
        let b = hash[i];
        let ghost before = s@;
        s.append(hex_digit_str(b / 16));
        s.append(hex_digit_str(b % 16));
        proof {
            assert(hex_of(hash@.take(i + 1)) =~= hex_of(hash@.take(i as int)) + seq![
                spec_hex_digit(hash@[i as int] / 16),
                spec_hex_digit(hash@[i as int] % 16),
            ]);
            assert(s@ =~= "sha256:"@ + hex_of(hash@.take(i + 1)));
        }
        i += 1;
    }
    proof {
        assert(hash@.take(32) =~= hash@);
    }
    s
}

} // verus!
