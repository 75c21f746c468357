//! Source descriptors: a URI and an optional BLAKE3 digest given in hex.
use vstd::prelude::*;

verus! {

/// Number of bytes in a content digest.
pub const DIGEST_LEN: usize = 32;

/// Whether `c` is one of `0-9`, `a-f` or `A-F`.
pub open spec fn is_hex_digit(c: char) -> bool {
    ('0' <= c && c <= '9') || ('a' <= c && c <= 'f') || ('A' <= c && c <= 'F')
}

/// The value of a hex digit.
pub open spec fn hex_value(c: char) -> int {
    if '0' <= c && c <= '9' {
        c as int - '0' as int
    } else if 'a' <= c && c <= 'f' {
        c as int - 'a' as int + 10
    } else {
        c as int - 'A' as int + 10
    }
}

/// Whether `s` spells a digest: exactly two hex digits per digest byte.
pub open spec fn is_digest_hex(s: Seq<char>) -> bool {
    s.len() == 2 * DIGEST_LEN && forall|i: int| 0 <= i < s.len() ==> #[trigger] is_hex_digit(s[i])
}

/// The bytes that a digest string spells, high nibble first.
pub open spec fn digest_of_hex(s: Seq<char>) -> Seq<u8> {
    Seq::new(DIGEST_LEN as nat, |i: int| (16 * hex_value(s[2 * i]) + hex_value(s[2 * i + 1])) as u8)
}

/// Relies on `blake3::Hash::from_hex`: it accepts exactly 64 hex digits of
/// either case and decodes each pair, high nibble first, into one byte.
#[verifier::external_body]
fn decode_digest(hex: &str) -> (r: Option<[u8; 32]>)
    ensures
        r is Some <==> is_digest_hex(hex@),
        r matches Some(d) ==> d@ == digest_of_hex(hex@),
{
    blake3::Hash::from_hex(hex).ok().map(|h| *h.as_bytes())
}

/// One declared source of a package.
pub struct Source {
    pub uri: String,
    pub hash: Option<[u8; 32]>,
}

/// What a source is, as plain values.
pub struct SourceModel {
    pub uri: Seq<char>,
    pub hash: Option<Seq<u8>>,
}

impl View for Source {
    type V = SourceModel;

    open spec fn view(&self) -> SourceModel {
        SourceModel {
            uri: self.uri@,
            hash: match self.hash {
                Some(d) => Some(d@),
                None => None,
            },
        }
    }
}

/// The digest that an optional hex string declares, or `None` where the
/// string is given but malformed.
pub open spec fn declared_digest(hash: Option<Seq<char>>) -> Option<Option<Seq<u8>>> {
    match hash {
        None => Some(None),
        Some(h) => if is_digest_hex(h) {
            Some(Some(digest_of_hex(h)))
        } else {
            None
        },
    }
}

impl Source {
    /// Builds a source from its URI and optional hex digest; fails exactly
    /// when the digest is given and malformed.
    pub fn resolve(uri: String, hash: Option<&str>) -> (r: Option<Source>)
        ensures
            r is Some <==> declared_digest(
                match hash {
                    Some(h) => Some(h@),
                    None => None,
                },
            ) is Some,
            r matches Some(s) ==> s@.uri == uri@ && Some(s@.hash) == declared_digest(
                match hash {
                    Some(h) => Some(h@),
                    None => None,
                },
            ),
    {
        match hash {
            None => Some(Source { uri, hash: None }),
            Some(h) => match decode_digest(h) {
                Some(d) => Some(Source { uri, hash: Some(d) }),
                None => None,
            },
        }
    }
}

} // verus!
