//! Building blocks of the profile-service client: the lookup key, the
//! percent-encoding of user identifiers, and the request path of the user
//! endpoint. The client's HTTP calls live in the program around the library;
//! it obtains its bearer token from a
//! [`crate::remote_store::RemoteStore`].

use vstd::prelude::*;

verus! {

use vstd::string::StringExecFns;
use vstd::string::StringSliceAdditionalSpecFns;

/// Appends one character to a string.
///
/// Relies on `alloc::string::String::push`, which appends the given character
/// to the end of the string.
pub assume_specification[ String::push ](s: &mut String, ch: char)
    ensures
        final(s)@ == old(s)@.push(ch),
;

/// How a user is looked up on the profile service.
#[derive(Clone, Copy, Debug)]
pub enum GetBy {
    UserId,
    PrimaryUsername,
}

/// The path segment of each lookup key.
pub open spec fn spec_get_by_str(b: GetBy) -> Seq<char> {
    match b {
        GetBy::UserId => "user_id/"@,
        GetBy::PrimaryUsername => "primary_username/"@,
    }
}

impl GetBy {
    /// The path segment this lookup key selects.
    pub fn as_str(self: &GetBy) -> (r: &'static str)
        ensures
            r@ == spec_get_by_str(*self),
    {
        match self {
            GetBy::UserId => "user_id/",
            GetBy::PrimaryUsername => "primary_username/",
        }
    }
}

/// Whether a byte of a user identifier must be percent-encoded: every
/// control byte, every byte outside printable ASCII, and the characters that
/// delimit the userinfo part of a URL.
pub open spec fn spec_byte_needs_encoding(b: u8) -> bool {
    ||| b <= 0x20
    ||| b >= 0x7f
    ||| b == 0x22 || b == 0x23 || b == 0x2f || b == 0x3a || b == 0x3b || b == 0x3c
    ||| b == 0x3d || b == 0x3e || b == 0x3f || b == 0x40 || b == 0x5b || b == 0x5c
    ||| b == 0x5d || b == 0x5e || b == 0x60 || b == 0x7b || b == 0x7c || b == 0x7d
}

/// The upper-case hexadecimal digit of a value below sixteen.
pub open spec fn spec_hex_upper(n: u8) -> char
    recommends
        n < 16,
{
    if n < 10 {
        ((48 + n) as u8) as char
    } else {
        ((55 + n) as u8) as char
    }
}

/// What one byte contributes to the encoded output: itself when it may stand
/// as is, otherwise a percent sign and its two hexadecimal digits.
pub open spec fn spec_encode_byte(b: u8) -> Seq<char> {
    if spec_byte_needs_encoding(b) {
        seq!['%', spec_hex_upper(b / 16), spec_hex_upper(b % 16)]
    } else {
        seq![b as char]
    }
}

/// The percent-encoding of a byte sequence, byte by byte.
pub open spec fn spec_percent_encode(bs: Seq<u8>) -> Seq<char>
    decreases bs.len(),
{
    if bs.len() == 0 {
        Seq::empty()
    } else {
        spec_encode_byte(bs[0]) + spec_percent_encode(bs.drop_first())
    }
}

/// Percent-encoding distributes over concatenation.
proof fn lemma_percent_encode_concat(a: Seq<u8>, b: Seq<u8>)
    ensures
        spec_percent_encode(a + b) == spec_percent_encode(a) + spec_percent_encode(b),
    decreases a.len(),
{
    if a.len() == 0 {
        assert(a + b =~= b);
        assert(spec_percent_encode(a) + spec_percent_encode(b) =~= spec_percent_encode(b));
    } else {
        lemma_percent_encode_concat(a.drop_first(), b);
        assert((a + b).drop_first() =~= a.drop_first() + b);
        assert(spec_percent_encode(a) + spec_percent_encode(b) =~= spec_encode_byte(a[0])
            + (spec_percent_encode(a.drop_first()) + spec_percent_encode(b)));
    }
}

/// Whether this byte of a user identifier must be percent-encoded.
fn byte_needs_encoding(b: u8) -> (r: bool)
    ensures
        r == spec_byte_needs_encoding(b),
{
    b <= 0x20 || b >= 0x7f || b == 0x22 || b == 0x23 || b == 0x2f || b == 0x3a || b == 0x3b
        || b == 0x3c || b == 0x3d || b == 0x3e || b == 0x3f || b == 0x40 || b == 0x5b || b == 0x5c
        || b == 0x5d || b == 0x5e || b == 0x60 || b == 0x7b || b == 0x7c || b == 0x7d
}

/// The upper-case hexadecimal digit of a value below sixteen.
fn hex_upper(n: u8) -> (r: char)
    requires
        n < 16,
    ensures
        r == spec_hex_upper(n),
{
    if n < 10 {
        (48 + n) as char
    } else {
        (55 + n) as char
    }
}

/// Percent-encodes a user identifier so it can stand in the path of a URL.
pub fn percent_encode_userinfo(s: &str) -> (r: String)
    ensures
        r@ == spec_percent_encode(s.spec_bytes()),
{
    let bytes = s.as_bytes();
    let mut out = String::new();
    let mut i: usize = 0;
    while i < bytes.len()
        invariant
            i <= bytes@.len(),
            bytes@ == s.spec_bytes(),
            out@ == spec_percent_encode(bytes@.take(i as int)),
        decreases bytes@.len() - i,
    {
        let b = bytes[i];
        if byte_needs_encoding(b) {
            out.push('%');
            out.push(hex_upper(b / 16));
            out.push(hex_upper(b % 16));
        } else {
            out.push(b as char);
        }
        proof {
            lemma_percent_encode_concat(bytes@.take(i as int), seq![bytes@[i as int]]);
            assert(bytes@.take(i + 1) =~= bytes@.take(i as int) + seq![bytes@[i as int]]);
            assert(seq![bytes@[i as int]].drop_first() =~= Seq::<u8>::empty());
            assert(spec_percent_encode(Seq::<u8>::empty()) == Seq::<char>::empty());
            assert(spec_percent_encode(seq![bytes@[i as int]]) =~= spec_encode_byte(
                bytes@[i as int],
            ));
            assert(out@ =~= spec_percent_encode(bytes@.take(i + 1)));
        }
        i = i + 1;
    }
    proof {
        assert(bytes@.take(bytes@.len() as int) =~= bytes@);
    }
    out
}

/// The request path and query of a user lookup, relative to the user
/// endpoint: the lookup key's segment, the percent-encoded identifier, and
/// the display filter if one is asked for.
pub open spec fn spec_user_path(by: GetBy, id_bytes: Seq<u8>, filter: Option<Seq<char>>)
    -> Seq<char> {
    spec_get_by_str(by) + spec_percent_encode(id_bytes) + match filter {
        Some(f) => "?filterDisplay="@ + f,
        None => Seq::empty(),
    }
}

/// Builds the request path and query of a user lookup.
pub fn user_path(by: &GetBy, id: &str, filter: Option<&str>) -> (r: String)
    ensures
        r@ == spec_user_path(*by, id.spec_bytes(), match filter {
            Some(f) => Some(f@),
            None => None,
        }),
{
    let mut out = String::from_str(by.as_str());
    let encoded = percent_encode_userinfo(id);
    out.append(encoded.as_str());
    match filter {
        Some(f) => {
            out.append("?filterDisplay=");
            out.append(f);
        },
        None => {
            proof {
                assert(out@ =~= spec_get_by_str(*by) + spec_percent_encode(id.spec_bytes())
                    + Seq::<char>::empty());
            }
        },
    }
    out
}

} // verus!
