//! What the library takes from the `http` crate: the path of a URI and the
//! validity of a method token.
use vstd::prelude::*;

verus! {

/// The path component of `s` as the `http` crate's URI parser reads it, or
/// `None` where `s` is no URI.
pub uninterp spec fn uri_path_of(s: Seq<char>) -> Option<Seq<char>>;

/// Relies on `http::Uri`'s `TryFrom<&str>` and on `Uri::path`: the path of a
/// parsed URI; the parser refuses the empty string.
#[verifier::external_body]
pub(crate) fn uri_path(s: &str) -> (r: Option<String>)
    ensures
        r.deep_view() == uri_path_of(s@),
        s@.len() == 0 ==> r is None,
{
    match http::Uri::try_from(s) {
        Ok(uri) => Some(uri.path().to_owned()),
        Err(_) => None,
    }
}

/// A character allowed in a method token.
pub open spec fn is_method_char(c: char) -> bool {
    ||| ('a' <= c && c <= 'z')
    ||| ('A' <= c && c <= 'Z')
    ||| ('0' <= c && c <= '9')
    ||| c == '!' || c == '*' || c == '+' || c == '-' || c == '.'
    ||| c == '^' || c == '_' || c == '`' || c == '|' || c == '~'
}

/// A method token: one or more method characters.
pub open spec fn is_method_token(s: Seq<char>) -> bool {
    s.len() > 0 && forall|i: int| 0 <= i < s.len() ==> is_method_char(#[trigger] s[i])
}

/// Relies on `http::Method`'s `FromStr` and on `Method::as_str`: a non-empty
/// string of method characters is accepted and read back as written, any
/// other string is refused.
#[verifier::external_body]
pub(crate) fn method_token(s: &str) -> (r: Option<String>)
    ensures
        r.deep_view() == (if is_method_token(s@) { Some(s@) } else { None }),
{
    match <http::Method as std::str::FromStr>::from_str(s) {
        Ok(m) => Some(m.as_str().to_owned()),
        Err(_) => None,
    }
}

} // verus!
