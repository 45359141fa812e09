//! Universally unique identifiers and URLs as they appear in text.

use vstd::prelude::*;

verus! {

/// The 128-bit value that `uuid::Uuid::parse_str` reads from a text, or
/// nothing when the text is not an identifier.
pub uninterp spec fn uuid_of_text(s: Seq<char>) -> Option<u128>;

/// The hyphenated lower-case text that `uuid::Uuid` writes for a value.
pub uninterp spec fn text_of_uuid(v: u128) -> Seq<char>;

/// The serialization of the URL that `url::Url::parse` reads from a text, or
/// nothing when the text is not a URL.
pub uninterp spec fn url_of_text(s: Seq<char>) -> Option<Seq<char>>;

/// Relies on `uuid::Uuid::parse_str` and `Uuid::as_u128`: the identifier
/// read from the text, as a big-endian 128-bit number.
#[verifier::external_body]
fn parse_uuid(s: &str) -> (r: Option<u128>)
    ensures
        r == uuid_of_text(s@),
{
    uuid::Uuid::parse_str(s).ok().map(|u| u.as_u128())
}

/// Relies on `uuid::Uuid::from_u128` and its hyphenated `to_string`; the
/// documentation of `parse_str` says that it reads every format that the
/// crate writes.
#[verifier::external_body]
fn format_uuid(v: u128) -> (r: String)
    ensures
        r@ == text_of_uuid(v),
        uuid_of_text(r@) == Some(v),
{
    uuid::Uuid::from_u128(v).hyphenated().to_string()
}

/// Relies on `url::Url::parse` and `Url::as_str`: the normalised
/// serialization of the URL read from the text.
#[verifier::external_body]
fn parse_url(s: &str) -> (r: Option<String>)
    ensures
        match r {
            Some(t) => url_of_text(s@) == Some(t@),
            None => url_of_text(s@) is None,
        },
{
    url::Url::parse(s).ok().map(|u| u.as_str().to_string())
}

/// The identifier that a text denotes.
pub fn user_id_from_text(s: &str) -> (r: Option<u128>)
    ensures
        r == uuid_of_text(s@),
{
    parse_uuid(s)
}

/// The hyphenated text of an identifier; reading it back gives the same
/// identifier.
pub fn user_id_to_text(v: u128) -> (r: String)
    ensures
        r@ == text_of_uuid(v),
        uuid_of_text(r@) == Some(v),
{
    format_uuid(v)
}

/// A text that is already a URL in normal form: it reads back as itself.
pub open spec fn is_normal_url(s: Seq<char>) -> bool {
    url_of_text(s) == Some(s)
}

/// The normal form of the URL that a text denotes, when that form reads
/// back as itself.
pub open spec fn normal_url_of(s: Seq<char>) -> Option<Seq<char>> {
    match url_of_text(s) {
        Some(t) => if is_normal_url(t) {
            Some(t)
        } else {
            None
        },
        None => None,
    }
}

/// The normal form of the URL that a text denotes; `None` when the text is
/// not a URL or its normal form does not read back unchanged.
pub fn url_from_text(s: &str) -> (r: Option<String>)
    ensures
        match r {
            Some(t) => normal_url_of(s@) == Some(t@) && is_normal_url(t@),
            None => normal_url_of(s@) is None,
        },
{
    match parse_url(s) {
        Some(t) => match parse_url(t.as_str()) {
            Some(again) => if again.eq(&t) {
                Some(t)
            } else {
                None
            },
            None => None,
        },
        None => None,
    }
}

} // verus!
