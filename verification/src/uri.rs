//! What decisions read of a URI, and what may stand in a header.

use vstd::prelude::*;

verus! {

/// The parts of a URI that decisions are made on.
#[derive(Debug, PartialEq, Eq)]
pub struct UriParts {
    /// Scheme of the URI.
    pub scheme: Option<String>,
    /// Whether the URI names an authority.
    pub has_authority: bool,
}

/// View of [`UriParts`].
pub struct UriPartsView {
    pub scheme: Option<Seq<char>>,
    pub has_authority: bool,
}

impl View for UriParts {
    type V = UriPartsView;

    open spec fn view(&self) -> UriPartsView {
        UriPartsView {
            scheme: crate::resource::optional_text(self.scheme),
            has_authority: self.has_authority,
        }
    }
}

/// The view of an optional URI.
pub open spec fn optional_parts(parts: Option<UriParts>) -> Option<UriPartsView> {
    match parts {
        Some(parts) => Some(parts@),
        None => None,
    }
}

/// An ASCII letter in lower case, and any other character as it is.
pub open spec fn ascii_lower(c: char) -> char {
    if 'A' <= c && c <= 'Z' {
        (c as u32 + 32) as char
    } else {
        c
    }
}

/// `text` begins with the lower-case text `prefix`, whatever the case of its
/// ASCII letters.
pub open spec fn opens_with(text: Seq<char>, prefix: Seq<char>) -> bool {
    &&& prefix.len() <= text.len()
    &&& forall|i: int| 0 <= i < prefix.len() ==> ascii_lower(#[trigger] text[i]) == prefix[i]
}

/// The scheme and authority that `http::Uri` finds in a text, or `None` where
/// the text is no URI.
pub uninterp spec fn uri_in(text: Seq<char>) -> Option<UriPartsView>;

/// The `FromStr` impl of `http::Uri`, with `Uri::scheme_str` and
/// `Uri::authority` of what it returns.
///
/// The parts depend on the text alone, and `uri_in` names them. A URI has the
/// scheme `http` or `https` only where the text begins with that scheme and
/// `://`, in upper or lower case. Which texts are URIs is not stated.
#[verifier::external_body]
pub(crate) fn parse_uri(text: &str) -> (res: Option<UriParts>)
    ensures
        optional_parts(res) == uri_in(text@),
        res matches Some(parts) ==> {
            &&& parts@.scheme == Some("http"@) ==> opens_with(text@, "http://"@)
            &&& parts@.scheme == Some("https"@) ==> opens_with(text@, "https://"@)
        },
{
    match text.parse::<http::Uri>() {
        Ok(uri) => Some(
            UriParts {
                scheme: uri.scheme_str().map(str::to_owned),
                has_authority: uri.authority().is_some(),
            },
        ),
        Err(_) => None,
    }
}

/// Whether a scheme is present and is the given one.
pub fn scheme_is(parts: &UriParts, scheme: &str) -> (res: bool)
    ensures
        res == (parts@.scheme == Some(scheme@)),
{
    match &parts.scheme {
        Some(found) => crate::ordering::same_text(found.as_str(), scheme),
        None => false,
    }
}

/// A byte that a header value may hold.
pub open spec fn is_header_byte(b: u8) -> bool {
    b >= 32 && b != 127 || b == 9
}

/// A text that may stand in a header value.
pub open spec fn is_header_text(text: Seq<char>) -> bool {
    let bytes = vstd::utf8::encode_utf8(text);
    forall|i: int| 0 <= i < bytes.len() ==> is_header_byte(#[trigger] bytes[i])
}

/// `http::HeaderValue::from_str`: the bytes of the text where each of them may
/// stand in a header value, an error otherwise.
#[verifier::external_body]
pub(crate) fn header_value(text: &str) -> (res: Option<Vec<u8>>)
    ensures
        match res {
            Some(value) => is_header_text(text@) && value@ == vstd::utf8::encode_utf8(text@),
            None => !is_header_text(text@),
        },
{
    match http::HeaderValue::from_str(text) {
        Ok(value) => Some(value.as_bytes().to_vec()),
        Err(_) => None,
    }
}

/// A text may stand in a header unless one of its bytes is a control character
/// other than a tab.
pub proof fn law_header_text_has_no_control_characters(text: Seq<char>)
    ensures
        is_header_text(text) <==> !(exists|i: int|
            0 <= i < vstd::utf8::encode_utf8(text).len() && {
                let byte = #[trigger] vstd::utf8::encode_utf8(text)[i];
                byte != 9 && (byte <= 31 || byte == 127)
            }),
{
}

} // verus!
