//! Parsing of URI strings into a recognized scheme and the remaining
//! scheme-specific data, with the scheme classified against the IANA
//! URI-scheme registry.

use vstd::prelude::*;

pub mod scheme;
pub mod text;

verus! {

use crate::scheme::Scheme;
use crate::scheme::SchemeStatus;
use crate::scheme::canonical_name_of;
use crate::scheme::lemma_resolve_known_name;
use crate::scheme::resolve_spec;
use crate::scheme::status_of;
use crate::text::ascii_lower;
use crate::text::data_of;
use crate::text::has_terminator;
use crate::text::is_scheme_char;
use crate::text::is_valid_scheme_token;
use crate::text::lemma_terminator_pos_from_index;
use crate::text::terminator_pos;
use crate::text::token_of;
use crate::text::valid_token;

/// The ways a parse can fail.
#[derive(PartialEq, Eq, Clone, Debug)]
pub enum UriParseError {
    BadSchemeCharacter,
    MissingSchemeTerminator,
    UnknownEncoding,
    EncodingError(String),
}

/// The parse result: the recognized scheme and everything after the
/// first scheme terminator, kept as opaque text.
#[derive(PartialEq, Eq, Clone, Debug)]
pub struct Uri {
    pub scheme: Scheme,
    pub scheme_data: String,
}

/// The scheme value that a validated token yields: the registry hit
/// when the token resolves, else `Unknown` holding the token verbatim.
pub open spec fn scheme_of_token(sch: Scheme, token: Seq<char>) -> bool {
    match resolve_spec(token) {
        Some(k) => sch == k,
        None => sch matches Scheme::Unknown(n) && n@ == token,
    }
}

/// What `Uri::parse` returns on an input whose view is `s`: `Ok` exactly
/// when `s` holds a terminator and the token before the first one is a
/// valid scheme token; the errors tell the two failures apart; the data
/// is exactly the suffix after the first terminator.
pub open spec fn parse_spec(s: Seq<char>, r: Result<Uri, UriParseError>) -> bool {
    match r {
        Ok(uri) => has_terminator(s) && is_valid_scheme_token(token_of(s))
            && scheme_of_token(uri.scheme, token_of(s))
            && uri.scheme_data@ == data_of(s),
        Err(e) => match e {
            UriParseError::MissingSchemeTerminator => !has_terminator(s),
            UriParseError::BadSchemeCharacter => has_terminator(s)
                && !is_valid_scheme_token(token_of(s)),
            _ => false,
        },
    }
}

impl Uri {
    /// Parse a UTF-8 encoded `&str` into a `Uri`.
    pub fn parse(data: &str) -> (r: Result<Uri, UriParseError>)
        ensures
            parse_spec(data@, r),
    {
        let n = data.unicode_len();
        let mut i: usize = 0;
        while i < n
            invariant
                i <= n,
                n == data@.len(),
                forall|j: int| 0 <= j < i ==> data@[j] != ':',
            decreases n - i,
        {
            if data.get_char(i) == ':' {
                proof {
                    lemma_terminator_pos_from_index(data@, i as int);
                }
                let token = data.substring_char(0, i);
                if !valid_token(token) {
                    return Err(UriParseError::BadSchemeCharacter);
                }
                let rest = data.substring_char(i + 1, n);
                let scheme = match Scheme::resolve(token) {
                    Some(s) => s,
                    None => Scheme::Unknown(token.to_owned()),
                };
                return Ok(Uri { scheme, scheme_data: rest.to_owned() });
            }
            i += 1;
        }
        Err(UriParseError::MissingSchemeTerminator)
    }

    /// Parse bytes in any known encoding into a `Uri`: the bytes are
    /// decoded under the encoding that `encoding_whatwg_label` names,
    /// and the decoded text is parsed as by [`Uri::parse`].
    pub fn parse_encoded(data: &[u8], encoding_whatwg_label: &str) -> (r: Result<
        Uri,
        UriParseError,
    >)
        ensures
            match r {
                Err(UriParseError::UnknownEncoding) => !whatwg_encoding_known(
                    encoding_whatwg_label@,
                ),
                Err(UriParseError::EncodingError(_)) => whatwg_encoding_known(
                    encoding_whatwg_label@,
                ) && strict_decoded(encoding_whatwg_label@, data@) is None,
                _ => whatwg_encoding_known(encoding_whatwg_label@) && (strict_decoded(
                    encoding_whatwg_label@,
                    data@,
                ) matches Some(text) && parse_spec(text, r)),
            },
    {
        match decode_labelled(data, encoding_whatwg_label) {
            Err(e) => Err(e),
            Ok(text) => Uri::parse(text.as_str()),
        }
    }
}

/// Gluing a valid scheme token to `":" + rest` puts the first terminator
/// right after the token: the token and the data of the combined text
/// are `name` and `rest` themselves.
pub proof fn lemma_scheme_prefix_split(name: Seq<char>, rest: Seq<char>)
    requires
        is_valid_scheme_token(name),
    ensures
        ({
            let s = name + seq![':'] + rest;
            &&& has_terminator(s)
            &&& terminator_pos(s) == name.len()
            &&& token_of(s) == name
            &&& data_of(s) == rest
        }),
{
    let s = name + seq![':'] + rest;
    assert(s[name.len() as int] == ':');
    assert forall|j: int| 0 <= j < name.len() implies s[j] != ':' by {
        assert(s[j] == name[j]);
        assert(is_scheme_char(name[j]));
    }
    lemma_terminator_pos_from_index(s, name.len() as int);
    assert(token_of(s) =~= name);
    assert(data_of(s) =~= rest);
}

/// Round trip of known schemes: for a scheme token that resolves against
/// the registry (in any ASCII case), parsing `name + ":" + rest` must
/// yield exactly the resolved scheme with `rest` as the data, and that
/// scheme's canonical name is the ASCII-lowercase form of the token.
pub proof fn lemma_known_scheme_round_trip(name: Seq<char>, rest: Seq<char>)
    requires
        resolve_spec(name) is Some,
    ensures
        ({
            let s = name + seq![':'] + rest;
            forall|r: Result<Uri, UriParseError>|
                parse_spec(s, r) ==> (r matches Ok(uri) && uri.scheme == resolve_spec(
                    name,
                )->Some_0 && canonical_name_of(uri.scheme) == ascii_lower(name)
                    && uri.scheme_data@ == rest)
        }),
{
    crate::scheme::lemma_lookup_valid(ascii_lower(name));
    crate::text::lemma_valid_token_under_case(name);
    lemma_scheme_prefix_split(name, rest);
    lemma_resolve_known_name(name);
}

/// Unknown-scheme fallback: a valid scheme token absent from the registry
/// never fails a parse — `name + ":" + rest` must yield `Unknown` holding
/// the token verbatim, and such a scheme's status is `Unregistered`.
pub proof fn lemma_unknown_scheme_fallback(name: Seq<char>, rest: Seq<char>)
    requires
        is_valid_scheme_token(name),
        resolve_spec(name) is None,
    ensures
        ({
            let s = name + seq![':'] + rest;
            forall|r: Result<Uri, UriParseError>|
                parse_spec(s, r) ==> (r matches Ok(uri) && (uri.scheme matches Scheme::Unknown(n)
                    && n@ == name) && status_of(uri.scheme) == SchemeStatus::Unregistered
                    && uri.scheme_data@ == rest)
        }),
{
    lemma_scheme_prefix_split(name, rest);
}

/// Whether two schemes are observably the same: equal known identifiers,
/// or `Unknown` tokens holding the same text.
pub open spec fn schemes_alike(a: Scheme, b: Scheme) -> bool {
    match (a, b) {
        (Scheme::Unknown(x), Scheme::Unknown(y)) => x@ == y@,
        _ => a == b,
    }
}

/// Determinism: the outcome of a parse is a function of the input text
/// alone, so any two results that `Uri::parse` may return for the same
/// input agree in everything observable.
pub proof fn lemma_parse_deterministic(
    s: Seq<char>,
    r1: Result<Uri, UriParseError>,
    r2: Result<Uri, UriParseError>,
)
    requires
        parse_spec(s, r1),
        parse_spec(s, r2),
    ensures
        r1 is Ok <==> r2 is Ok,
        r1 matches Err(e1) ==> (r2 matches Err(e2) && e1 == e2),
        r1 matches Ok(u1) ==> (r2 matches Ok(u2) && schemes_alike(u1.scheme, u2.scheme)
            && u1.scheme_data@ == u2.scheme_data@),
{
}

/// Whether the WHATWG encoding label names a known character encoding.
pub uninterp spec fn whatwg_encoding_known(label: Seq<char>) -> bool;

/// The text that strict decoding under the encoding named by `label`
/// yields for `bytes`; `None` when the bytes are malformed under that
/// encoding.
pub uninterp spec fn strict_decoded(label: Seq<char>, bytes: Seq<u8>) -> Option<Seq<char>>;

/// Relies on `encoding::label::encoding_from_whatwg_label` to look up the
/// encoding that `label` names, and on `encoding::types::Encoding::decode`
/// with `DecoderTrap::Strict` to decode `data` under it; each call returns
/// a value that depends on its arguments alone.
#[verifier::external_body]
fn decode_labelled(data: &[u8], label: &str) -> (r: Result<String, UriParseError>)
    ensures
        match r {
            Ok(text) => whatwg_encoding_known(label@) && strict_decoded(label@, data@)
                == Some(text@),
            Err(e) => match e {
                UriParseError::UnknownEncoding => !whatwg_encoding_known(label@),
                UriParseError::EncodingError(_) => whatwg_encoding_known(label@)
                    && strict_decoded(label@, data@) is None,
                _ => false,
            },
        },
{
    match encoding::label::encoding_from_whatwg_label(label) {
        None => Err(UriParseError::UnknownEncoding),
        Some(enc) => match enc.decode(data, encoding::types::DecoderTrap::Strict) {
            Ok(text) => Ok(text),
            Err(cause) => Err(UriParseError::EncodingError(cause.into_owned())),
        },
    }
}

} // verus!
