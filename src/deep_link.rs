use vstd::prelude::*;
use vstd::utf8::{decode_utf8, valid_utf8};

verus! {

/// Why part of a deep link could not be read.
#[derive(Clone, Copy, Debug, PartialEq, Eq, Structural)]
pub enum LaunchError {
    /// The link is not a well-formed URL.
    UriParse,
    /// The `text` parameter is not valid base64.
    Base64Decode,
    /// The decoded `text` bytes are not valid UTF-8.
    Utf8Decode,
}

#[verifier::external_type_specification]
#[verifier::external_body]
pub struct ExUrlParseError(url::ParseError);

#[verifier::external_type_specification]
#[verifier::external_body]
pub struct ExBase64DecodeError(base64::DecodeError);

#[verifier::external_type_specification]
#[verifier::external_body]
pub struct ExFromUtf8Error(std::string::FromUtf8Error);

/// The query pairs of `link` read as a URL, in order of appearance with names
/// and values percent-decoded, or `None` where it does not parse as a URL.
pub uninterp spec fn url_query_of(link: Seq<char>) -> Option<Seq<(Seq<char>, Seq<char>)>>;

/// The bytes that standard base64 decoding gives for `encoded`, or `None`
/// where it is not valid base64.
pub uninterp spec fn base64_decoded(encoded: Seq<char>) -> Option<Seq<u8>>;

/// Relies on `url::Url::parse` to parse `link`, and on `url::Url::query_pairs`
/// to list the query's name/value pairs in order.
#[verifier::external_body]
fn parse_query_pairs(link: &str) -> (r: Result<Vec<(String, String)>, url::ParseError>)
    ensures
        r is Ok <==> url_query_of(link@) is Some,
        r is Ok ==> r->Ok_0.deep_view() == url_query_of(link@)->Some_0,
{
    match url::Url::parse(link) {
        Ok(url) => Ok(url.query_pairs().into_owned().collect()),
        Err(e) => Err(e),
    }
}

/// Relies on `base64::decode` (standard alphabet, with padding). Its length
/// check cannot fail on a `str`, whose length is at most `isize::MAX`.
#[verifier::external_body]
fn decode_base64(encoded: &str) -> (r: Result<Vec<u8>, base64::DecodeError>)
    ensures
        r is Ok <==> base64_decoded(encoded@) is Some,
        r is Ok ==> r->Ok_0@ == base64_decoded(encoded@)->Some_0,
{
    base64::decode(encoded)
}

/// Relies on `String::from_utf8`: it succeeds exactly on valid UTF-8 and then
/// holds the decoded characters.
#[verifier::external_body]
fn string_from_utf8(bytes: Vec<u8>) -> (r: Result<String, std::string::FromUtf8Error>)
    ensures
        r is Ok <==> valid_utf8(bytes@),
        r is Ok ==> r->Ok_0@ == decode_utf8(bytes@),
{
    String::from_utf8(bytes)
}

/// The value of the last pair in `pairs` whose name is `key`: a repeated
/// parameter takes its last value.
pub open spec fn last_value(pairs: Seq<(Seq<char>, Seq<char>)>, key: Seq<char>) -> Option<Seq<char>>
    decreases pairs.len(),
{
    if pairs.len() == 0 {
        None
    } else if pairs.last().0 == key {
        Some(pairs.last().1)
    } else {
        last_value(pairs.drop_last(), key)
    }
}

/// What a decoded payload reads as: its characters when it is valid UTF-8.
pub open spec fn text_of_bytes(bytes: Seq<u8>) -> Result<Seq<char>, LaunchError> {
    if valid_utf8(bytes) {
        Ok(decode_utf8(bytes))
    } else {
        Err(LaunchError::Utf8Decode)
    }
}

/// What a base64 `text` parameter reads as.
pub open spec fn text_of(encoded: Seq<char>) -> Result<Seq<char>, LaunchError> {
    match base64_decoded(encoded) {
        Some(bytes) => text_of_bytes(bytes),
        None => Err(LaunchError::Base64Decode),
    }
}

/// The view of a result that holds a string.
pub open spec fn chars_of(r: Result<String, LaunchError>) -> Result<Seq<char>, LaunchError> {
    match r {
        Ok(s) => Ok(s@),
        Err(e) => Err(e),
    }
}

/// Looks up the value of parameter `key`, the last one where it repeats.
pub fn query_value(pairs: &Vec<(String, String)>, key: &str) -> (r: Option<String>)
    ensures
        r.deep_view() == last_value(pairs.deep_view(), key@),
{
    let wanted = key.to_owned();
    let mut i: usize = pairs.len();
    assert(pairs.deep_view().subrange(0, i as int) =~= pairs.deep_view());
    while i > 0
        invariant
            i <= pairs@.len(),
            wanted@ == key@,
            last_value(pairs.deep_view(), key@) == last_value(
                pairs.deep_view().subrange(0, i as int),
                key@,
            ),
        decreases i,
    {
        let ghost prefix = pairs.deep_view().subrange(0, i as int);
        assert(prefix.drop_last() =~= pairs.deep_view().subrange(0, i - 1));
        i = i - 1;
        assert(prefix.last() == pairs.deep_view()[i as int]);
        if pairs[i].0 == wanted {
            let value = pairs[i].1.clone();
            return Some(value);
        }
    }
    assert(pairs.deep_view().subrange(0, 0) =~= Seq::<(Seq<char>, Seq<char>)>::empty());
    None
}

/// Reads decoded bytes as UTF-8 text.
pub fn text_from_bytes(bytes: Vec<u8>) -> (r: Result<String, LaunchError>)
    ensures
        chars_of(r) == text_of_bytes(bytes@),
{
    match string_from_utf8(bytes) {
        Ok(s) => Ok(s),
        Err(_) => Err(LaunchError::Utf8Decode),
    }
}

/// Decodes a base64 `text` parameter into text.
pub fn decode_text(encoded: &str) -> (r: Result<String, LaunchError>)
    ensures
        chars_of(r) == text_of(encoded@),
{
    match decode_base64(encoded) {
        Ok(bytes) => text_from_bytes(bytes),
        Err(_) => Err(LaunchError::Base64Decode),
    }
}

/// The name of the parameter that carries the room identifier.
pub open spec fn room_key() -> Seq<char> {
    seq!['r', 'o', 'o', 'm']
}

/// The name of the parameter that carries the base64 inline text.
pub open spec fn text_key() -> Seq<char> {
    seq!['t', 'e', 'x', 't']
}

/// The room that a deep link's query pairs name, verbatim.
pub open spec fn room_of(pairs: Seq<(Seq<char>, Seq<char>)>) -> Option<Seq<char>> {
    last_value(pairs, room_key())
}

/// The inline text that a deep link's query pairs carry: absent where the
/// parameter is missing or does not decode.
pub open spec fn text_param_of(pairs: Seq<(Seq<char>, Seq<char>)>) -> Option<Seq<char>> {
    match last_value(pairs, text_key()) {
        Some(encoded) => match text_of(encoded) {
            Ok(text) => Some(text),
            Err(_) => None,
        },
        None => None,
    }
}

/// Reads a deep link's query pairs; a link that is not a URL is an error.
pub fn deep_link_params(link: &str) -> (r: Result<Vec<(String, String)>, LaunchError>)
    ensures
        r is Err <==> url_query_of(link@) is None,
        r is Err ==> r == Err::<Vec<(String, String)>, LaunchError>(LaunchError::UriParse),
        r is Ok ==> r->Ok_0.deep_view() == url_query_of(link@)->Some_0,
{
    match parse_query_pairs(link) {
        Ok(pairs) => Ok(pairs),
        Err(_) => Err(LaunchError::UriParse),
    }
}

/// The room and the inline text of a deep link, from its query pairs. A text
/// that does not decode is dropped and leaves the room as it is.
pub fn deep_link_fields(pairs: &Vec<(String, String)>) -> (r: (Option<String>, Option<String>))
    ensures
        r.0.deep_view() == room_of(pairs.deep_view()),
        r.1.deep_view() == text_param_of(pairs.deep_view()),
{
    let room_name = "room";
    let text_name = "text";
    proof {
        reveal_strlit("room");
        reveal_strlit("text");
    }
    assert(room_name@ =~= room_key());
    assert(text_name@ =~= text_key());
    let room = query_value(pairs, room_name);
    let text = match query_value(pairs, text_name) {
        Some(encoded) => match decode_text(encoded.as_str()) {
            Ok(text) => Some(text),
            Err(_) => None,
        },
        None => None,
    };
    (room, text)
}

} // verus!
