//! The headers of a response: a map from names to lists of values, kept in
//! the `http` crate's header map.

use vstd::prelude::*;
use vstd::utf8::encode_utf8;
use http::{HeaderMap, HeaderName, HeaderValue};
use std::str::FromStr;

verus! {

/// `http::HeaderMap`, a multimap from header names to header values.
#[verifier::external_type_specification]
#[verifier::external_body]
#[verifier::reject_recursive_types(T)]
pub struct ExHeaderMap<T>(http::HeaderMap<T>);

/// `http::HeaderValue`, the bytes of one header value.
#[verifier::external_type_specification]
#[verifier::external_body]
pub struct ExHeaderValue(http::HeaderValue);

/// What a set of headers holds: names in lower case, each with the bytes of
/// its values in the order in which they were added.
pub type HeaderModel = Map<Seq<char>, Seq<Seq<u8>>>;

/// What a header map holds.
pub uninterp spec fn header_values(headers: HeaderMap<HeaderValue>) -> HeaderModel;

/// Whether `c` can stand in a header name: a letter, a digit, or one of
/// ``!#$%&'*+-.^_`|~``.
pub open spec fn is_name_char(c: char) -> bool {
    ||| 'a' <= c <= 'z'
    ||| 'A' <= c <= 'Z'
    ||| '0' <= c <= '9'
    ||| c == '!'
    ||| c == '#'
    ||| c == '$'
    ||| c == '%'
    ||| c == '&'
    ||| c == '\''
    ||| c == '*'
    ||| c == '+'
    ||| c == '-'
    ||| c == '.'
    ||| c == '^'
    ||| c == '_'
    ||| c == '`'
    ||| c == '|'
    ||| c == '~'
}

/// The lower-case form of an ASCII capital letter; any other character itself.
pub open spec fn lower_case(c: char) -> char {
    if 'A' <= c <= 'Z' {
        ((c as u8) + 32) as u8 as char
    } else {
        c
    }
}

/// Whether `name` can be a header name: between 1 and 65535 characters, each
/// of which can stand in a header name.
pub open spec fn is_header_name(name: Seq<char>) -> bool {
    &&& 1 <= name.len() <= 65535
    &&& forall|i: int| 0 <= i < name.len() ==> is_name_char(#[trigger] name[i])
}

/// The form under which a header name is kept: lower case.
pub open spec fn canonical_name(name: Seq<char>) -> Seq<char> {
    Seq::new(name.len(), |i: int| lower_case(name[i]))
}

/// Whether `byte` can stand in a header value: anything but a control
/// character, and the tab.
pub open spec fn is_value_byte(byte: u8) -> bool {
    (byte >= 32 && byte != 127) || byte == 9
}

/// Whether `text` can be a header value: each byte of its UTF-8 encoding can
/// stand in one.
pub open spec fn is_header_value(text: Seq<char>) -> bool {
    forall|i: int|
        0 <= i < encode_utf8(text).len() ==> is_value_byte(#[trigger] encode_utf8(text)[i])
}

/// The most names that a header map can hold and still be known to take
/// another. The map keeps a table of at most 32768 slots and panics where
/// the table would have to grow past that. It grows the table when three
/// quarters of the slots are taken or, after many collisions, when a fifth
/// of them are: with 6553 names, fewer than a fifth of 32768 slots are
/// taken.
pub const MAX_HEADER_NAMES: usize = 6553;

/// Whether a set of headers is known to take one more name.
pub open spec fn has_room(headers: HeaderModel) -> bool {
    headers.dom().finite() && headers.dom().len() <= MAX_HEADER_NAMES
}

/// The headers after `name` was set to the single value `value`.
pub open spec fn with_header(
    headers: HeaderModel,
    name: Seq<char>,
    value: Seq<char>,
) -> HeaderModel {
    headers.insert(canonical_name(name), seq![encode_utf8(value)])
}

/// The headers after `value` was added to the values of `name`.
pub open spec fn with_added_header(
    headers: HeaderModel,
    name: Seq<char>,
    value: Seq<char>,
) -> HeaderModel {
    let key = canonical_name(name);
    if headers.dom().contains(key) {
        headers.insert(key, headers[key].push(encode_utf8(value)))
    } else {
        headers.insert(key, seq![encode_utf8(value)])
    }
}

/// The decimal digit for a number below ten.
pub open spec fn digit(value: nat) -> char
    recommends
        value < 10,
{
    (48 + value) as u8 as char
}

/// The decimal notation of a number, without sign or leading zeros.
pub open spec fn decimal(number: nat) -> Seq<char>
    decreases number,
{
    if number < 10 {
        seq![digit(number)]
    } else {
        decimal(number / 10).push(digit(number % 10))
    }
}

/// Decimal notation is made of digits, which are ASCII.
pub proof fn lemma_decimal_is_digits(number: nat)
    ensures
        decimal(number).len() >= 1,
        forall|i: int|
            0 <= i < decimal(number).len() ==> '0' <= #[trigger] decimal(number)[i] <= '9',
    decreases number,
{
    if number >= 10 {
        lemma_decimal_is_digits(number / 10);
    }
}

/// A text of ASCII characters none of which is a control character is a
/// header value.
pub proof fn lemma_printable_is_header_value(text: Seq<char>)
    requires
        forall|i: int| 0 <= i < text.len() ==> ' ' <= #[trigger] text[i] <= '~',
    ensures
        is_header_value(text),
{
    assert(vstd::utf8::is_ascii_chars(text));
    vstd::utf8::is_ascii_chars_encode_utf8(text);
    assert forall|i: int| 0 <= i < encode_utf8(text).len() implies is_value_byte(
        #[trigger] encode_utf8(text)[i],
    ) by {
        assert(' ' <= text[i] <= '~');
    }
}

/// Setting or adding a header leaves at most one name more.
pub proof fn lemma_one_more_name(headers: HeaderModel, name: Seq<char>, value: Seq<char>)
    requires
        headers.dom().finite(),
    ensures
        with_header(headers, name, value).dom().finite(),
        with_header(headers, name, value).dom().len() <= headers.dom().len() + 1,
        with_added_header(headers, name, value).dom().finite(),
        with_added_header(headers, name, value).dom().len() <= headers.dom().len() + 1,
{
    let key = canonical_name(name);
    assert(with_header(headers, name, value).dom() =~= headers.dom().insert(key));
    assert(with_added_header(headers, name, value).dom() =~= headers.dom().insert(key));
}

/// Calls `usize::to_string`: the decimal notation of the number.
#[verifier::external_body]
pub(crate) fn decimal_text(number: usize) -> (text: String)
    ensures
        text@ == decimal(number as nat),
{
    number.to_string()
}

/// Calls `HeaderMap::new`: a map that holds nothing.
#[verifier::external_body]
pub(crate) fn no_headers() -> (headers: HeaderMap<HeaderValue>)
    ensures
        header_values(headers) == HeaderModel::empty(),
{
    HeaderMap::new()
}

/// Calls `HeaderName::from_str` and says whether it took `name`. It takes a
/// name of 1 to 65535 bytes, each of which its table of name characters
/// knows.
#[verifier::external_body]
pub(crate) fn check_header_name(name: &str) -> (valid: bool)
    ensures
        valid == is_header_name(name@),
{
    HeaderName::from_str(name).is_ok()
}

/// Calls `HeaderValue::from_str` and says whether it took `value`. It takes
/// a value in which no byte is a control character other than the tab.
#[verifier::external_body]
pub(crate) fn check_header_value(value: &str) -> (valid: bool)
    ensures
        valid == is_header_value(value@),
{
    HeaderValue::from_str(value).is_ok()
}

/// Calls `HeaderMap::insert` with the name and the value that
/// `HeaderName::from_str` and `HeaderValue::from_str` make of the two texts:
/// the name, in lower case, then has this value and no other. The call
/// panics where the map cannot grow, which `has_room` rules out.
#[verifier::external_body]
pub(crate) fn set_header(headers: &mut HeaderMap<HeaderValue>, name: &str, value: &str)
    requires
        is_header_name(name@),
        is_header_value(value@),
        has_room(header_values(*old(headers))),
    ensures
        header_values(*final(headers)) == with_header(
            header_values(*old(headers)),
            name@,
            value@,
        ),
{
    if let (Ok(name), Ok(value)) = (HeaderName::from_str(name), HeaderValue::from_str(value)) {
        headers.insert(name, value);
    }
}

/// Calls `HeaderMap::append` with the name and the value that
/// `HeaderName::from_str` and `HeaderValue::from_str` make of the two texts:
/// the value comes last among the values of the name, in lower case. The
/// call panics where the map cannot grow, which `has_room` rules out.
#[verifier::external_body]
pub(crate) fn add_header(headers: &mut HeaderMap<HeaderValue>, name: &str, value: &str)
    requires
        is_header_name(name@),
        is_header_value(value@),
        has_room(header_values(*old(headers))),
    ensures
        header_values(*final(headers)) == with_added_header(
            header_values(*old(headers)),
            name@,
            value@,
        ),
{
    if let (Ok(name), Ok(value)) = (HeaderName::from_str(name), HeaderValue::from_str(value)) {
        headers.append(name, value);
    }
}

/// Calls `HeaderMap::clone`: the clone holds the same names and values.
#[verifier::external_body]
pub(crate) fn same_headers(headers: &HeaderMap<HeaderValue>) -> (copy: HeaderMap<HeaderValue>)
    ensures
        header_values(copy) == header_values(*headers),
{
    headers.clone()
}

/// Calls `HeaderMap::eq`: two maps are equal where they hold the same names,
/// each with the same values in the same order.
#[verifier::external_body]
pub(crate) fn equal_headers(
    left: &HeaderMap<HeaderValue>,
    right: &HeaderMap<HeaderValue>,
) -> (same: bool)
    ensures
        same == (header_values(*left) == header_values(*right)),
{
    left == right
}

} // verus!
