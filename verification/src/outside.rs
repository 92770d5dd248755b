//! Calls into outside crates.
//!
//! Each function here makes one outside call on plain values. What its
//! contract says of that call is believed, not proved.

use rand::Rng;
use vstd::prelude::*;

verus! {

/// A textual outcome by its view.
pub open spec fn text_outcome(r: Result<String, String>) -> Result<Seq<char>, Seq<char>> {
    match r {
        Ok(text) => Ok(text@),
        Err(text) => Err(text@),
    }
}

/// A number or an error text, by its view.
pub open spec fn number_outcome(r: Result<u128, String>) -> Result<u128, Seq<char>> {
    match r {
        Ok(number) => Ok(number),
        Err(text) => Err(text@),
    }
}

/// What `url::Url::parse` makes of a text: the normalized address, or the
/// text of the parse error.
pub uninterp spec fn parsed_url(text: Seq<char>) -> Result<Seq<char>, Seq<char>>;

/// What `url::Url::join` makes of a relative reference under a base address:
/// the resolved address, or the text of the parse error.
pub uninterp spec fn joined_url(base: Seq<char>, input: Seq<char>) -> Result<Seq<char>, Seq<char>>;

/// What `uuid::Uuid::parse_str` makes of a text: the 128-bit value, or the
/// text of the parse error.
pub uninterp spec fn parsed_uuid(text: Seq<char>) -> Result<u128, Seq<char>>;

/// The text of an HTTP status code: its number and its reason phrase.
pub uninterp spec fn status_line(code: u16) -> Seq<char>;

/// ASCII letters and digits.
pub open spec fn alphanumeric(c: char) -> bool {
    'a' <= c <= 'z' || 'A' <= c <= 'Z' || '0' <= c <= '9'
}

/// Characters that a path keeps as they are: they are neither separators nor
/// percent-encoded, and they do not start a query or a fragment.
pub open spec fn unreserved(c: char) -> bool {
    alphanumeric(c) || c == '-' || c == '_' || c == '~' || c == '.' || c == ':'
}

/// Characters that a path parser removes, decodes or takes as the end of the
/// path.
pub open spec fn path_syntax(c: char) -> bool {
    c == '\t' || c == '\n' || c == '\r' || c == '%' || c == '\\' || c == '?' || c == '#'
}

/// A segment of `path` starts at `i` and is `.` or `..`.
pub open spec fn dot_segment_at(path: Seq<char>, i: int) -> bool {
    &&& 0 <= i < path.len()
    &&& i == 0 || path[i - 1] == '/'
    &&& path[i] == '.'
    &&& {
        ||| i + 1 == path.len()
        ||| path[i + 1] == '/'
        ||| path[i + 1] == '.' && (i + 2 == path.len() || path[i + 2] == '/')
    }
}

/// A relative path whose first segment is alphanumeric and which neither
/// leaves the directory it is resolved in nor ends in a query or fragment.
pub open spec fn descending_path(path: Seq<char>) -> bool {
    &&& exists|k: int|
        0 < k < path.len() && #[trigger] path[k] == '/' && forall|j: int|
            0 <= j < k ==> alphanumeric(#[trigger] path[j])
    &&& forall|i: int| 0 <= i < path.len() ==> !path_syntax(#[trigger] path[i])
    &&& forall|i: int| !#[trigger] dot_segment_at(path, i)
    &&& path.last() > ' '
}

/// A normalized web address that ends in a slash and has neither a query nor
/// a fragment.
pub open spec fn directory_url(base: Seq<char>) -> bool {
    &&& parsed_url(base) == Ok::<Seq<char>, Seq<char>>(base)
    &&& "http://"@.is_prefix_of(base) || "https://"@.is_prefix_of(base)
    &&& base.last() == '/'
    &&& !base.contains('?')
    &&& !base.contains('#')
}

/// Calls `url::Url::parse` and returns the address it serializes to.
///
/// Believed: the outcome depends on the text alone.
#[verifier::external_body]
pub(crate) fn parse_url(text: &str) -> (r: Result<String, String>)
    ensures
        text_outcome(r) == parsed_url(text@),
{
    url::Url::parse(text).map(String::from).map_err(|error| error.to_string())
}

/// Calls `url::Url::join` on the address that `base` spells.
///
/// Believed: the outcome depends on the two texts alone; a descending path
/// under a directory address resolves to an address that starts with the base;
/// and where that path needs no encoding, to the base followed by the path.
#[verifier::external_body]
pub(crate) fn join_url(base: &str, input: &str) -> (r: Result<String, String>)
    ensures
        text_outcome(r) == joined_url(base@, input@),
        directory_url(base@) && descending_path(input@) ==> r is Ok && base@.is_prefix_of(
            r->Ok_0@,
        ),
        directory_url(base@) && descending_path(input@) && (forall|i: int|
            0 <= i < input@.len() ==> unreserved(#[trigger] input@[i]) || input@[i] == '/')
            ==> r is Ok && r->Ok_0@ == base@ + input@,
{
    url::Url::parse(base).and_then(|base| base.join(input)).map(String::from).map_err(
        |error| error.to_string(),
    )
}

/// The lower-case digit of a value below sixteen.
pub open spec fn hex_digit(value: int) -> char {
    if value < 10 {
        ('0' as int + value) as char
    } else {
        ('a' as int + value - 10) as char
    }
}

/// The `k`-th of the thirty-two hexadecimal digits of `id`, most significant
/// first.
pub open spec fn hex_place(id: u128, k: int) -> int {
    id as int / vstd::arithmetic::power::pow(16, (31 - k) as nat) % 16
}

/// The hyphenated form of an identifier: groups of 8, 4, 4, 4 and 12 digits.
pub open spec fn uuid_text(id: u128) -> Seq<char> {
    Seq::new(
        36,
        |i: int|
            if i == 8 || i == 13 || i == 18 || i == 23 {
                '-'
            } else if i < 8 {
                hex_digit(hex_place(id, i))
            } else if i < 13 {
                hex_digit(hex_place(id, i - 1))
            } else if i < 18 {
                hex_digit(hex_place(id, i - 2))
            } else if i < 23 {
                hex_digit(hex_place(id, i - 3))
            } else {
                hex_digit(hex_place(id, i - 4))
            },
    )
}

/// Calls `uuid::Uuid::parse_str`.
///
/// Believed: the outcome depends on the text alone.
#[verifier::external_body]
pub(crate) fn parse_uuid(text: &str) -> (r: Result<u128, String>)
    ensures
        number_outcome(r) == parsed_uuid(text@),
{
    uuid::Uuid::parse_str(text).map(|id| id.as_u128()).map_err(|error| error.to_string())
}

/// Calls the `Display` of `uuid::Uuid`.
///
/// Believed: it writes the hyphenated lower-case form, and parsing that form
/// gives the identifier back.
#[verifier::external_body]
pub(crate) fn format_uuid(id: u128) -> (r: String)
    ensures
        r@ == uuid_text(id),
        parsed_uuid(r@) is Ok && parsed_uuid(r@)->Ok_0 == id,
{
    uuid::Uuid::from_u128(id).to_string()
}

/// The version and variant bits of a random identifier.
pub open spec fn random_uuid(id: u128) -> bool {
    &&& (id >> 76) & 0xf == 4
    &&& (id >> 62) & 0x3 == 2
}

/// Calls `uuid::Uuid::new_v4`.
///
/// Believed: whatever the random bits are, the version field is four and the
/// variant field is two.
#[verifier::external_body]
pub(crate) fn random_id() -> (id: u128)
    ensures
        random_uuid(id),
{
    uuid::Uuid::new_v4().as_u128()
}

/// Calls `rand::Rng::gen_range` on the thread's generator.
///
/// Believed: the number drawn lies in the range asked for.
#[verifier::external_body]
pub(crate) fn random_up_to(max: u64) -> (r: u64)
    ensures
        r <= max,
{
    rand::thread_rng().gen_range(0..=max)
}

/// Calls the `Display` of `reqwest::StatusCode`.
///
/// Believed: the text depends on the code alone. Codes outside three digits
/// are no status codes.
#[verifier::external_body]
pub(crate) fn status_text(code: u16) -> (r: String)
    requires
        100 <= code <= 999,
    ensures
        r@ == status_line(code),
{
    reqwest::StatusCode::from_u16(code).unwrap().to_string()
}

} // verus!
