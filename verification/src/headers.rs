//! Header fields: what a name and a value may hold, and the map that keeps them.
//!
//! The map is the `http` crate's. Its contents are seen through
//! [`header_entries`]: the names in the order in which they first came, each with
//! its values in the order in which they were added.

use vstd::prelude::*;

verus! {

/// The number of names up to which a header map takes another one.
pub const MAX_ENTRIES: usize = 4096;

/// The header map of the `http` crate.
#[verifier::external_type_specification]
#[verifier::external_body]
#[verifier::reject_recursive_types(T)]
pub struct ExHeaderMap<T>(http::HeaderMap<T>);

/// A header value of the `http` crate.
#[verifier::external_type_specification]
#[verifier::external_body]
pub struct ExHeaderValue(http::HeaderValue);

/// What an `http::HeaderMap` holds: its names in the order of its entries, each
/// with its values, the first one first.
pub uninterp spec fn header_entries(map: http::HeaderMap<http::HeaderValue>) -> Seq<
    (Seq<char>, Seq<Seq<u8>>),
>;

/// A character that a field name may hold.
pub open spec fn name_char(c: char) -> bool {
    ||| '0' <= c <= '9'
    ||| 'a' <= c <= 'z'
    ||| 'A' <= c <= 'Z'
    ||| '!' <= c <= '\''
    ||| c == '*' || c == '+' || c == '-' || c == '.' || c == '^' || c == '_' || c == '`' || c == '|'
        || c == '~'
}

/// A text that can be the name of a header field.
pub open spec fn valid_name(name: Seq<char>) -> bool {
    &&& 1 <= name.len() <= 65535
    &&& forall|i: int| 0 <= i < name.len() ==> name_char(#[trigger] name[i])
}

/// `c` in lower case, if it is an upper case ASCII letter.
pub open spec fn lower_char(c: char) -> char {
    if 'A' <= c <= 'Z' {
        (c as u32 + 32) as char
    } else {
        c
    }
}

/// `text` with its ASCII letters in lower case.
pub open spec fn lower(text: Seq<char>) -> Seq<char> {
    Seq::new(text.len(), |i: int| lower_char(text[i]))
}

/// A byte that a field value may hold: no control byte but the tab.
pub open spec fn value_byte(b: u8) -> bool {
    b >= 32 && b != 127 || b == 9
}

/// Bytes that can be the value of a header field.
pub open spec fn valid_value(value: Seq<u8>) -> bool {
    forall|i: int| 0 <= i < value.len() ==> value_byte(#[trigger] value[i])
}

/// A text whose encoding can be the value of a header field.
pub open spec fn valid_text(text: Seq<char>) -> bool {
    forall|i: int| 0 <= i < text.len() ==> text_char(#[trigger] text[i])
}

/// A character that a field value may hold: no control character but the tab.
pub open spec fn text_char(c: char) -> bool {
    c >= ' ' && c != '\u{7f}' || c == '\t'
}

/// The place of `name` among the entries, or their number where it is not there.
pub open spec fn place(entries: Seq<(Seq<char>, Seq<Seq<u8>>)>, name: Seq<char>) -> int
    decreases entries.len(),
{
    if entries.len() == 0 {
        0
    } else if entries[0].0 == name {
        0
    } else {
        1 + place(entries.drop_first(), name)
    }
}

/// The entries once `value` is the one value of `name`.
pub open spec fn inserted(
    entries: Seq<(Seq<char>, Seq<Seq<u8>>)>,
    name: Seq<char>,
    value: Seq<u8>,
) -> Seq<(Seq<char>, Seq<Seq<u8>>)> {
    let at = place(entries, name);
    if at < entries.len() {
        entries.update(at, (name, seq![value]))
    } else {
        entries.push((name, seq![value]))
    }
}

/// The entries once `value` is the last value of `name`.
pub open spec fn appended(
    entries: Seq<(Seq<char>, Seq<Seq<u8>>)>,
    name: Seq<char>,
    value: Seq<u8>,
) -> Seq<(Seq<char>, Seq<Seq<u8>>)> {
    let at = place(entries, name);
    if at < entries.len() {
        entries.update(at, (name, entries[at].1.push(value)))
    } else {
        entries.push((name, seq![value]))
    }
}

/// The first value of `name`, a name in lower case.
pub open spec fn first_value(
    entries: Seq<(Seq<char>, Seq<Seq<u8>>)>,
    name: Seq<char>,
) -> Option<Seq<u8>> {
    let at = place(entries, name);
    if at < entries.len() {
        Some(entries[at].1[0])
    } else {
        None
    }
}

/// One line for each value of each entry, in their order.
pub open spec fn field_lines(entries: Seq<(Seq<char>, Seq<Seq<u8>>)>) -> Seq<(Seq<char>, Seq<u8>)>
    decreases entries.len(),
{
    if entries.len() == 0 {
        seq![]
    } else {
        let last = entries.last();
        field_lines(entries.drop_last()) + Seq::new(last.1.len(), |i: int| (last.0, last.1[i]))
    }
}

/// The text and bytes of a list of fields.
pub open spec fn fields_view(fields: Seq<(String, Vec<u8>)>) -> Seq<(Seq<char>, Seq<u8>)> {
    Seq::new(fields.len(), |i: int| (fields[i].0@, fields[i].1@))
}

/// The place of a name is that of the first entry with this name.
pub proof fn lemma_place(entries: Seq<(Seq<char>, Seq<Seq<u8>>)>, name: Seq<char>)
    ensures
        0 <= place(entries, name) <= entries.len(),
        place(entries, name) < entries.len() ==> entries[place(entries, name)].0 == name,
        forall|i: int| 0 <= i < place(entries, name) ==> (#[trigger] entries[i]).0 != name,
    decreases entries.len(),
{
    if entries.len() > 0 && entries[0].0 != name {
        let rest = entries.drop_first();
        lemma_place(rest, name);
        assert forall|i: int| 0 <= i < place(entries, name) implies (
        #[trigger] entries[i]).0 != name by {
            if i > 0 {
                assert(entries[i] == rest[i - 1]);
            }
        }
    }
}

/// The place of a name that has an entry, where no entry before has the name.
pub proof fn lemma_found(entries: Seq<(Seq<char>, Seq<Seq<u8>>)>, name: Seq<char>, at: int)
    requires
        0 <= at <= entries.len(),
        at < entries.len() ==> entries[at].0 == name,
        forall|i: int| 0 <= i < at ==> (#[trigger] entries[i]).0 != name,
    ensures
        place(entries, name) == at,
{
    lemma_place(entries, name);
    let found = place(entries, name);
    if found < at {
        assert(entries[found].0 != name);
    } else if at < found {
        assert(entries[at].0 != name);
    }
}

/// Calls `http::HeaderMap::new`, which makes a map without entries.
#[verifier::external_body]
pub(crate) fn new_headers() -> (map: http::HeaderMap<http::HeaderValue>)
    ensures
        header_entries(map) == Seq::<(Seq<char>, Seq<Seq<u8>>)>::empty(),
{
    http::HeaderMap::new()
}

/// Calls `http::header::HeaderName::from_bytes`, which takes exactly the valid
/// names and puts their ASCII letters in lower case.
#[verifier::external_body]
pub(crate) fn header_name(name: &str) -> (r: Option<String>)
    ensures
        r is Some <==> valid_name(name@),
        r matches Some(text) ==> text@ == lower(name@),
{
    http::header::HeaderName::from_bytes(name.as_bytes()).ok().map(|n| n.as_str().to_string())
}

/// Calls `http::HeaderValue::from_bytes`, which takes exactly the valid values
/// and keeps their bytes.
#[verifier::external_body]
pub(crate) fn header_value(value: &[u8]) -> (r: Option<Vec<u8>>)
    ensures
        r is Some <==> valid_value(value@),
        r matches Some(bytes) ==> bytes@ == value@,
{
    http::HeaderValue::from_bytes(value).ok().map(|v| v.as_bytes().to_vec())
}

/// Calls `http::HeaderMap::insert`, which puts the value in the place of all
/// earlier values of the name, or the name behind the others where it is new. It
/// panics only where the map is too large to grow.
#[verifier::external_body]
pub(crate) fn insert_header(
    map: &mut http::HeaderMap<http::HeaderValue>,
    name: &str,
    value: &[u8],
)
    requires
        valid_name(name@),
        valid_value(value@),
        header_entries(*old(map)).len() < MAX_ENTRIES,
    ensures
        header_entries(*final(map)) == inserted(header_entries(*old(map)), lower(name@), value@),
{
    let name = http::header::HeaderName::from_bytes(name.as_bytes()).unwrap();
    map.insert(name, http::HeaderValue::from_bytes(value).unwrap());
}

/// Calls `http::HeaderMap::append`, which puts the value behind the earlier
/// values of the name, or the name behind the others where it is new. It panics
/// only where the map is too large to grow.
#[verifier::external_body]
pub(crate) fn append_header(
    map: &mut http::HeaderMap<http::HeaderValue>,
    name: &str,
    value: &str,
)
    requires
        valid_name(name@),
        valid_text(value@),
        header_entries(*old(map)).len() < MAX_ENTRIES,
    ensures
        header_entries(*final(map)) == appended(
            header_entries(*old(map)),
            lower(name@),
            vstd::utf8::encode_utf8(value@),
        ),
{
    let name = http::header::HeaderName::from_bytes(name.as_bytes()).unwrap();
    map.append(name, http::HeaderValue::from_str(value).unwrap());
}

/// Calls `http::HeaderMap::get`, which finds the first value of a name, whatever
/// the case of its letters, and nothing for a text that is no name.
#[verifier::external_body]
pub(crate) fn get_header<'a>(
    map: &'a http::HeaderMap<http::HeaderValue>,
    name: &str,
) -> (r: Option<&'a [u8]>)
    ensures
        (match r {
            Some(value) => Some(value@),
            None => None,
        }) == (if valid_name(name@) {
            first_value(header_entries(*map), lower(name@))
        } else {
            None
        }),
{
    map.get(name).map(http::HeaderValue::as_bytes)
}

/// Calls `http::HeaderMap::iter`, which walks the entries in their order and the
/// values of each in theirs.
#[verifier::external_body]
pub(crate) fn list_headers(map: &http::HeaderMap<http::HeaderValue>) -> (r: Vec<(String, Vec<u8>)>)
    ensures
        fields_view(r@) == field_lines(header_entries(*map)),
{
    map.iter().map(|(n, v)| (n.as_str().to_string(), v.as_bytes().to_vec())).collect()
}

} // verus!
