//! JSON values and string literals: the library's model of a parsed JSON
//! document, its strings in document order, and the two serde_json calls
//! the library makes on plain text (quoting and decoding a string literal).

use vstd::prelude::*;
use vstd::string::to_string_from_display_ensures;

verus! {

/// serde_json's error type, carried through as an opaque value.
#[verifier::external_type_specification]
#[verifier::external_body]
pub struct ExJsonError(serde_json::Error);

/// A hexadecimal digit in lower case, for `d < 16`.
pub open spec fn hex_digit(d: nat) -> char {
    if d < 10 {
        crate::text::digit(d)
    } else if d == 10 {
        'a'
    } else if d == 11 {
        'b'
    } else if d == 12 {
        'c'
    } else if d == 13 {
        'd'
    } else if d == 14 {
        'e'
    } else {
        'f'
    }
}

/// How serde_json writes one character inside a string literal: a quote
/// and a backslash behind a backslash, five control characters by their
/// short escapes, the other characters below U+0020 as `\u00xx`, and
/// everything else as it is.
pub open spec fn json_escape_char(c: char) -> Seq<char> {
    if c == '"' {
        seq!['\\', '"']
    } else if c == '\\' {
        seq!['\\', '\\']
    } else if c == '\u{8}' {
        seq!['\\', 'b']
    } else if c == '\t' {
        seq!['\\', 't']
    } else if c == '\n' {
        seq!['\\', 'n']
    } else if c == '\u{c}' {
        seq!['\\', 'f']
    } else if c == '\r' {
        seq!['\\', 'r']
    } else if (c as u32) < 0x20 {
        seq!['\\', 'u', '0', '0', hex_digit((c as u32 / 16) as nat), hex_digit((c as u32 % 16) as nat)]
    } else {
        seq![c]
    }
}

/// The characters of `s`, each written as `json_escape_char` writes it.
pub open spec fn json_escaped(s: Seq<char>) -> Seq<char>
    decreases s.len(),
{
    if s.len() == 0 {
        Seq::empty()
    } else {
        json_escaped(s.drop_last()) + json_escape_char(s.last())
    }
}

/// The JSON string literal that serde_json writes for `s`.
pub open spec fn json_quoted(s: Seq<char>) -> Seq<char> {
    seq!['"'] + json_escaped(s) + seq!['"']
}

/// A character that serde_json writes as it is.
pub open spec fn is_plain_json_char(c: char) -> bool {
    c != '"' && c != '\\' && (c as u32) >= 0x20
}

/// A text of plain characters is quoted by putting it between quotes.
pub proof fn quoting_keeps_plain_text(s: Seq<char>)
    requires
        forall|i: int| 0 <= i < s.len() ==> is_plain_json_char(#[trigger] s[i]),
    ensures
        json_escaped(s) == s,
        json_quoted(s) == seq!['"'] + s + seq!['"'],
    decreases s.len(),
{
    if s.len() > 0 {
        let init = s.drop_last();
        assert forall|i: int| 0 <= i < init.len() implies is_plain_json_char(#[trigger] init[i]) by {
            assert(init[i] == s[i]);
        }
        quoting_keeps_plain_text(init);
        assert(is_plain_json_char(s[s.len() - 1]));
        assert(json_escaped(s) =~= s);
    } else {
        assert(json_escaped(s) =~= s);
    }
}

/// What serde_json reads from the JSON text `text` as a `String`: the
/// string, where `text` is one JSON string literal (with optional white
/// space around it), or else the text of the error it reports.
pub uninterp spec fn json_string_value(text: Seq<char>) -> Result<Seq<char>, Seq<char>>;

/// `serde_json::to_string` on a `str`: the string as a JSON string literal.
/// Claims that the call succeeds, with `json_quoted` of the argument: a
/// `str` is written through `format_escaped_str` into an in-memory buffer,
/// which cannot fail, escaping by serde_json's table of escapes.
#[verifier::external_body]
pub(crate) fn quote_json_string(s: &str) -> (res: Result<String, serde_json::Error>)
    ensures
        res is Ok,
        res matches Ok(q) ==> q@ == json_quoted(s@),
{
    serde_json::to_string(s)
}

/// The JSON string literal for `s`.
pub fn quoted(s: &str) -> (res: String)
    ensures
        res@ == json_quoted(s@),
{
    quote_json_string(s).unwrap()
}

/// `serde_json::from_str::<String>`: decodes a JSON string literal.
/// Claims that it succeeds exactly where `json_string_value` is `Ok`, with
/// that string, and that the error it returns otherwise displays as the
/// error text of `json_string_value` (serde_json's message and position,
/// which depend on the text alone).
#[verifier::external_body]
pub(crate) fn decode_json_string(text: &str) -> (res: Result<String, serde_json::Error>)
    ensures
        res is Ok <==> json_string_value(text@) is Ok,
        res matches Ok(v) ==> v@ == json_string_value(text@)->Ok_0,
        res matches Err(e) ==> forall|m: String|
            #[trigger] to_string_from_display_ensures::<serde_json::Error>(&e, m) ==> m@
                == json_string_value(text@)->Err_0,
{
    serde_json::from_str::<String>(text)
}

/// A parsed JSON document. Numbers are kept as their text; the members of
/// an object are kept in the order in which the parser lists them.
pub enum Json {
    Null,
    Bool(bool),
    Number(String),
    Str(String),
    Array(Vec<Json>),
    Object(Vec<(String, Json)>),
}

/// Every string value in `j`, in document order: an array's items in turn,
/// an object's member values in turn (member names are not values).
pub open spec fn json_strings(j: Json) -> Seq<Seq<char>>
    decreases j,
{
    match j {
        Json::Str(s) => seq![s@],
        Json::Array(items) => items_strings(items@),
        Json::Object(members) => members_strings(members@),
        _ => Seq::empty(),
    }
}

/// The string values of a run of array items, in order.
pub open spec fn items_strings(items: Seq<Json>) -> Seq<Seq<char>>
    decreases items,
{
    if items.len() == 0 {
        Seq::empty()
    } else {
        items_strings(items.drop_last()) + json_strings(items.last())
    }
}

/// The string values of a run of object members, in order.
pub open spec fn members_strings(members: Seq<(String, Json)>) -> Seq<Seq<char>>
    decreases members,
{
    if members.len() == 0 {
        Seq::empty()
    } else {
        members_strings(members.drop_last()) + json_strings(members.last().1)
    }
}

/// The strings of a run of members split where the run is split.
pub proof fn members_strings_concatenate(a: Seq<(String, Json)>, b: Seq<(String, Json)>)
    ensures
        members_strings(a + b) == members_strings(a) + members_strings(b),
    decreases b.len(),
{
    if b.len() == 0 {
        assert(a + b =~= a);
        assert(members_strings(a) + members_strings(b) =~= members_strings(a));
    } else {
        members_strings_concatenate(a, b.drop_last());
        assert((a + b).drop_last() =~= a + b.drop_last());
        assert((a + b).last() == b.last());
    }
}

/// The strings of a run of items split where the run is split.
pub proof fn items_strings_concatenate(a: Seq<Json>, b: Seq<Json>)
    ensures
        items_strings(a + b) == items_strings(a) + items_strings(b),
    decreases b.len(),
{
    if b.len() == 0 {
        assert(a + b =~= a);
        assert(items_strings(a) + items_strings(b) =~= items_strings(a));
    } else {
        items_strings_concatenate(a, b.drop_last());
        assert((a + b).drop_last() =~= a + b.drop_last());
        assert((a + b).last() == b.last());
    }
}

/// A string value is found as itself.
pub proof fn string_value_is_found(s: String)
    ensures
        json_strings(Json::Str(s)) == seq![s@],
{
}

/// An object with one member holds exactly the strings of that member's
/// value, whatever the value is (another object, an array, a string).
pub proof fn single_member_object_strings(members: Vec<(String, Json)>)
    requires
        members@.len() == 1,
    ensures
        json_strings(Json::Object(members)) == json_strings(members@[0].1),
{
    assert(members@.drop_last().len() == 0);
    assert(members@.last() == members@[0]);
    assert(members_strings(members@.drop_last()) =~= Seq::<Seq<char>>::empty());
    assert(json_strings(Json::Object(members)) =~= json_strings(members@[0].1));
}

/// An array with one item holds exactly the strings of that item.
pub proof fn single_item_array_strings(items: Vec<Json>)
    requires
        items@.len() == 1,
    ensures
        json_strings(Json::Array(items)) == json_strings(items@[0]),
{
    assert(items@.drop_last().len() == 0);
    assert(items@.last() == items@[0]);
    assert(items_strings(items@.drop_last()) =~= Seq::<Seq<char>>::empty());
    assert(json_strings(Json::Array(items)) =~= json_strings(items@[0]));
}

/// An object's strings are those of its first members followed by those of
/// its remaining members, and likewise for an array's items: every string
/// at any depth is found, in document order.
pub proof fn container_strings_split(
    object: Vec<(String, Json)>,
    front: Vec<(String, Json)>,
    back: Vec<(String, Json)>,
    array: Vec<Json>,
    head: Vec<Json>,
    tail: Vec<Json>,
)
    requires
        object@ == front@ + back@,
        array@ == head@ + tail@,
    ensures
        json_strings(Json::Object(object)) == json_strings(Json::Object(front)) + json_strings(
            Json::Object(back),
        ),
        json_strings(Json::Array(array)) == json_strings(Json::Array(head)) + json_strings(
            Json::Array(tail),
        ),
{
    members_strings_concatenate(front@, back@);
    items_strings_concatenate(head@, tail@);
}

/// Appends every string value of `j`, in document order, to `out`.
pub fn collect_strings(j: &Json, out: &mut Vec<String>)
    ensures
        final(out)@.map_values(|s: String| s@) == old(out)@.map_values(|s: String| s@)
            + json_strings(*j),
    decreases j,
{
    match j {
        Json::Str(s) => {
            out.push(s.clone());
            assert(final(out)@.map_values(|s: String| s@) =~= old(out)@.map_values(
                |s: String| s@,
            ) + json_strings(*j));
        },
        Json::Array(items) => {
            let ghost start = out@.map_values(|s: String| s@);
            let mut i: usize = 0;
            while i < items.len()
                invariant
                    *j == Json::Array(*items),
                    0 <= i <= items.len(),
                    out@.map_values(|s: String| s@) == start + items_strings(
                        items@.take(i as int),
                    ),
                decreases items.len() - i,
            {
                assert(items@.take((i + 1) as int).drop_last() =~= items@.take(i as int));
                assert(decreases_to!(*j => (*j)->Array_0));
                assert(decreases_to!(*items => items@));
                assert(decreases_to!(items@ => items@[i as int]));
                collect_strings(&items[i], out);
                i = i + 1;
            }
            assert(items@.take(items.len() as int) =~= items@);
        },
        Json::Object(members) => {
            let ghost start = out@.map_values(|s: String| s@);
            let mut i: usize = 0;
            while i < members.len()
                invariant
                    *j == Json::Object(*members),
                    0 <= i <= members.len(),
                    out@.map_values(|s: String| s@) == start + members_strings(
                        members@.take(i as int),
                    ),
                decreases members.len() - i,
            {
                assert(members@.take((i + 1) as int).drop_last() =~= members@.take(i as int));
                assert(decreases_to!(*j => (*j)->Object_0));
                assert(decreases_to!(*members => members@));
                assert(decreases_to!(members@ => members@[i as int]));
                assert(decreases_to!(members@[i as int] => members@[i as int].1));
                collect_strings(&members[i].1, out);
                i = i + 1;
            }
            assert(members@.take(members.len() as int) =~= members@);
        },
        _ => {
            assert(final(out)@.map_values(|s: String| s@) =~= old(out)@.map_values(
                |s: String| s@,
            ) + json_strings(*j));
        },
    }
}

} // verus!
