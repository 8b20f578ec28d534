//! Finding the menu in the canteen's web page. The page embeds its
//! application state as a JSON string literal, the longest one that names
//! all five weekdays, whose value is itself a JSON document; the menu is the
//! longest string in that document that names all five weekdays.

use vstd::prelude::*;
use vstd::string::*;

use crate::json::{collect_strings, decode_json_string, json_string_value, json_strings, Json};
use crate::text::{byte_len, concat, contains_seq, contains_str, decimal, decimal_string, str_byte_len};

verus! {

broadcast use vstd::string::group_string_axioms;

/// A regular expression for one double-quoted string literal with
/// backslash escapes.
pub const STRING_LITERAL_PATTERN: &'static str = "\"(?:[^\"\\\\]|\\\\.)*\"";

/// The texts of the successive non-overlapping leftmost-first matches of
/// the regular expression `pattern` in `haystack`, as the `regex` crate
/// finds them; `None` where `pattern` is not a valid expression.
pub uninterp spec fn regex_find_all(pattern: Seq<char>, haystack: Seq<char>) -> Option<Seq<Seq<char>>>;

/// `regex::Regex::new(pattern)` followed by `find_iter(haystack)`, each
/// match taken as its text. Claims that the result is `regex_find_all` of
/// the arguments.
#[verifier::external_body]
fn find_all_matches(pattern: &str, haystack: &str) -> (res: Option<Vec<String>>)
    ensures
        res is Some <==> regex_find_all(pattern@, haystack@) is Some,
        res matches Some(v) ==> v@.map_values(|m: String| m@) == regex_find_all(pattern@, haystack@)->0,
{
    match regex::Regex::new(pattern) {
        Ok(re) => Some(re.find_iter(haystack).map(|m| m.as_str().to_string()).collect()),
        Err(_) => None,
    }
}

// ---------------------------------------------------------------------------
// Models
// ---------------------------------------------------------------------------

/// A text that names all five weekdays: a literal that may hold the
/// application state, or a string that may be the menu.
pub open spec fn names_all_weekdays(s: Seq<char>) -> bool {
    &&& contains_seq(s, "Mandag"@)
    &&& contains_seq(s, "Tirsdag"@)
    &&& contains_seq(s, "Onsdag"@)
    &&& contains_seq(s, "Torsdag"@)
    &&& contains_seq(s, "Fredag"@)
}

/// Among the literals that name all five weekdays, one of greatest byte length,
/// the last such where several are equally long; `None` where no literal
/// names them.
pub open spec fn longest_state_literal(lits: Seq<Seq<char>>) -> Option<Seq<char>>
    decreases lits.len(),
{
    if lits.len() == 0 {
        None
    } else {
        let prev = longest_state_literal(lits.drop_last());
        let l = lits.last();
        if names_all_weekdays(l) && (prev matches Some(p) ==> byte_len(p) <= byte_len(l)) {
            Some(l)
        } else {
            prev
        }
    }
}

/// Among the strings that name all five weekdays, the first of greatest
/// byte length; the empty text where none of them has a positive length.
pub open spec fn longest_menu_string(strs: Seq<Seq<char>>) -> Seq<char>
    decreases strs.len(),
{
    if strs.len() == 0 {
        Seq::empty()
    } else {
        let prev = longest_menu_string(strs.drop_last());
        let s = strs.last();
        if names_all_weekdays(s) && byte_len(s) > byte_len(prev) {
            s
        } else {
            prev
        }
    }
}

/// The error for a page without a suitable literal.
pub open spec fn no_literal_message(page_bytes: nat) -> Seq<char> {
    "could not find a JSON string containing weekday markers in page ("@ + decimal(page_bytes)
        + " bytes); the menu encoding may have changed"@
}

pub open spec fn decode_failure_prefix() -> Seq<char> {
    "decode outer JSON string literal: "@
}

pub open spec fn state_parse_prefix() -> Seq<char> {
    "parse SPA state JSON: "@
}

pub open spec fn no_menu_message() -> Seq<char> {
    "no string in SPA state contains all five weekday markers"@
}

pub open spec fn bad_pattern_message() -> Seq<char> {
    "invalid string literal pattern"@
}

/// The error for a page fetched with a status outside 200..300.
pub open spec fn page_status_message(status: nat) -> Seq<char> {
    "non-2xx ("@ + decimal(status) + ") from tullin.munu.shop/meny"@
}

// ---------------------------------------------------------------------------
// Laws
// ---------------------------------------------------------------------------

/// The state literal chosen from a page is one of its literals, names all five
/// weekdays, is at least as long as every other literal that does, and is
/// strictly longer than every such literal after it; there is none exactly
/// when no literal names all five weekdays.
pub proof fn longest_state_literal_is_last_longest(lits: Seq<Seq<char>>)
    ensures
        longest_state_literal(lits) is None <==> (forall|j: int|
            0 <= j < lits.len() ==> !names_all_weekdays(#[trigger] lits[j])),
        longest_state_literal(lits) matches Some(l) ==> exists|i: int|
            0 <= i < lits.len() && lits[i] == l && names_all_weekdays(l) && (forall|j: int|
                0 <= j < lits.len() && names_all_weekdays(#[trigger] lits[j]) ==> byte_len(
                    lits[j],
                ) <= byte_len(l)) && (forall|j: int|
                i < j < lits.len() && names_all_weekdays(#[trigger] lits[j]) ==> byte_len(
                    lits[j],
                ) < byte_len(l)),
    decreases lits.len(),
{
    if lits.len() > 0 {
        let init = lits.drop_last();
        longest_state_literal_is_last_longest(init);
        assert(forall|j: int| 0 <= j < init.len() ==> init[j] == lits[j]);
        let l = lits.last();
        match longest_state_literal(init) {
            Some(p) => {
                let i0 = choose|i: int|
                    0 <= i < init.len() && init[i] == p && names_all_weekdays(p) && (forall|j: int|
                        0 <= j < init.len() && names_all_weekdays(#[trigger] init[j])
                            ==> byte_len(init[j]) <= byte_len(p)) && (forall|j: int|
                        i < j < init.len() && names_all_weekdays(#[trigger] init[j])
                            ==> byte_len(init[j]) < byte_len(p));
                if names_all_weekdays(l) && byte_len(p) <= byte_len(l) {
                    assert(lits[lits.len() - 1] == l);
                } else {
                    assert(lits[i0] == p);
                }
            },
            None => {
                if names_all_weekdays(l) {
                    assert(lits[lits.len() - 1] == l);
                }
            },
        }
    }
}

/// The menu chosen from the state is one of its strings, names all five
/// weekdays, is at least as long as every other string that does, and is
/// strictly longer than every such string before it; it is empty exactly
/// when no string that names all five weekdays has a positive length.
pub proof fn longest_menu_string_is_first_longest(strs: Seq<Seq<char>>)
    ensures
        longest_menu_string(strs).len() == 0 <==> (forall|j: int|
            0 <= j < strs.len() ==> !(names_all_weekdays(#[trigger] strs[j]) && byte_len(strs[j])
                > 0)),
        longest_menu_string(strs).len() > 0 ==> exists|i: int|
            0 <= i < strs.len() && strs[i] == longest_menu_string(strs) && names_all_weekdays(
                strs[i],
            ) && (forall|j: int|
                0 <= j < strs.len() && names_all_weekdays(#[trigger] strs[j]) ==> byte_len(strs[j])
                    <= byte_len(strs[i])) && (forall|j: int|
                0 <= j < i && names_all_weekdays(#[trigger] strs[j]) ==> byte_len(strs[j])
                    < byte_len(strs[i])),
    decreases strs.len(),
{
    reveal_strlit("Mandag");
    if strs.len() > 0 {
        let init = strs.drop_last();
        longest_menu_string_is_first_longest(init);
        assert(forall|j: int| 0 <= j < init.len() ==> init[j] == strs[j]);
        let s = strs.last();
        let prev = longest_menu_string(init);
        assert(byte_len(Seq::<char>::empty()) == 0) by {
            assert(vstd::utf8::encode_utf8(Seq::<char>::empty()) =~= Seq::<u8>::empty());
        }
        if names_all_weekdays(s) {
            assert(s.len() > 0) by {
                let k = choose|k: int| 0 <= k && k + "Mandag"@.len() <= s.len() && #[trigger] s.subrange(k, k + "Mandag"@.len()) == "Mandag"@;
            }
        }
        if prev.len() > 0 {
            let i0 = choose|i: int|
                0 <= i < init.len() && init[i] == prev && names_all_weekdays(init[i]) && (forall|j: int|
                    0 <= j < init.len() && names_all_weekdays(#[trigger] init[j]) ==> byte_len(init[j])
                        <= byte_len(init[i])) && (forall|j: int|
                    0 <= j < i && names_all_weekdays(#[trigger] init[j]) ==> byte_len(init[j])
                        < byte_len(init[i]));
            assert(strs[i0] == prev);
            if names_all_weekdays(s) && byte_len(s) > byte_len(prev) {
                assert(strs[strs.len() - 1] == s);
            }
        } else {
            assert(byte_len(prev) == 0) by {
                assert(prev =~= Seq::<char>::empty());
            }
            if names_all_weekdays(s) && byte_len(s) > byte_len(prev) {
                assert(strs[strs.len() - 1] == s);
            }
        }
    }
}

// ---------------------------------------------------------------------------
// Executable functions
// ---------------------------------------------------------------------------

/// Whether a fetched page's status is a success; otherwise the error that
/// names it.
pub fn menu_page_status(status: u16) -> (res: Result<(), String>)
    ensures
        200 <= status < 300 ==> res is Ok,
        !(200 <= status < 300) ==> (res matches Err(m) && m@ == page_status_message(status as nat)),
{
    if 200 <= status && status < 300 {
        Ok(())
    } else {
        let msg = concat("non-2xx (", decimal_string(status as u64).as_str());
        Err(concat(msg.as_str(), ") from tullin.munu.shop/meny"))
    }
}

/// Whether `s` names all five weekdays.
pub fn has_all_weekdays(s: &str) -> (res: bool)
    ensures
        res == names_all_weekdays(s@),
{
    contains_str(s, "Mandag") && contains_str(s, "Tirsdag") && contains_str(s, "Onsdag")
        && contains_str(s, "Torsdag") && contains_str(s, "Fredag")
}

/// The literal chosen among `lits` (see `longest_state_literal`), by index.
pub fn pick_state_literal(lits: &Vec<String>) -> (res: Option<usize>)
    ensures
        match res {
            None => longest_state_literal(lits@.map_values(|m: String| m@)) is None,
            Some(i) => i < lits.len() && longest_state_literal(lits@.map_values(|m: String| m@))
                == Some(lits@[i as int]@),
        },
{
    let ghost views = lits@.map_values(|m: String| m@);
    let mut best: Option<usize> = None;
    let mut best_len: usize = 0;
    let mut i: usize = 0;
    while i < lits.len()
        invariant
            views == lits@.map_values(|m: String| m@),
            i <= lits.len(),
            match best {
                None => longest_state_literal(views.take(i as int)) is None,
                Some(b) => b < i && longest_state_literal(views.take(i as int)) == Some(views[b as int])
                    && best_len == byte_len(views[b as int]),
            },
        decreases lits.len() - i,
    {
        assert(views.take((i + 1) as int).drop_last() =~= views.take(i as int));
        let l = lits[i].as_str();
        let len = str_byte_len(l);
        if has_all_weekdays(l) && (best.is_none() || best_len <= len) {
            best = Some(i);
            best_len = len;
        }
        i = i + 1;
    }
    assert(views.take(lits.len() as int) =~= views);
    best
}

/// The decoded text of the page's state literal: the JSON document that
/// holds the menu.
pub fn state_json_in_page(page: &str) -> (res: Result<String, String>)
    ensures
        match regex_find_all(STRING_LITERAL_PATTERN@, page@) {
            None => res matches Err(m) && m@ == bad_pattern_message(),
            Some(lits) => match longest_state_literal(lits) {
                None => res matches Err(m) && m@ == no_literal_message(byte_len(page@) as nat),
                Some(lit) => match json_string_value(lit) {
                    Ok(v) => res matches Ok(s) && s@ == v,
                    Err(e) => res matches Err(m) && m@ == decode_failure_prefix() + e,
                },
            },
        },
{
    let lits = match find_all_matches(STRING_LITERAL_PATTERN, page) {
        Some(v) => v,
        None => return Err(String::from_str("invalid string literal pattern")),
    };
    match pick_state_literal(&lits) {
        None => {
            let n = decimal_string(str_byte_len(page) as u64);
            let head = concat("could not find a JSON string containing weekday markers in page (", n.as_str());
            Err(concat(head.as_str(), " bytes); the menu encoding may have changed"))
        },
        Some(i) => {
            match decode_json_string(lits[i].as_str()) {
                Ok(s) => Ok(s),
                Err(e) => {
                    let detail = e.to_string();
                    let m = concat("decode outer JSON string literal: ", detail.as_str());
                    Err(m)
                },
            }
        },
    }
}

/// The menu in the parsed state document: the first longest string that
/// names all five weekdays. `parsed` is serde_json's reading of the text
/// that `state_json_in_page` returned, or its error message.
pub fn menu_html_in_state(parsed: Result<Json, String>) -> (res: Result<String, String>)
    ensures
        match parsed {
            Err(e) => res matches Err(m) && m@ == state_parse_prefix() + e@,
            Ok(state) => {
                let best = longest_menu_string(json_strings(state));
                if best.len() == 0 {
                    res matches Err(m) && m@ == no_menu_message()
                } else {
                    res matches Ok(html) && html@ == best
                }
            },
        },
{
    let state = match parsed {
        Err(e) => return Err(concat("parse SPA state JSON: ", e.as_str())),
        Ok(j) => j,
    };
    let mut strs: Vec<String> = Vec::new();
    collect_strings(&state, &mut strs);
    assert(strs@.map_values(|s: String| s@) =~= json_strings(state));
    let ghost views = strs@.map_values(|s: String| s@);
    let mut best = String::new();
    let mut best_len: usize = 0;
    let mut i: usize = 0;
    while i < strs.len()
        invariant
            views == strs@.map_values(|s: String| s@),
            i <= strs.len(),
            best@ == longest_menu_string(views.take(i as int)),
            best_len == byte_len(best@),
        decreases strs.len() - i,
    {
        assert(views.take((i + 1) as int).drop_last() =~= views.take(i as int));
        let s = strs[i].as_str();
        let len = str_byte_len(s);
        if has_all_weekdays(s) && len > best_len {
            best = String::from_str(s);
            best_len = len;
        }
        i = i + 1;
    }
    assert(views.take(strs.len() as int) =~= views);
    if best.as_str().is_empty() {
        return Err(String::from_str("no string in SPA state contains all five weekday markers"));
    }
    Ok(best)
}

} // verus!
