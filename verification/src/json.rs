use vstd::prelude::*;

use crate::text::same_text;

verus! {

/// Whether `text` is one JSON value, as `serde_json::from_str::<serde_json::Value>` accepts it.
pub uninterp spec fn is_json(text: Seq<char>) -> bool;

/// For a JSON text that holds an object, its members in the order `serde_json`'s map walks
/// them: each key, with the member's value where that value is a JSON string. For any other
/// text, `None`.
pub uninterp spec fn json_object_members(text: Seq<char>) -> Option<Seq<(Seq<char>, Option<Seq<char>>)>>;

/// The JSON value that `text` holds, printed by `serde_json::to_string_pretty`.
pub uninterp spec fn json_pretty(text: Seq<char>) -> Option<Seq<char>>;

/// The JSON value that `text` holds, printed by `serde_json::to_string`.
pub uninterp spec fn json_compact(text: Seq<char>) -> Option<Seq<char>>;

/// The characters of an optional string.
pub open spec fn opt_chars(o: Option<String>) -> Option<Seq<char>> {
    match o {
        Some(s) => Some(s@),
        None => None,
    }
}

/// One object member, by the characters of its key and of its string value.
pub open spec fn member_chars(m: (String, Option<String>)) -> (Seq<char>, Option<Seq<char>>) {
    (m.0@, opt_chars(m.1))
}

/// Object members, by characters.
pub open spec fn members_chars(ms: Seq<(String, Option<String>)>) -> Seq<(Seq<char>, Option<Seq<char>>)> {
    ms.map_values(|m: (String, Option<String>)| member_chars(m))
}

/// Optional object members, by characters.
pub open spec fn opt_members_chars(o: Option<Vec<(String, Option<String>)>>) -> Option<Seq<(Seq<char>, Option<Seq<char>>)>> {
    match o {
        Some(ms) => Some(members_chars(ms@)),
        None => None,
    }
}

/// Whether `text` is a JSON text.
///
/// Calls `serde_json::from_str::<serde_json::Value>` and reports whether it succeeded; the
/// contract names that outcome `is_json(text)`.
#[verifier::external_body]
pub(crate) fn parses_as_json(text: &str) -> (ok: bool)
    ensures
        ok == is_json(text@),
{
    serde_json::from_str::<serde_json::Value>(text).is_ok()
}

/// The members of the JSON object that `text` holds: each key, with the member's value
/// where it is a string (`serde_json::Value::as_str`).
///
/// Parses `text` with `serde_json::from_str::<serde_json::Value>` and walks the map that
/// `serde_json::Value::as_object` gives. The contract names the result
/// `json_object_members(text)`, and states two facts the source shows: there is a result only
/// for a JSON text (the parse came first), and no key occurs twice (the map is a `BTreeMap`).
#[verifier::external_body]
pub(crate) fn object_members(text: &str) -> (res: Option<Vec<(String, Option<String>)>>)
    ensures
        match res {
            Some(ms) => json_object_members(text@) == Some(members_chars(ms@)),
            None => json_object_members(text@) is None,
        },
        res is Some ==> is_json(text@),
        res matches Some(ms) ==> forall|i: int, j: int|
            0 <= i < j < ms@.len() ==> ms@[i].0@ != ms@[j].0@,
{
    let value = serde_json::from_str::<serde_json::Value>(text).ok()?;
    let map = value.as_object()?;
    let mut members = Vec::new();
    for (key, member) in map {
        members.push((key.clone(), member.as_str().map(|s| s.to_string())));
    }
    Some(members)
}

/// The JSON value of `text`, pretty-printed.
///
/// Parses `text` with `serde_json::from_str::<serde_json::Value>` and prints the value with
/// `serde_json::to_string_pretty`; either failure gives `None`. The contract names the
/// result `json_pretty(text)` and states that there is one exactly for a JSON text: printing
/// a `serde_json::Value` cannot fail (its map keys are strings and it is written to memory).
#[verifier::external_body]
pub(crate) fn pretty_json(text: &str) -> (res: Option<String>)
    ensures
        opt_chars(res) == json_pretty(text@),
        res is Some <==> is_json(text@),
{
    let value = serde_json::from_str::<serde_json::Value>(text).ok()?;
    serde_json::to_string_pretty(&value).ok()
}

/// The JSON value of `text`, printed compactly.
///
/// Parses `text` with `serde_json::from_str::<serde_json::Value>` and prints the value with
/// `serde_json::to_string`; either failure gives `None`. The contract names the result
/// `json_compact(text)` and states that there is one exactly for a JSON text: printing a
/// `serde_json::Value` cannot fail (its map keys are strings and it is written to memory).
#[verifier::external_body]
pub(crate) fn compact_json(text: &str) -> (res: Option<String>)
    ensures
        opt_chars(res) == json_compact(text@),
        res is Some <==> is_json(text@),
{
    let value = serde_json::from_str::<serde_json::Value>(text).ok()?;
    serde_json::to_string(&value).ok()
}

/// The string value of the first member named `key`, if it is a string.
pub open spec fn member_string(ms: Seq<(Seq<char>, Option<Seq<char>>)>, key: Seq<char>) -> Option<Seq<char>>
    decreases ms.len(),
{
    if ms.len() == 0 {
        None
    } else if ms[0].0 == key {
        ms[0].1
    } else {
        member_string(ms.drop_first(), key)
    }
}

/// The string held by member `key` of an object, as `value.get(key).and_then(as_str)` gives
/// it: `None` when there is no object, no such member, or the member is not a string.
pub open spec fn string_field(members: Option<Seq<(Seq<char>, Option<Seq<char>>)>>, key: Seq<char>) -> Option<Seq<char>> {
    match members {
        Some(ms) => member_string(ms, key),
        None => None,
    }
}

/// The string value of the first member of `ms` named `key` (see `member_string`).
pub fn find_string_member(ms: &Vec<(String, Option<String>)>, key: &str) -> (r: Option<String>)
    ensures
        opt_chars(r) == member_string(members_chars(ms@), key@),
{
    let ghost all = members_chars(ms@);
    let mut i: usize = 0;
    assert(all.skip(0) == all);
    while i < ms.len()
        invariant
            0 <= i <= ms.len(),
            all == members_chars(ms@),
            member_string(all, key@) == member_string(all.skip(i as int), key@),
        decreases ms.len() - i,
    {
        let ghost rest = all.skip(i as int);
        assert(rest[0] == member_chars(ms@[i as int]));
        assert(rest.drop_first() == all.skip(i + 1));
        if same_text(ms[i].0.as_str(), key) {
            let found: Option<String> = match &ms[i].1 {
                Some(s) => Some(s.clone()),
                None => None,
            };
            assert(opt_chars(found) == opt_chars(ms@[i as int].1));
            return found;
        }
        i = i + 1;
    }
    None
}

/// The string held by member `key` of an object (see `string_field`).
pub fn find_string_field(members: &Option<Vec<(String, Option<String>)>>, key: &str) -> (r: Option<String>)
    ensures
        opt_chars(r) == string_field(opt_members_chars(*members), key@),
{
    if let Some(ms) = members {
        find_string_member(ms, key)
    } else {
        None
    }
}

} // verus!
