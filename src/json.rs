use vstd::prelude::*;

verus! {

/// A JSON document as a tree of plain values.
///
/// Numbers keep their textual form: nothing in this library computes with
/// them. An object keeps its members in document order.
#[derive(Debug)]
pub enum Json {
    Null,
    Bool(bool),
    Number(String),
    Str(String),
    Array(Vec<Json>),
    Object(Vec<(String, Json)>),
}

/// The value of the first member named `key` among `members`.
pub open spec fn find_member(members: Seq<(String, Json)>, key: Seq<char>) -> Option<Json>
    decreases members.len(),
{
    if members.len() == 0 {
        None
    } else if members[0].0@ == key {
        Some(members[0].1)
    } else {
        find_member(members.drop_first(), key)
    }
}

/// The member `key` of `j`, when `j` is present and an object that has it.
pub open spec fn at(j: Option<Json>, key: Seq<char>) -> Option<Json> {
    match j {
        Some(Json::Object(members)) => find_member(members@, key),
        _ => None,
    }
}

/// The string that `j` holds, when it is present and a string.
pub open spec fn text(j: Option<Json>) -> Option<Seq<char>> {
    match j {
        Some(Json::Str(s)) => Some(s@),
        _ => None,
    }
}

/// The string that `j` holds, or the empty string when it holds none.
pub open spec fn text_or_empty(j: Option<Json>) -> Seq<char> {
    match text(j) {
        Some(s) => s,
        None => Seq::empty(),
    }
}

/// The elements of `j` when it is an array; no elements otherwise.
pub open spec fn elements(j: Option<Json>) -> Seq<Json> {
    match j {
        Some(Json::Array(items)) => items@,
        _ => Seq::empty(),
    }
}

/// The element at `i` of `j`, when `j` is an array that long.
pub open spec fn element(j: Option<Json>, i: int) -> Option<Json> {
    match j {
        Some(Json::Array(items)) => if 0 <= i < items@.len() {
            Some(items@[i])
        } else {
            None
        },
        _ => None,
    }
}

/// Whether `j` is present and an object.
pub open spec fn is_object(j: Option<Json>) -> bool {
    j matches Some(Json::Object(_))
}

/// Forgets the borrow of an optional reference.
pub open spec fn deref_opt(j: Option<&Json>) -> Option<Json> {
    match j {
        Some(v) => Some(*v),
        None => None,
    }
}

/// Forgets the borrow of an optional string slice, keeping its characters.
pub open spec fn str_view(s: Option<&str>) -> Option<Seq<char>> {
    match s {
        Some(v) => Some(v@),
        None => None,
    }
}

/// Forgets an optional owned string, keeping its characters.
pub open spec fn string_view(s: Option<String>) -> Option<Seq<char>> {
    match s {
        Some(v) => Some(v@),
        None => None,
    }
}

/// Looks up the member `key` of `j`; absent when `j` is absent, not an
/// object, or has no such member.
pub fn member<'a>(j: Option<&'a Json>, key: &str) -> (r: Option<&'a Json>)
    ensures
        deref_opt(r) == at(deref_opt(j), key@),
{
    match j {
        Some(Json::Object(members)) => {
            let wanted = key.to_owned();
            let mut i: usize = 0;
            assert(members@.subrange(0, members@.len() as int) =~= members@);
            while i < members.len()
                invariant
                    0 <= i <= members@.len(),
                    wanted@ == key@,
                    deref_opt(j) == Some(Json::Object(*members)),
                    find_member(members@, key@) == find_member(members@.subrange(i as int, members@.len() as int), key@),
                decreases members.len() - i,
            {
                let ghost rest = members@.subrange(i as int, members@.len() as int);
                assert(rest.drop_first() =~= members@.subrange(i + 1, members@.len() as int));
                assert(rest[0] == members@[i as int]);
                if members[i].0 == wanted {
                    return Some(&members[i].1);
                }
                i = i + 1;
            }
            None
        },
        _ => None,
    }
}

/// The string held by `j`, when it is present and a string.
pub fn as_text<'a>(j: Option<&'a Json>) -> (r: Option<&'a str>)
    ensures
        str_view(r) == text(deref_opt(j)),
{
    match j {
        Some(Json::Str(s)) => Some(s.as_str()),
        _ => None,
    }
}

/// An owned copy of the string held by `j`, when it is present and a string.
pub fn as_string(j: Option<&Json>) -> (r: Option<String>)
    ensures
        string_view(r) == text(deref_opt(j)),
{
    match j {
        Some(Json::Str(s)) => Some(s.clone()),
        _ => None,
    }
}

/// An owned copy of the string held by `j`, or the empty string.
pub fn as_string_or_empty(j: Option<&Json>) -> (r: String)
    ensures
        r@ == text_or_empty(deref_opt(j)),
{
    match j {
        Some(Json::Str(s)) => s.clone(),
        _ => String::new(),
    }
}

/// The elements of `j` when it is an array.
pub fn as_elements<'a>(j: Option<&'a Json>) -> (r: Option<&'a Vec<Json>>)
    ensures
        match r {
            Some(v) => deref_opt(j) == Some(Json::Array(*v)),
            None => !(deref_opt(j) matches Some(Json::Array(_))),
        },
{
    match j {
        Some(Json::Array(items)) => Some(items),
        _ => None,
    }
}

/// The element at `i` of `j`, when `j` is an array that long.
pub fn element_at<'a>(j: Option<&'a Json>, i: usize) -> (r: Option<&'a Json>)
    ensures
        deref_opt(r) == element(deref_opt(j), i as int),
{
    match j {
        Some(Json::Array(items)) => if i < items.len() {
            Some(&items[i])
        } else {
            None
        },
        _ => None,
    }
}

/// Whether `j` is present and an object.
pub fn is_obj(j: Option<&Json>) -> (r: bool)
    ensures
        r == is_object(deref_opt(j)),
{
    match j {
        Some(Json::Object(_)) => true,
        _ => false,
    }
}

} // verus!
