use vstd::prelude::*;

use crate::decimal::{opt_u32, parse_unsigned, parse_unsigned_bounded};
use crate::json::{
    as_elements, as_string, as_string_or_empty, as_text, element, element_at, elements, is_obj,
    is_object, member, string_view, text, text_or_empty, at, deref_opt, Json,
};

verus! {

/// The number that the `value` text under `key` of `j` writes, when it fits in `max`.
pub open spec fn date_part(j: Option<Json>, key: Seq<char>, max: int) -> Option<int> {
    match text(at(at(j, key), "value"@)) {
        Some(s) => parse_unsigned(s, max),
        None => None,
    }
}

pub open spec fn opt_u8(r: Option<u8>) -> Option<int> {
    match r {
        Some(v) => Some(v as int),
        None => None,
    }
}

pub open spec fn opt_u16(r: Option<u16>) -> Option<int> {
    match r {
        Some(v) => Some(v as int),
        None => None,
    }
}

/// The pair of sub-fields `k1` and `k2` of each element of the array `j`,
/// the empty string standing for a sub-field that the element lacks.
pub open spec fn pairs_of(j: Option<Json>, k1: Seq<char>, k2: Seq<char>) -> Seq<(Seq<char>, Seq<char>)> {
    elements(j).map_values(|e: Json| (text_or_empty(at(Some(e), k1)), text_or_empty(at(Some(e), k2))))
}

/// A list-shaped field keeps one pair for each element of the array, in
/// order; a sub-field that an element lacks reads as the empty string.
pub proof fn lemma_pairs_keep_every_element(j: Option<Json>, k1: Seq<char>, k2: Seq<char>)
    ensures
        pairs_of(j, k1, k2).len() == elements(j).len(),
        forall|i: int| 0 <= i < elements(j).len() ==> {
            &&& (text(at(Some(elements(j)[i]), k1)) is None ==> (#[trigger] pairs_of(j, k1, k2)[i]).0 == Seq::<char>::empty())
            &&& (text(at(Some(elements(j)[i]), k2)) is None ==> pairs_of(j, k1, k2)[i].1 == Seq::<char>::empty())
            &&& (text(at(Some(elements(j)[i]), k1)) matches Some(s) ==> pairs_of(j, k1, k2)[i].0 == s)
            &&& (text(at(Some(elements(j)[i]), k2)) matches Some(s) ==> pairs_of(j, k1, k2)[i].1 == s)
        },
{
}

pub open spec fn pairs_view(v: Seq<(String, String)>) -> Seq<(Seq<char>, Seq<char>)> {
    v.map_values(|p: (String, String)| (p.0@, p.1@))
}

/// For each element of the array `j`, the text of each of its sub-fields
/// `parts`, or the empty string where the element lacks one; no rows when `j`
/// is not an array.
pub fn collect_parts(j: Option<&Json>, parts: &Vec<&str>) -> (r: Vec<Vec<String>>)
    ensures
        r@.len() == elements(deref_opt(j)).len(),
        forall|i: int| 0 <= i < r@.len() ==> (#[trigger] r@[i])@.len() == parts@.len(),
        forall|i: int, k: int| 0 <= i < r@.len() && 0 <= k < parts@.len()
            ==> (#[trigger] r@[i]@[k])@ == text_or_empty(at(Some(elements(deref_opt(j))[i]), parts@[k]@)),
{
    let mut rows: Vec<Vec<String>> = Vec::new();
    match as_elements(j) {
        Some(items) => {
            let mut i: usize = 0;
            while i < items.len()
                invariant
                    0 <= i <= items@.len(),
                    items@ == elements(deref_opt(j)),
                    rows@.len() == i,
                    forall|a: int| 0 <= a < i ==> (#[trigger] rows@[a])@.len() == parts@.len(),
                    forall|a: int, k: int| 0 <= a < i && 0 <= k < parts@.len()
                        ==> (#[trigger] rows@[a]@[k])@ == text_or_empty(at(Some(items@[a]), parts@[k]@)),
                decreases items.len() - i,
            {
                let mut row: Vec<String> = Vec::new();
                let mut k: usize = 0;
                while k < parts.len()
                    invariant
                        0 <= k <= parts@.len(),
                        i < items@.len(),
                        row@.len() == k,
                        forall|b: int| 0 <= b < k
                            ==> (#[trigger] row@[b])@ == text_or_empty(at(Some(items@[i as int]), parts@[b]@)),
                    decreases parts.len() - k,
                {
                    row.push(as_string_or_empty(member(Some(&items[i]), parts[k])));
                    k = k + 1;
                }
                rows.push(row);
                i = i + 1;
            }
        },
        None => {},
    }
    rows
}

/// The pairs of sub-fields `k1` and `k2` of the elements of the array `j`.
pub fn collect_pairs(j: Option<&Json>, k1: &str, k2: &str) -> (r: Vec<(String, String)>)
    ensures
        pairs_view(r@) == pairs_of(deref_opt(j), k1@, k2@),
{
    let parts: Vec<&str> = vec![k1, k2];
    let rows = collect_parts(j, &parts);
    let mut r: Vec<(String, String)> = Vec::new();
    let mut i: usize = 0;
    while i < rows.len()
        invariant
            0 <= i <= rows@.len(),
            rows@.len() == elements(deref_opt(j)).len(),
            parts@ == seq![k1, k2],
            forall|a: int| 0 <= a < rows@.len() ==> (#[trigger] rows@[a])@.len() == parts@.len(),
            forall|a: int, k: int| 0 <= a < rows@.len() && 0 <= k < parts@.len()
                ==> (#[trigger] rows@[a]@[k])@ == text_or_empty(at(Some(elements(deref_opt(j))[a]), parts@[k]@)),
            r@.len() == i,
            forall|a: int| 0 <= a < i ==> (#[trigger] r@[a]).0@ == text_or_empty(at(Some(elements(deref_opt(j))[a]), k1@))
                && r@[a].1@ == text_or_empty(at(Some(elements(deref_opt(j))[a]), k2@)),
        decreases rows.len() - i,
    {
        assert(rows@[i as int]@[0]@ == text_or_empty(at(Some(elements(deref_opt(j))[i as int]), k1@)));
        assert(rows@[i as int]@[1]@ == text_or_empty(at(Some(elements(deref_opt(j))[i as int]), k2@)));
        r.push((rows[i][0].clone(), rows[i][1].clone()));
        i = i + 1;
    }
    assert(pairs_view(r@) =~= pairs_of(deref_opt(j), k1@, k2@));
    r
}

/// A date as the source writes it: year, month and day, each present or not.
#[derive(Debug, Clone, PartialEq, Eq)]
pub struct Date {
    pub year: Option<u16>,
    pub month: Option<u8>,
    pub day: Option<u8>,
}

/// `d` is the date that `j` writes: a part is present exactly when its
/// `value` text is a number that fits the part's type.
pub open spec fn date_of(d: Date, j: Option<Json>) -> bool {
    &&& opt_u16(d.year) == date_part(j, "year"@, 0xffff)
    &&& opt_u8(d.month) == date_part(j, "month"@, 0xff)
    &&& opt_u8(d.day) == date_part(j, "day"@, 0xff)
}

fn read_part(j: Option<&Json>, key: &str, max: u32) -> (r: Option<u32>)
    ensures
        opt_u32(r) == date_part(deref_opt(j), key@, max as int),
        r matches Some(v) ==> v <= max,
{
    match as_text(member(member(j, key), "value")) {
        Some(t) => parse_unsigned_bounded(t, max),
        None => None,
    }
}

impl Date {
    pub fn new_from_json(j: &Json) -> (r: Date)
        ensures
            date_of(r, Some(*j)),
    {
        Date::from_opt(Some(j))
    }

    fn from_opt(j: Option<&Json>) -> (r: Date)
        ensures
            date_of(r, deref_opt(j)),
    {
        let year = match read_part(j, "year", 0xffff) {
            Some(v) => Some(v as u16),
            None => None,
        };
        let month = match read_part(j, "month", 0xff) {
            Some(v) => Some(v as u8),
            None => None,
        };
        let day = match read_part(j, "day", 0xff) {
            Some(v) => Some(v as u8),
            None => None,
        };
        Date { year, month, day }
    }
}

/// The publication date of a work; its year has a wider range than a [`Date`]'s.
#[derive(Debug, Clone, PartialEq, Eq)]
pub struct PublicationDate {
    pub year: Option<u32>,
    pub month: Option<u8>,
    pub day: Option<u8>,
}

/// `d` is the publication date that `j` writes.
pub open spec fn publication_date_of(d: PublicationDate, j: Option<Json>) -> bool {
    &&& opt_u32(d.year) == date_part(j, "year"@, 0xffff_ffff)
    &&& opt_u8(d.month) == date_part(j, "month"@, 0xff)
    &&& opt_u8(d.day) == date_part(j, "day"@, 0xff)
}

impl PublicationDate {
    pub fn new_from_json(j: &Json) -> (r: PublicationDate)
        ensures
            publication_date_of(r, Some(*j)),
    {
        PublicationDate::from_opt(Some(j))
    }

    fn from_opt(j: Option<&Json>) -> (r: PublicationDate)
        ensures
            publication_date_of(r, deref_opt(j)),
    {
        let year = read_part(j, "year", 0xffff_ffff);
        let month = match read_part(j, "month", 0xff) {
            Some(v) => Some(v as u8),
            None => None,
        };
        let day = match read_part(j, "day", 0xff) {
            Some(v) => Some(v as u8),
            None => None,
        };
        PublicationDate { year, month, day }
    }
}

pub open spec fn pair_view(p: Option<(String, String)>) -> Option<(Seq<char>, Seq<char>)> {
    match p {
        Some(v) => Some((v.0@, v.1@)),
        None => None,
    }
}

/// An organization: its name, where it is, and how a registry identifies it.
#[derive(Debug, Clone, PartialEq, Eq)]
pub struct Organization {
    pub name: Option<String>,
    pub city: Option<String>,
    pub region: Option<String>,
    pub country: Option<String>,
    pub disambiguated_organization: Option<(String, String)>,
}

/// The (source, identifier) pair under `disambiguated-organization` of `j`,
/// when both are present as text.
pub open spec fn disambiguation_of(j: Option<Json>) -> Option<(Seq<char>, Seq<char>)> {
    let d = at(j, "disambiguated-organization"@);
    match (text(at(d, "disambiguation-source"@)), text(at(d, "disambiguated-organization-identifier"@))) {
        (Some(src), Some(id)) => Some((src, id)),
        _ => None,
    }
}

/// `o` is the organization that `j` describes.
pub open spec fn organization_of(o: Organization, j: Option<Json>) -> bool {
    &&& string_view(o.name) == text(at(j, "name"@))
    &&& string_view(o.city) == text(at(at(j, "address"@), "city"@))
    &&& string_view(o.region) == text(at(at(j, "address"@), "region"@))
    &&& string_view(o.country) == text(at(at(j, "address"@), "country"@))
    &&& pair_view(o.disambiguated_organization) == disambiguation_of(j)
}

impl Organization {
    pub fn new_from_json(j: &Json) -> (r: Organization)
        ensures
            organization_of(r, Some(*j)),
    {
        let j = Some(j);
        let d = member(j, "disambiguated-organization");
        let disambiguated_organization = match (
            as_string(member(d, "disambiguation-source")),
            as_string(member(d, "disambiguated-organization-identifier")),
        ) {
            (Some(src), Some(id)) => Some((src, id)),
            _ => None,
        };
        let address = member(j, "address");
        Organization {
            name: as_string(member(j, "name")),
            city: as_string(member(address, "city")),
            region: as_string(member(address, "region")),
            country: as_string(member(address, "country")),
            disambiguated_organization,
        }
    }
}

pub open spec fn opt_date_of(d: Option<Date>, j: Option<Json>) -> bool {
    match d {
        Some(v) => is_object(j) && date_of(v, j),
        None => !is_object(j),
    }
}

pub open spec fn opt_organization_of(o: Option<Organization>, j: Option<Json>) -> bool {
    match o {
        Some(v) => is_object(j) && organization_of(v, j),
        None => !is_object(j),
    }
}

/// A role held at an organization over a span of time (an education or an
/// employment).
#[derive(Debug, Clone, PartialEq, Eq)]
pub struct Role {
    pub department: Option<String>,
    pub title: Option<String>,
    pub start_date: Option<Date>,
    pub end_date: Option<Date>,
    pub organization: Option<Organization>,
}

/// `r` is the role that the summary `s` describes: each date and the
/// organization are present exactly when the summary holds them as objects.
pub open spec fn role_of(r: Role, s: Json) -> bool {
    let s = Some(s);
    &&& string_view(r.department) == text(at(s, "department-name"@))
    &&& string_view(r.title) == text(at(s, "role-title"@))
    &&& opt_date_of(r.start_date, at(s, "start-date"@))
    &&& opt_date_of(r.end_date, at(s, "end-date"@))
    &&& opt_organization_of(r.organization, at(s, "organization"@))
}

impl Role {
    /// A role with every field absent.
    pub fn new() -> (r: Role)
        ensures
            r.department is None,
            r.title is None,
            r.start_date is None,
            r.end_date is None,
            r.organization is None,
    {
        Role { department: None, title: None, start_date: None, end_date: None, organization: None }
    }

    /// The role that the summary object `s` describes.
    pub fn from_summary(s: &Json) -> (r: Role)
        ensures
            role_of(r, *s),
    {
        let s = Some(s);
        let mut role = Role::new();
        role.department = as_string(member(s, "department-name"));
        role.title = as_string(member(s, "role-title"));
        let start = member(s, "start-date");
        if is_obj(start) {
            role.start_date = Some(Date::from_opt(start));
        }
        let end = member(s, "end-date");
        if is_obj(end) {
            role.end_date = Some(Date::from_opt(end));
        }
        let org = member(s, "organization");
        if is_obj(org) {
            match org {
                Some(o) => {
                    role.organization = Some(Organization::new_from_json(o));
                },
                None => {},
            }
        }
        role
    }
}

/// A work (a publication or another output) of a researcher.
#[derive(Debug, Clone, PartialEq, Eq)]
pub struct Work {
    pub title: Option<String>,
    pub external_ids: Vec<(String, String)>,
    pub publication_date: PublicationDate,
    pub pub_type: Option<String>,
}

/// The first summary of the work group `j`.
pub open spec fn first_summary(j: Json) -> Option<Json> {
    element(at(Some(j), "work-summary"@), 0)
}

/// `w` is the work that the group `j` describes: title, type and date come
/// from its first summary, the identifiers from the group.
pub open spec fn work_of(w: Work, j: Json) -> bool {
    let s = first_summary(j);
    &&& string_view(w.title) == text(at(at(at(s, "title"@), "title"@), "value"@))
    &&& pairs_view(w.external_ids@) == pairs_of(
        at(at(Some(j), "external-ids"@), "external-id"@),
        "external-id-type"@,
        "external-id-value"@,
    )
    &&& publication_date_of(w.publication_date, at(s, "publication-date"@))
    &&& string_view(w.pub_type) == text(at(s, "type"@))
}

impl Work {
    pub fn new_from_json(j: &Json) -> (r: Work)
        ensures
            work_of(r, *j),
    {
        let s = element_at(member(Some(j), "work-summary"), 0);
        Work {
            title: as_string(member(member(member(s, "title"), "title"), "value")),
            external_ids: collect_pairs(
                member(member(Some(j), "external-ids"), "external-id"),
                "external-id-type",
                "external-id-value",
            ),
            publication_date: PublicationDate::from_opt(member(s, "publication-date")),
            pub_type: as_string(member(s, "type")),
        }
    }
}

} // verus!
