use vstd::prelude::*;

use crate::json::{
    as_elements, as_text, at, deref_opt, elements, is_obj, member, str_view,
    string_view, text, text_or_empty, Json,
};
use crate::model::{collect_parts, collect_pairs, pairs_of, pairs_view, role_of, work_of, Role, Work};

verus! {

/// The `person` branch of a record document.
pub open spec fn person(j: Json) -> Option<Json> {
    at(Some(j), "person"@)
}

/// The `activities-summary` branch of a record document.
pub open spec fn activities(j: Json) -> Option<Json> {
    at(Some(j), "activities-summary"@)
}

pub open spec fn orcid_id_of(j: Json) -> Option<Seq<char>> {
    text(at(at(Some(j), "orcid-identifier"@), "path"@))
}

pub open spec fn name_part(j: Json, key: Seq<char>) -> Option<Seq<char>> {
    text(at(at(at(person(j), "name"@), key), "value"@))
}

pub open spec fn credit_name_of(j: Json) -> Option<Seq<char>> {
    name_part(j, "credit-name"@)
}

/// "given family" when both names are present, the family name alone when
/// only it is, and absent otherwise.
pub open spec fn full_name_from(given: Option<Seq<char>>, family: Option<Seq<char>>) -> Option<Seq<char>> {
    match (given, family) {
        (Some(g), Some(f)) => Some(g + " "@ + f),
        (None, Some(f)) => Some(f),
        _ => None,
    }
}

pub open spec fn full_name_of(j: Json) -> Option<Seq<char>> {
    full_name_from(name_part(j, "given-names"@), name_part(j, "family-name"@))
}

/// The texts under `key` of those `items` that hold one, in order.
pub open spec fn present_texts(items: Seq<Json>, key: Seq<char>) -> Seq<Seq<char>>
    decreases items.len(),
{
    if items.len() == 0 {
        Seq::empty()
    } else {
        present_texts(items.drop_last(), key) + match text(at(Some(items.last()), key)) {
            Some(s) => seq![s],
            None => Seq::empty(),
        }
    }
}

pub open spec fn other_names_of(j: Json) -> Seq<Seq<char>> {
    present_texts(elements(at(at(person(j), "other-names"@), "other-name"@)), "content"@)
}

pub open spec fn biography_of(j: Json) -> Option<Seq<char>> {
    text(at(at(person(j), "biography"@), "content"@))
}

pub open spec fn external_ids_of(j: Json) -> Seq<(Seq<char>, Seq<char>)> {
    pairs_of(
        at(at(person(j), "external-identifiers"@), "external-identifier"@),
        "external-id-type"@,
        "external-id-value"@,
    )
}

pub open spec fn keywords_of(j: Json) -> Seq<Seq<char>> {
    elements(at(at(person(j), "keywords"@), "keyword"@)).map_values(
        |e: Json| text_or_empty(at(Some(e), "content"@)),
    )
}

/// The work groups of a record document.
pub open spec fn work_groups(j: Json) -> Seq<Json> {
    elements(at(at(activities(j), "works"@), "group"@))
}

/// The (name, url) of those `items` that hold both as text, in order.
pub open spec fn url_pairs(items: Seq<Json>) -> Seq<(Seq<char>, Seq<char>)>
    decreases items.len(),
{
    if items.len() == 0 {
        Seq::empty()
    } else {
        let e = Some(items.last());
        url_pairs(items.drop_last()) + match (text(at(e, "url-name"@)), text(at(at(e, "url"@), "value"@))) {
            (Some(n), Some(u)) => seq![(n, u)],
            _ => Seq::empty(),
        }
    }
}

pub open spec fn researcher_urls_of(j: Json) -> Seq<(Seq<char>, Seq<char>)> {
    url_pairs(elements(at(at(person(j), "researcher-urls"@), "researcher-url"@)))
}

/// The sub-objects `key` of those summaries `ss` that hold one as an object, in order.
pub open spec fn summary_objects(ss: Seq<Json>, key: Seq<char>) -> Seq<Json>
    decreases ss.len(),
{
    if ss.len() == 0 {
        Seq::empty()
    } else {
        summary_objects(ss.drop_last(), key) + match at(Some(ss.last()), key) {
            Some(Json::Object(m)) => seq![Json::Object(m)],
            _ => Seq::empty(),
        }
    }
}

/// The summary objects `key` of all `groups`, group after group, with the
/// group boundaries dropped.
pub open spec fn group_summaries(groups: Seq<Json>, key: Seq<char>) -> Seq<Json>
    decreases groups.len(),
{
    if groups.len() == 0 {
        Seq::empty()
    } else {
        group_summaries(groups.drop_last(), key) + summary_objects(
            elements(at(Some(groups.last()), "summaries"@)),
            key,
        )
    }
}

/// Flattening keeps document order and forgets where one group ends: the
/// summaries of two runs of groups are those of the first run followed by
/// those of the second.
pub proof fn lemma_group_summaries_concat(g1: Seq<Json>, g2: Seq<Json>, key: Seq<char>)
    ensures
        group_summaries(g1 + g2, key) == group_summaries(g1, key) + group_summaries(g2, key),
    decreases g2.len(),
{
    if g2.len() == 0 {
        assert(g1 + g2 =~= g1);
        assert(group_summaries(g1, key) + group_summaries(g2, key) =~= group_summaries(g1, key));
    } else {
        lemma_group_summaries_concat(g1, g2.drop_last(), key);
        assert((g1 + g2).drop_last() =~= g1 + g2.drop_last());
        assert((g1 + g2).last() == g2.last());
        let last = summary_objects(elements(at(Some(g2.last()), "summaries"@)), key);
        assert(group_summaries(g1, key) + group_summaries(g2.drop_last(), key) + last
            =~= group_summaries(g1, key) + (group_summaries(g2.drop_last(), key) + last));
    }
}

/// The affiliation summaries of one section (`educations`, `employments`) of a
/// record document, flattened over its groups.
pub open spec fn affiliations_of(j: Json, section: Seq<char>, key: Seq<char>) -> Seq<Json> {
    group_summaries(elements(at(at(activities(j), section), "affiliation-group"@)), key)
}

/// `r` holds, in order, the roles that the summaries `s` describe.
pub open spec fn roles_of(r: Seq<Role>, s: Seq<Json>) -> bool {
    r.len() == s.len() && forall|i: int| 0 <= i < r.len() ==> role_of(#[trigger] r[i], s[i])
}

pub open spec fn strs_view(v: Seq<&str>) -> Seq<Seq<char>> {
    v.map_values(|s: &str| s@)
}

pub open spec fn str_pairs_view(v: Seq<(&str, &str)>) -> Seq<(Seq<char>, Seq<char>)> {
    v.map_values(|p: (&str, &str)| (p.0@, p.1@))
}

/// An accessor whose branch of the document is missing yields its absent
/// value: `None` for a single value, no elements for a list.
pub proof fn lemma_missing_branch_is_absent(j: Json)
    ensures
        at(Some(j), "orcid-identifier"@) is None ==> orcid_id_of(j) is None,
        at(person(j), "name"@) is None ==> credit_name_of(j) is None && full_name_of(j) is None,
        at(person(j), "other-names"@) is None ==> other_names_of(j).len() == 0,
        at(person(j), "biography"@) is None ==> biography_of(j) is None,
        at(person(j), "external-identifiers"@) is None ==> external_ids_of(j).len() == 0,
        at(person(j), "keywords"@) is None ==> keywords_of(j).len() == 0,
        at(person(j), "researcher-urls"@) is None ==> researcher_urls_of(j).len() == 0,
        at(activities(j), "works"@) is None ==> work_groups(j).len() == 0,
        forall|section: Seq<char>, key: Seq<char>| at(activities(j), section) is None
            ==> (#[trigger] affiliations_of(j, section, key)).len() == 0,
{
}

/// Each accessor reads its own branch of the document alone: two documents
/// that agree on that branch agree on what the accessor yields, whatever else
/// either holds or lacks.
pub proof fn lemma_accessors_independent(j1: Json, j2: Json)
    ensures
        at(Some(j1), "orcid-identifier"@) == at(Some(j2), "orcid-identifier"@) ==> orcid_id_of(j1) == orcid_id_of(j2),
        at(person(j1), "name"@) == at(person(j2), "name"@) ==> credit_name_of(j1) == credit_name_of(j2)
            && full_name_of(j1) == full_name_of(j2),
        at(person(j1), "other-names"@) == at(person(j2), "other-names"@) ==> other_names_of(j1) == other_names_of(j2),
        at(person(j1), "biography"@) == at(person(j2), "biography"@) ==> biography_of(j1) == biography_of(j2),
        at(person(j1), "external-identifiers"@) == at(person(j2), "external-identifiers"@)
            ==> external_ids_of(j1) == external_ids_of(j2),
        at(person(j1), "keywords"@) == at(person(j2), "keywords"@) ==> keywords_of(j1) == keywords_of(j2),
        at(person(j1), "researcher-urls"@) == at(person(j2), "researcher-urls"@)
            ==> researcher_urls_of(j1) == researcher_urls_of(j2),
        at(activities(j1), "works"@) == at(activities(j2), "works"@) ==> work_groups(j1) == work_groups(j2),
        forall|section: Seq<char>, key: Seq<char>| at(activities(j1), section) == at(activities(j2), section)
            ==> #[trigger] affiliations_of(j1, section, key) == #[trigger] affiliations_of(j2, section, key),
{
}

/// The public record of one researcher, read from its document on demand.
#[derive(Debug)]
pub struct Author {
    j: Json,
}

impl View for Author {
    type V = Json;

    closed spec fn view(&self) -> Json {
        self.j
    }
}

impl Author {
    pub fn new_from_json(j: Json) -> (r: Author)
        ensures
            r@ == j,
    {
        Author { j }
    }

    pub fn json(&self) -> (r: &Json)
        ensures
            *r == self@,
    {
        &self.j
    }

    pub fn orcid_id(&self) -> (r: Option<&str>)
        ensures
            str_view(r) == orcid_id_of(self@),
    {
        as_text(member(member(Some(&self.j), "orcid-identifier"), "path"))
    }

    fn name_part(&self, key: &str) -> (r: Option<&str>)
        ensures
            str_view(r) == name_part(self@, key@),
    {
        as_text(member(member(member(member(Some(&self.j), "person"), "name"), key), "value"))
    }

    pub fn credit_name(&self) -> (r: Option<&str>)
        ensures
            str_view(r) == credit_name_of(self@),
    {
        self.name_part("credit-name")
    }

    pub fn full_name(&self) -> (r: Option<String>)
        ensures
            string_view(r) == full_name_of(self@),
    {
        let last_name = self.name_part("family-name");
        let given_names = self.name_part("given-names");
        match (given_names, last_name) {
            (Some(f), Some(l)) => {
                let mut s = f.to_owned();
                s.append(" ");
                s.append(l);
                Some(s)
            },
            (None, Some(l)) => Some(l.to_owned()),
            _ => None,
        }
    }

    pub fn other_names(&self) -> (r: Vec<&str>)
        ensures
            strs_view(r@) == other_names_of(self@),
    {
        let mut r: Vec<&str> = Vec::new();
        match as_elements(member(member(member(Some(&self.j), "person"), "other-names"), "other-name")) {
            Some(items) => {
                let mut i: usize = 0;
                while i < items.len()
                    invariant
                        0 <= i <= items@.len(),
                        items@ == elements(at(at(person(self@), "other-names"@), "other-name"@)),
                        strs_view(r@) == present_texts(items@.take(i as int), "content"@),
                    decreases items.len() - i,
                {
                    assert(items@.take(i + 1).drop_last() =~= items@.take(i as int));
                    match as_text(member(Some(&items[i]), "content")) {
                        Some(s) => {
                            r.push(s);
                        },
                        None => {},
                    }
                    assert(strs_view(r@) =~= present_texts(items@.take(i + 1), "content"@));
                    i = i + 1;
                }
                assert(items@.take(items@.len() as int) =~= items@);
            },
            None => {},
        }
        r
    }

    pub fn biography(&self) -> (r: Option<&str>)
        ensures
            str_view(r) == biography_of(self@),
    {
        as_text(member(member(member(Some(&self.j), "person"), "biography"), "content"))
    }

    pub fn external_ids(&self) -> (r: Vec<(String, String)>)
        ensures
            pairs_view(r@) == external_ids_of(self@),
    {
        collect_pairs(
            member(member(member(Some(&self.j), "person"), "external-identifiers"), "external-identifier"),
            "external-id-type",
            "external-id-value",
        )
    }

    pub fn keywords(&self) -> (r: Vec<String>)
        ensures
            r@.map_values(|s: String| s@) == keywords_of(self@),
    {
        let parts: Vec<&str> = vec!["content"];
        let j = member(member(member(Some(&self.j), "person"), "keywords"), "keyword");
        let rows = collect_parts(j, &parts);
        let ghost items = elements(deref_opt(j));
        let mut r: Vec<String> = Vec::new();
        let mut i: usize = 0;
        while i < rows.len()
            invariant
                0 <= i <= rows@.len(),
                rows@.len() == items.len(),
                items == elements(at(at(person(self@), "keywords"@), "keyword"@)),
                parts@.len() == 1,
                parts@[0]@ == "content"@,
                forall|a: int| 0 <= a < rows@.len() ==> (#[trigger] rows@[a])@.len() == parts@.len(),
                forall|a: int, k: int| 0 <= a < rows@.len() && 0 <= k < parts@.len()
                    ==> (#[trigger] rows@[a]@[k])@ == text_or_empty(at(Some(items[a]), parts@[k]@)),
                r@.len() == i,
                forall|a: int| 0 <= a < i ==> (#[trigger] r@[a])@ == text_or_empty(at(Some(items[a]), "content"@)),
            decreases rows.len() - i,
        {
            assert(rows@[i as int]@[0]@ == text_or_empty(at(Some(items[i as int]), "content"@)));
            r.push(rows[i][0].clone());
            i = i + 1;
        }
        assert(r@.map_values(|s: String| s@) =~= keywords_of(self@));
        r
    }

    pub fn works(&self) -> (r: Vec<Work>)
        ensures
            r@.len() == work_groups(self@).len(),
            forall|i: int| 0 <= i < r@.len() ==> work_of(#[trigger] r@[i], work_groups(self@)[i]),
    {
        let mut r: Vec<Work> = Vec::new();
        match as_elements(member(member(member(Some(&self.j), "activities-summary"), "works"), "group")) {
            Some(items) => {
                let mut i: usize = 0;
                while i < items.len()
                    invariant
                        0 <= i <= items@.len(),
                        items@ == work_groups(self@),
                        r@.len() == i,
                        forall|a: int| 0 <= a < i ==> work_of(#[trigger] r@[a], items@[a]),
                    decreases items.len() - i,
                {
                    r.push(Work::new_from_json(&items[i]));
                    i = i + 1;
                }
            },
            None => {},
        }
        r
    }

    pub fn researcher_urls(&self) -> (r: Vec<(&str, &str)>)
        ensures
            str_pairs_view(r@) == researcher_urls_of(self@),
    {
        let mut r: Vec<(&str, &str)> = Vec::new();
        match as_elements(member(member(member(Some(&self.j), "person"), "researcher-urls"), "researcher-url")) {
            Some(items) => {
                let mut i: usize = 0;
                while i < items.len()
                    invariant
                        0 <= i <= items@.len(),
                        items@ == elements(at(at(person(self@), "researcher-urls"@), "researcher-url"@)),
                        str_pairs_view(r@) == url_pairs(items@.take(i as int)),
                    decreases items.len() - i,
                {
                    assert(items@.take(i + 1).drop_last() =~= items@.take(i as int));
                    let e = Some(&items[i]);
                    match (as_text(member(e, "url-name")), as_text(member(member(e, "url"), "value"))) {
                        (Some(n), Some(u)) => {
                            r.push((n, u));
                        },
                        _ => {},
                    }
                    assert(str_pairs_view(r@) =~= url_pairs(items@.take(i + 1)));
                    i = i + 1;
                }
                assert(items@.take(items@.len() as int) =~= items@);
            },
            None => {},
        }
        r
    }

    /// The roles of the section `key1` of the activities, one for each
    /// summary whose sub-object `key2` is present, across all groups in order.
    fn roles(&self, key1: &str, key2: &str) -> (r: Vec<Role>)
        ensures
            roles_of(r@, affiliations_of(self@, key1@, key2@)),
    {
        let mut ret: Vec<Role> = Vec::new();
        let groups_json = member(member(member(Some(&self.j), "activities-summary"), key1), "affiliation-group");
        match as_elements(groups_json) {
            Some(groups) => {
                let mut g: usize = 0;
                while g < groups.len()
                    invariant
                        0 <= g <= groups@.len(),
                        groups@ == elements(at(at(activities(self@), key1@), "affiliation-group"@)),
                        roles_of(ret@, group_summaries(groups@.take(g as int), key2@)),
                    decreases groups.len() - g,
                {
                    let ghost done = group_summaries(groups@.take(g as int), key2@);
                    assert(groups@.take(g + 1).drop_last() =~= groups@.take(g as int));
                    let summaries_json = member(Some(&groups[g]), "summaries");
                    match as_elements(summaries_json) {
                        Some(summaries) => {
                            let mut k: usize = 0;
                            while k < summaries.len()
                                invariant
                                    0 <= k <= summaries@.len(),
                                    roles_of(ret@, done + summary_objects(summaries@.take(k as int), key2@)),
                                decreases summaries.len() - k,
                            {
                                assert(summaries@.take(k + 1).drop_last() =~= summaries@.take(k as int));
                                let x2 = member(Some(&summaries[k]), key2);
                                if is_obj(x2) {
                                    match x2 {
                                        Some(o) => {
                                            ret.push(Role::from_summary(o));
                                        },
                                        None => {},
                                    }
                                }
                                assert(done + summary_objects(summaries@.take(k + 1), key2@) =~= done
                                    + summary_objects(summaries@.take(k as int), key2@) + match at(Some(summaries@[k as int]), key2@) {
                                    Some(Json::Object(m)) => seq![Json::Object(m)],
                                    _ => Seq::<Json>::empty(),
                                });
                                k = k + 1;
                            }
                            assert(summaries@.take(summaries@.len() as int) =~= summaries@);
                            assert(group_summaries(groups@.take(g + 1), key2@) =~= done + summary_objects(summaries@, key2@));
                        },
                        None => {
                            assert(group_summaries(groups@.take(g + 1), key2@) =~= done + summary_objects(Seq::empty(), key2@));
                        },
                    }
                    g = g + 1;
                }
                assert(groups@.take(groups@.len() as int) =~= groups@);
            },
            None => {},
        }
        ret
    }

    /// The education roles of the record, flattened over their groups.
    pub fn education(&self) -> (r: Vec<Role>)
        ensures
            roles_of(r@, affiliations_of(self@, "educations"@, "education-summary"@)),
    {
        self.roles("educations", "education-summary")
    }

    /// The employment roles of the record, flattened over their groups.
    pub fn employment(&self) -> (r: Vec<Role>)
        ensures
            roles_of(r@, affiliations_of(self@, "employments"@, "employment-summary"@)),
    {
        self.roles("employments", "employment-summary")
    }
}

} // verus!
