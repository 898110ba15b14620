use orcid::author::Author;
use orcid::client::{Client, OrcidError, API_URL};
use orcid::decimal::parse_unsigned_bounded;
use orcid::json::Json;
use orcid::model::{Date, Organization, PublicationDate, Role, Work};

fn to_json(v: &serde_json::Value) -> Json {
    match v {
        serde_json::Value::Null => Json::Null,
        serde_json::Value::Bool(b) => Json::Bool(*b),
        serde_json::Value::Number(n) => Json::Number(n.to_string()),
        serde_json::Value::String(s) => Json::Str(s.clone()),
        serde_json::Value::Array(items) => Json::Array(items.iter().map(to_json).collect()),
        serde_json::Value::Object(members) => {
            Json::Object(members.iter().map(|(k, v)| (k.clone(), to_json(v))).collect())
        }
    }
}

fn doc(text: &str) -> Json {
    to_json(&serde_json::from_str(text).unwrap())
}

fn author(text: &str) -> Author {
    Author::new_from_json(doc(text))
}

const FULL: &str = r#"{
  "orcid-identifier": {"path": "0000-0001-5916-0947"},
  "person": {
    "name": {
      "given-names": {"value": "Ada"},
      "family-name": {"value": "Lovelace"},
      "credit-name": {"value": "A. Lovelace"}
    },
    "other-names": {"other-name": [{"content": "Countess"}, {"other": 1}, {"content": "Ada King"}]},
    "biography": {"content": "Mathematician."},
    "external-identifiers": {"external-identifier": [
      {"external-id-type": "Scopus", "external-id-value": "123"},
      {"external-id-type": "ResearcherID"}
    ]},
    "keywords": {"keyword": [{"content": "analytical engine"}, {"no": "content"}]},
    "researcher-urls": {"researcher-url": [
      {"url-name": "home", "url": {"value": "https://example.org"}},
      {"url-name": "broken"}
    ]}
  },
  "activities-summary": {
    "works": {"group": [
      {"external-ids": {"external-id": [{"external-id-type": "doi", "external-id-value": "10.1/x"}]},
       "work-summary": [{"title": {"title": {"value": "Notes"}}, "type": "journal-article",
                         "publication-date": {"year": {"value": "1843"}, "month": {"value": "09"}}}]}
    ]}
  }
}"#;

#[test]
fn test1() {
    let _client = Client::new();
    assert_eq!(2 + 2, 4);
}

#[test]
fn full_name_of_given_and_family() {
    let a = author(r#"{"person":{"name":{"given-names":{"value":"Ada"},"family-name":{"value":"Lovelace"}}}}"#);
    assert_eq!(a.full_name(), Some("Ada Lovelace".to_string()));
}

#[test]
fn full_name_of_family_only() {
    let a = author(r#"{"person":{"name":{"family-name":{"value":"Lovelace"}}}}"#);
    assert_eq!(a.full_name(), Some("Lovelace".to_string()));
}

#[test]
fn full_name_absent_without_names() {
    let a = author(r#"{"person":{"name":{}}}"#);
    assert_eq!(a.full_name(), None);
    let b = author(r#"{"person":{"name":{"given-names":{"value":"Ada"}}}}"#);
    assert_eq!(b.full_name(), None);
}

#[test]
fn accessors_of_a_full_record() {
    let a = author(FULL);
    assert_eq!(a.orcid_id(), Some("0000-0001-5916-0947"));
    assert_eq!(a.credit_name(), Some("A. Lovelace"));
    assert_eq!(a.biography(), Some("Mathematician."));
    assert_eq!(a.other_names(), vec!["Countess", "Ada King"]);
    assert_eq!(a.keywords(), vec!["analytical engine".to_string(), "".to_string()]);
    assert_eq!(a.researcher_urls(), vec![("home", "https://example.org")]);
}

#[test]
fn missing_biography_leaves_other_fields() {
    let a = author(FULL);
    let without = FULL.replace(r#""biography": {"content": "Mathematician."},"#, "");
    let b = author(&without);
    assert_eq!(b.biography(), None);
    assert_eq!(b.credit_name(), a.credit_name());
    assert_eq!(b.full_name(), a.full_name());
    assert_eq!(b.other_names(), a.other_names());
    assert_eq!(b.external_ids(), a.external_ids());
    assert_eq!(b.keywords(), a.keywords());
    assert_eq!(b.researcher_urls(), a.researcher_urls());
    assert_eq!(b.works(), a.works());
}

#[test]
fn empty_document_yields_absent_values() {
    let a = author("{}");
    assert_eq!(a.orcid_id(), None);
    assert_eq!(a.credit_name(), None);
    assert_eq!(a.full_name(), None);
    assert!(a.other_names().is_empty());
    assert_eq!(a.biography(), None);
    assert!(a.external_ids().is_empty());
    assert!(a.keywords().is_empty());
    assert!(a.researcher_urls().is_empty());
    assert!(a.works().is_empty());
    assert!(a.education().is_empty());
    assert!(a.employment().is_empty());
}

#[test]
fn wrong_kinds_read_as_absent() {
    let a = author(r#"{"person":{"biography":{"content":7},"keywords":{"keyword":"not a list"}},"orcid-identifier":[]}"#);
    assert_eq!(a.biography(), None);
    assert!(a.keywords().is_empty());
    assert_eq!(a.orcid_id(), None);
}

#[test]
fn external_id_missing_value_is_empty_string() {
    let a = author(FULL);
    assert_eq!(
        a.external_ids(),
        vec![
            ("Scopus".to_string(), "123".to_string()),
            ("ResearcherID".to_string(), "".to_string())
        ]
    );
}

#[test]
fn works_of_a_record() {
    let works = author(FULL).works();
    assert_eq!(works.len(), 1);
    let w: &Work = &works[0];
    assert_eq!(w.title, Some("Notes".to_string()));
    assert_eq!(w.pub_type, Some("journal-article".to_string()));
    assert_eq!(w.external_ids, vec![("doi".to_string(), "10.1/x".to_string())]);
    assert_eq!(w.publication_date.year, Some(1843));
    assert_eq!(w.publication_date.month, Some(9));
    assert_eq!(w.publication_date.day, None);
}

#[test]
fn work_without_summary() {
    let w = Work::new_from_json(&doc(r#"{"external-ids":{"external-id":[{"external-id-value":"v"}]}}"#));
    assert_eq!(w.title, None);
    assert_eq!(w.pub_type, None);
    assert_eq!(w.external_ids, vec![("".to_string(), "v".to_string())]);
    assert_eq!(w.publication_date.year, None);
}

#[test]
fn date_parts_parse_or_degrade() {
    let d = Date::new_from_json(&doc(r#"{"year":{"value":"2019"},"month":{"value":"+07"},"day":{"value":"3a"}}"#));
    assert_eq!(d.year, Some(2019));
    assert_eq!(d.month, Some(7));
    assert_eq!(d.day, None);
    let big = Date::new_from_json(&doc(r#"{"year":{"value":"70000"},"month":{"value":"256"},"day":{"value":""}}"#));
    assert_eq!(big.year, None);
    assert_eq!(big.month, None);
    assert_eq!(big.day, None);
}

#[test]
fn publication_year_has_wider_range() {
    let d = PublicationDate::new_from_json(&doc(r#"{"year":{"value":"70000"},"day":{"value":"31"}}"#));
    assert_eq!(d.year, Some(70000));
    assert_eq!(d.month, None);
    assert_eq!(d.day, Some(31));
}

#[test]
fn decimal_text_parsing() {
    assert_eq!(parse_unsigned_bounded("0", 9), Some(0));
    assert_eq!(parse_unsigned_bounded("+", 9), None);
    assert_eq!(parse_unsigned_bounded("", 9), None);
    assert_eq!(parse_unsigned_bounded("-1", 9), None);
    assert_eq!(parse_unsigned_bounded("255", 255), Some(255));
    assert_eq!(parse_unsigned_bounded("256", 255), None);
    assert_eq!(parse_unsigned_bounded("4294967295", u32::MAX), Some(u32::MAX));
    assert_eq!(parse_unsigned_bounded("99999999999999999999", u32::MAX), None);
    assert_eq!(parse_unsigned_bounded("0x1", 100), None);
}

#[test]
fn organization_fields() {
    let o = Organization::new_from_json(&doc(
        r#"{"name":"Univ","address":{"city":"London","country":"GB"},
            "disambiguated-organization":{"disambiguation-source":"RINGGOLD","disambiguated-organization-identifier":"42"}}"#,
    ));
    assert_eq!(o.name, Some("Univ".to_string()));
    assert_eq!(o.city, Some("London".to_string()));
    assert_eq!(o.region, None);
    assert_eq!(o.country, Some("GB".to_string()));
    assert_eq!(o.disambiguated_organization, Some(("RINGGOLD".to_string(), "42".to_string())));
    let partial = Organization::new_from_json(&doc(r#"{"disambiguated-organization":{"disambiguation-source":"RINGGOLD"}}"#));
    assert_eq!(partial.disambiguated_organization, None);
}

#[test]
fn new_role_is_empty() {
    let r = Role::new();
    assert_eq!(r.department, None);
    assert_eq!(r.title, None);
    assert_eq!(r.start_date, None);
    assert_eq!(r.end_date, None);
    assert_eq!(r.organization, None);
}

const AFFILIATIONS: &str = r#"{"activities-summary":{
  "educations":{"affiliation-group":[
    {"summaries":[{"education-summary":{"department-name":"Maths","role-title":"Student",
       "start-date":{"year":{"value":"1830"}},"organization":{"name":"Home"}}}]},
    {"summaries":[{"other-summary":{}},{"education-summary":{"department-name":"Logic","end-date":{"year":{"value":"1840"}}}}]}
  ]},
  "employments":{"affiliation-group":[{"summaries":[{"employment-summary":"not an object"}]}]}
}}"#;

#[test]
fn education_flattens_groups_in_order() {
    let roles = author(AFFILIATIONS).education();
    assert_eq!(roles.len(), 2);
    assert_eq!(roles[0].department, Some("Maths".to_string()));
    assert_eq!(roles[0].title, Some("Student".to_string()));
    assert_eq!(roles[0].start_date.as_ref().unwrap().year, Some(1830));
    assert_eq!(roles[0].end_date, None);
    assert_eq!(roles[0].organization.as_ref().unwrap().name, Some("Home".to_string()));
    assert_eq!(roles[1].department, Some("Logic".to_string()));
    assert_eq!(roles[1].title, None);
    assert_eq!(roles[1].start_date, None);
    assert_eq!(roles[1].end_date.as_ref().unwrap().year, Some(1840));
    assert_eq!(roles[1].organization, None);
}

#[test]
fn employment_skips_summaries_without_object() {
    assert!(author(AFFILIATIONS).employment().is_empty());
}

#[test]
fn author_request_url_and_record() {
    let client = Client::new();
    let req = client.author(&"0000-0001-5916-0947".to_string());
    assert_eq!(req.url, "https://pub.orcid.org/v3.0/0000-0001-5916-0947");
    assert_eq!(req.orcid_id, "0000-0001-5916-0947");
    let a = req.finish(doc(FULL)).unwrap();
    assert_eq!(a.orcid_id(), Some("0000-0001-5916-0947"));
}

#[test]
fn author_error_document_is_api_error() {
    let req = Client::new().author(&"0000-0000-0000-0000".to_string());
    let r = req.finish(doc(r#"{"error-code":9016,"developer-message":"Not found"}"#));
    match r {
        Err(OrcidError::ApiError { identifier, message }) => {
            assert_eq!(identifier, "0000-0000-0000-0000");
            assert_eq!(message, "Not found");
        }
        _ => panic!("expected an API error"),
    }
}

#[test]
fn api_url_is_fixed() {
    assert_eq!(Client::new().api_url(), API_URL);
    assert_eq!(API_URL, "https://pub.orcid.org/v3.0/");
}

#[test]
fn search_urls() {
    let client = Client::new();
    assert_eq!(client.search(&"family-name:Lovelace".to_string()).url, "https://pub.orcid.org/v3.0/search?q=family-name:Lovelace");
    assert_eq!(client.search_doi(&"10.1038/NATURE11174".to_string()).url, "https://pub.orcid.org/v3.0/search?q=\"10.1038/NATURE11174\"");
}

#[test]
fn search_single_result() {
    let req = Client::new().search(&"x".to_string());
    let r = req.finish(&doc(r#"{"result":[{"orcid-identifier":{"path":"0000-0001-5916-0947"}}]}"#));
    assert_eq!(r.unwrap(), vec!["0000-0001-5916-0947".to_string()]);
}

#[test]
fn search_without_result_is_malformed() {
    let req = Client::new().search(&"x".to_string());
    assert!(matches!(req.finish(&doc(r#"{"num-found":0}"#)), Err(OrcidError::MalformedResponse)));
}

#[test]
fn search_empty_result_is_empty() {
    let req = Client::new().search(&"x".to_string());
    assert_eq!(req.finish(&doc(r#"{"result":[]}"#)).unwrap(), Vec::<String>::new());
}

#[test]
fn search_entry_without_identifier_is_malformed() {
    let req = Client::new().search_doi(&"10.1/x".to_string());
    let r = req.finish(&doc(r#"{"result":[{"orcid-identifier":{"path":"a"}},{"orcid-identifier":{}}]}"#));
    assert!(matches!(r, Err(OrcidError::MalformedResponse)));
}

#[test]
fn json_accessor_returns_document() {
    let a = author(r#"{"k":"v"}"#);
    match a.json() {
        Json::Object(members) => {
            assert_eq!(members.len(), 1);
            assert_eq!(members[0].0, "k");
        }
        _ => panic!("expected an object"),
    }
}

#[test]
fn two_groups_flatten_to_two_roles() {
    let a = author(
        r#"{"activities-summary":{"employments":{"affiliation-group":[
            {"summaries":[{"employment-summary":{"role-title":"First"}}]},
            {"summaries":[{"employment-summary":{"role-title":"Second"}}]}
        ]}}}"#,
    );
    let roles = a.employment();
    assert_eq!(roles.len(), 2);
    assert_eq!(roles[0].title, Some("First".to_string()));
    assert_eq!(roles[1].title, Some("Second".to_string()));
    assert!(a.education().is_empty());
}
