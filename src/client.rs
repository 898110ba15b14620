use vstd::prelude::*;

use crate::author::Author;
use crate::json::{as_elements, as_string, at, member, text, text_or_empty, Json};

verus! {

/// The root of the public API that every request is made against.
pub const API_URL: &'static str = "https://pub.orcid.org/v3.0/";

/// The media type that every request asks for.
pub const ACCEPT_JSON: &'static str = "application/json";

/// What a response can report instead of the result asked for.
#[derive(Debug, Clone, PartialEq, Eq)]
pub enum OrcidError {
    /// The service reported an error for the record `identifier`.
    ApiError { identifier: String, message: String },
    /// The response lacks the structure that the operation needs.
    MalformedResponse,
}

/// Whether a response document reports an error of the service.
pub open spec fn reports_error(doc: Json) -> bool {
    at(Some(doc), "error-code"@) is Some
}

/// The message that an error document gives its reader, or the empty string.
pub open spec fn developer_message(doc: Json) -> Seq<char> {
    text_or_empty(at(Some(doc), "developer-message"@))
}

/// The identifier that one entry of a search result names.
pub open spec fn entry_id(e: Json) -> Option<Seq<char>> {
    text(at(at(Some(e), "orcid-identifier"@), "path"@))
}

/// The identifiers that a search response lists, in order: absent when the
/// response has no `result` list or an entry of it names no identifier.
pub open spec fn search_ids_of(doc: Json) -> Option<Seq<Seq<char>>> {
    match at(Some(doc), "result"@) {
        Some(Json::Array(items)) => if forall|i: int| 0 <= i < items@.len() ==> (#[trigger] entry_id(items@[i])) is Some {
            Some(items@.map_values(|e: Json| text_or_empty(at(at(Some(e), "orcid-identifier"@), "path"@))))
        } else {
            None
        },
        _ => None,
    }
}

/// A search response without a `result` list is malformed, while an empty
/// `result` list is a search that found nothing.
pub proof fn lemma_absent_results_differ_from_empty(doc: Json)
    ensures
        at(Some(doc), "result"@) is None ==> search_ids_of(doc) is None,
        at(Some(doc), "result"@) matches Some(Json::Array(items)) && items@.len() == 0
            ==> search_ids_of(doc) == Some(Seq::<Seq<char>>::empty()),
{
    if let Some(Json::Array(items)) = at(Some(doc), "result"@) {
        if items@.len() == 0 {
            assert(items@.map_values(|e: Json| text_or_empty(at(at(Some(e), "orcid-identifier"@), "path"@)))
                =~= Seq::<Seq<char>>::empty());
        }
    }
}

/// A client of the public API. It decides what to ask and reads what comes
/// back; performing the GET with an `Accept` header of [`ACCEPT_JSON`] is up
/// to its caller.
#[derive(Debug)]
pub struct Client {
    api_url: String,
}

/// A pending request for one researcher's record.
#[derive(Debug, Clone, PartialEq, Eq)]
pub struct AuthorRequest {
    /// The URL to GET.
    pub url: String,
    /// The identifier that the record is asked for.
    pub orcid_id: String,
}

/// A pending search for researchers' identifiers.
#[derive(Debug, Clone, PartialEq, Eq)]
pub struct SearchRequest {
    /// The URL to GET.
    pub url: String,
}

impl Client {
    #[verifier::type_invariant]
    spec fn inv(&self) -> bool {
        self.api_url@ == API_URL@
    }

    pub fn new() -> (r: Client) {
        Client { api_url: API_URL.to_owned() }
    }

    /// The root that the client's URLs start with.
    pub fn api_url(&self) -> (r: &str)
        ensures
            r@ == API_URL@,
    {
        proof {
            use_type_invariant(self);
        }
        self.api_url.as_str()
    }

    /// The request for the record of `orcid_id`.
    pub fn author(&self, orcid_id: &String) -> (r: AuthorRequest)
        ensures
            r.url@ == API_URL@ + orcid_id@,
            r.orcid_id@ == orcid_id@,
    {
        proof {
            use_type_invariant(self);
        }
        let mut url = self.api_url.clone();
        url.append(orcid_id.as_str());
        AuthorRequest { url, orcid_id: orcid_id.clone() }
    }

    /// The search for the text `doi`, quoted.
    pub fn search_doi(&self, doi: &String) -> (r: SearchRequest)
        ensures
            r.url@ == API_URL@ + "search?q="@ + "\""@ + doi@ + "\""@,
    {
        let mut query = "\"".to_owned();
        query.append(doi.as_str());
        query.append("\"");
        let r = self.search(&query);
        assert(r.url@ =~= API_URL@ + "search?q="@ + "\""@ + doi@ + "\""@);
        r
    }

    /// The search for `query`, which goes into the URL as it is.
    pub fn search(&self, query: &String) -> (r: SearchRequest)
        ensures
            r.url@ == API_URL@ + "search?q="@ + query@,
    {
        proof {
            use_type_invariant(self);
        }
        let mut url = self.api_url.clone();
        url.append("search?q=");
        url.append(query.as_str());
        SearchRequest { url }
    }
}

impl AuthorRequest {
    /// Reads the response document: the service's error when it reports one,
    /// the record otherwise.
    pub fn finish(&self, document: Json) -> (r: Result<Author, OrcidError>)
        ensures
            match r {
                Ok(a) => !reports_error(document) && a@ == document,
                Err(OrcidError::ApiError { identifier, message }) => reports_error(document)
                    && identifier@ == self.orcid_id@ && message@ == developer_message(document),
                Err(OrcidError::MalformedResponse) => false,
            },
    {
        if member(Some(&document), "error-code").is_some() {
            let message = match as_string(member(Some(&document), "developer-message")) {
                Some(m) => m,
                None => String::new(),
            };
            Err(OrcidError::ApiError { identifier: self.orcid_id.clone(), message })
        } else {
            Ok(Author::new_from_json(document))
        }
    }
}

impl SearchRequest {
    /// Reads the response document: the identifiers of its `result` list, in
    /// order, or [`OrcidError::MalformedResponse`] when that list is absent or
    /// an entry of it names no identifier.
    pub fn finish(&self, document: &Json) -> (r: Result<Vec<String>, OrcidError>)
        ensures
            match search_ids_of(*document) {
                Some(ids) => r matches Ok(v) && v@.map_values(|s: String| s@) == ids,
                None => r matches Err(OrcidError::MalformedResponse),
            },
    {
        match as_elements(member(Some(document), "result")) {
            Some(items) => {
                let mut ids: Vec<String> = Vec::new();
                let mut i: usize = 0;
                while i < items.len()
                    invariant
                        0 <= i <= items@.len(),
                        at(Some(*document), "result"@) == Some(Json::Array(*items)),
                        ids@.len() == i,
                        forall|a: int| 0 <= a < i ==> entry_id(items@[a]) == Some((#[trigger] ids@[a])@),
                    decreases items.len() - i,
                {
                    match as_string(member(member(Some(&items[i]), "orcid-identifier"), "path")) {
                        Some(id) => {
                            ids.push(id);
                        },
                        None => {
                            assert(entry_id(items@[i as int]) is None);
                            return Err(OrcidError::MalformedResponse);
                        },
                    }
                    i = i + 1;
                }
                assert forall|a: int| 0 <= a < items@.len() implies (#[trigger] entry_id(items@[a])) is Some by {
                    assert(entry_id(items@[a]) == Some(ids@[a]@));
                }
                assert(ids@.map_values(|s: String| s@) =~= items@.map_values(
                    |e: Json| text_or_empty(at(at(Some(e), "orcid-identifier"@), "path"@)),
                ));
                Ok(ids)
            },
            None => Err(OrcidError::MalformedResponse),
        }
    }
}

} // verus!
