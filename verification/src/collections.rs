//! Collections of routes and trips.

use crate::client::{Method, Request, RideWithGpsClient};
use crate::error::Error;
use crate::query::{
    field_texts, number_field, optional_number, optional_string, text_field, QueryField,
};
use crate::response::Reply;
use crate::text::{item_path, numbered};
use vstd::prelude::*;

verus! {

/// The filter and the page of a list of collections.
#[derive(Debug, Clone)]
pub struct ListCollectionsParams {
    /// Filter by collection name
    pub name: Option<String>,
    /// Page number
    pub page: Option<u32>,
    /// Page size
    pub page_size: Option<u32>,
}

impl Default for ListCollectionsParams {
    fn default() -> (params: Self)
        ensures
            params.name is None,
            params.page is None,
            params.page_size is None,
    {
        ListCollectionsParams { name: None, page: None, page_size: None }
    }
}

impl ListCollectionsParams {
    /// The parameters of this record, in the order of their keys.
    pub open spec fn fields(self) -> Seq<(Seq<char>, Option<Seq<char>>)> {
        seq![
            ("name"@, optional_string(self.name)),
            ("page"@, optional_number(self.page)),
            ("page_size"@, optional_number(self.page_size)),
        ]
    }

    /// The parameters of this record, in the order of their keys.
    pub fn query_fields(&self) -> (fields: Vec<QueryField>)
        ensures
            field_texts(fields@) == self.fields(),
    {
        let mut fields: Vec<QueryField> = Vec::new();
        fields.push(text_field("name", &self.name));
        fields.push(number_field("page", self.page));
        fields.push(number_field("page_size", self.page_size));
        assert(field_texts(fields@) =~= self.fields());
        fields
    }
}

/// The parameters of an optional record of collection filters.
pub open spec fn collection_fields(params: Option<&ListCollectionsParams>) -> Option<
    Seq<(Seq<char>, Option<Seq<char>>)>,
> {
    match params {
        Some(params) => Some(params.fields()),
        None => None,
    }
}

impl RideWithGpsClient {
    /// Prepares the request for the collections, filtered and paged as `params` says.
    /// The response is a page of collections.
    pub fn list_collections(&self, params: Option<&ListCollectionsParams>) -> (r: Result<
        Request<()>,
        Error,
    >)
        ensures
            self@.listed("/api/v1/collections.json"@, collection_fields(params), r),
    {
        match params {
            Some(params) => {
                let fields = params.query_fields();
                self.list("/api/v1/collections.json", Some(&fields))
            },
            None => self.list("/api/v1/collections.json", None),
        }
    }

    /// Prepares the request for one collection, with its routes and trips. The
    /// response holds it under `collection`.
    pub fn get_collection(&self, id: u64) -> (r: Result<Request<()>, Error>)
        ensures
            self@.prepared(
                Method::Get,
                item_path("/api/v1/collections/"@, id, ".json"@),
                None,
                Reply::Enveloped("collection"),
                r,
            ),
    {
        let path = numbered("/api/v1/collections/", id, ".json");
        self.get(path.as_str(), Reply::Enveloped("collection"))
    }

    /// Prepares the request for the pinned collection. The response holds it under
    /// `collection`.
    pub fn get_pinned_collection(&self) -> (r: Result<Request<()>, Error>)
        ensures
            self@.prepared(
                Method::Get,
                "/api/v1/collections/pinned.json"@,
                None,
                Reply::Enveloped("collection"),
                r,
            ),
    {
        self.get("/api/v1/collections/pinned.json", Reply::Enveloped("collection"))
    }
}

} // verus!
