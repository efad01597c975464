//! Points of interest. The service answers these requests for organization accounts
//! only.

use crate::client::{Method, Request, RideWithGpsClient};
use crate::error::Error;
use crate::query::{
    field_texts, number_field, optional_number, optional_string, text_field, QueryField,
};
use crate::response::Reply;
use crate::text::{decimal, decimal_text, item_path, numbered};
use vstd::prelude::*;
use vstd::string::StringExecFns;

verus! {

/// The filters and the page of a list of points of interest.
#[derive(Debug, Clone)]
pub struct ListPointsOfInterestParams {
    /// Filter by POI name
    pub name: Option<String>,
    /// Filter by POI type
    pub poi_type: Option<String>,
    /// Page number
    pub page: Option<u32>,
    /// Page size
    pub page_size: Option<u32>,
}

impl Default for ListPointsOfInterestParams {
    fn default() -> (params: Self)
        ensures
            params.name is None,
            params.poi_type is None,
            params.page is None,
            params.page_size is None,
    {
        ListPointsOfInterestParams { name: None, poi_type: None, page: None, page_size: None }
    }
}

impl ListPointsOfInterestParams {
    /// The parameters of this record, in the order of their keys.
    pub open spec fn fields(self) -> Seq<(Seq<char>, Option<Seq<char>>)> {
        seq![
            ("name"@, optional_string(self.name)),
            ("page"@, optional_number(self.page)),
            ("page_size"@, optional_number(self.page_size)),
            ("poi_type"@, optional_string(self.poi_type)),
        ]
    }

    /// The parameters of this record, in the order of their keys.
    pub fn query_fields(&self) -> (fields: Vec<QueryField>)
        ensures
            field_texts(fields@) == self.fields(),
    {
        let mut fields: Vec<QueryField> = Vec::new();
        fields.push(text_field("name", &self.name));
        fields.push(number_field("page", self.page));
        fields.push(number_field("page_size", self.page_size));
        fields.push(text_field("poi_type", &self.poi_type));
        assert(field_texts(fields@) =~= self.fields());
        fields
    }
}

/// The parameters of an optional record of filters for points of interest.
pub open spec fn poi_fields(params: Option<&ListPointsOfInterestParams>) -> Option<
    Seq<(Seq<char>, Option<Seq<char>>)>,
> {
    match params {
        Some(params) => Some(params.fields()),
        None => None,
    }
}

/// The path that ties a point of interest to a route.
pub open spec fn association_path(poi_id: u64, route_id: u64) -> Seq<char> {
    "/api/v1/points_of_interest/"@ + decimal(poi_id as nat) + "/routes/"@ + decimal(
        route_id as nat,
    ) + ".json"@
}

fn association(poi_id: u64, route_id: u64) -> (path: String)
    ensures
        path@ == association_path(poi_id, route_id),
{
    let mut path = "/api/v1/points_of_interest/".to_owned();
    path.append(decimal_text(poi_id).as_str());
    path.append("/routes/");
    path.append(decimal_text(route_id).as_str());
    path.append(".json");
    path
}

impl RideWithGpsClient {
    /// Prepares the request for the points of interest, filtered and paged as `params`
    /// says. The response is a page of points of interest.
    pub fn list_points_of_interest(&self, params: Option<&ListPointsOfInterestParams>) -> (r:
        Result<Request<()>, Error>)
        ensures
            self@.listed("/api/v1/points_of_interest.json"@, poi_fields(params), r),
    {
        match params {
            Some(params) => {
                let fields = params.query_fields();
                self.list("/api/v1/points_of_interest.json", Some(&fields))
            },
            None => self.list("/api/v1/points_of_interest.json", None),
        }
    }

    /// Prepares the request that creates a point of interest from `poi`, the record
    /// that is sent as the body. The response holds the new point under
    /// `point_of_interest`.
    pub fn create_point_of_interest<B>(&self, poi: B) -> (r: Result<Request<B>, Error>)
        ensures
            self@.prepared(
                Method::Post,
                "/api/v1/points_of_interest.json"@,
                Some(poi),
                Reply::Enveloped("point_of_interest"),
                r,
            ),
    {
        self.post("/api/v1/points_of_interest.json", poi, Reply::Enveloped("point_of_interest"))
    }

    /// Prepares the request for one point of interest. The response holds it under
    /// `point_of_interest`.
    pub fn get_point_of_interest(&self, id: u64) -> (r: Result<Request<()>, Error>)
        ensures
            self@.prepared(
                Method::Get,
                item_path("/api/v1/points_of_interest/"@, id, ".json"@),
                None,
                Reply::Enveloped("point_of_interest"),
                r,
            ),
    {
        let path = numbered("/api/v1/points_of_interest/", id, ".json");
        self.get(path.as_str(), Reply::Enveloped("point_of_interest"))
    }

    /// Prepares the request that updates one point of interest from `poi`, the record
    /// that is sent as the body. The response holds the point as it is afterwards
    /// under `point_of_interest`.
    pub fn update_point_of_interest<B>(&self, id: u64, poi: B) -> (r: Result<Request<B>, Error>)
        ensures
            self@.prepared(
                Method::Put,
                item_path("/api/v1/points_of_interest/"@, id, ".json"@),
                Some(poi),
                Reply::Enveloped("point_of_interest"),
                r,
            ),
    {
        let path = numbered("/api/v1/points_of_interest/", id, ".json");
        self.put(path.as_str(), poi, Reply::Enveloped("point_of_interest"))
    }

    /// Prepares the request that deletes one point of interest.
    pub fn delete_point_of_interest(&self, id: u64) -> (r: Result<Request<()>, Error>)
        ensures
            self@.prepared(
                Method::Delete,
                item_path("/api/v1/points_of_interest/"@, id, ".json"@),
                None,
                Reply::Empty,
                r,
            ),
    {
        let path = numbered("/api/v1/points_of_interest/", id, ".json");
        self.delete(path.as_str())
    }

    /// Prepares the request that ties a point of interest to a route: a POST without
    /// a body. Any of the statuses 200, 201 and 204 says that it is done, and the
    /// response is not read.
    pub fn associate_poi_with_route(&self, poi_id: u64, route_id: u64) -> (r: Result<
        Request<()>,
        Error,
    >)
        ensures
            self@.prepared(
                Method::Post,
                association_path(poi_id, route_id),
                None,
                Reply::Acknowledged,
                r,
            ),
    {
        let path = association(poi_id, route_id);
        self.prepare(Method::Post, path.as_str(), None, Reply::Acknowledged)
    }

    /// Prepares the request that unties a point of interest from a route.
    pub fn disassociate_poi_from_route(&self, poi_id: u64, route_id: u64) -> (r: Result<
        Request<()>,
        Error,
    >)
        ensures
            self@.prepared(
                Method::Delete,
                association_path(poi_id, route_id),
                None,
                Reply::Empty,
                r,
            ),
    {
        let path = association(poi_id, route_id);
        self.delete(path.as_str())
    }
}

} // verus!
