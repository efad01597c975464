//! Trips: rides that were recorded.

use crate::client::{Method, Request, RideWithGpsClient};
use crate::error::Error;
use crate::query::{
    field_texts, number_field, optional_number, optional_string, text_field, QueryField,
};
use crate::response::Reply;
use crate::routes::{optional_visibility, visibility_field, Visibility};
use crate::text::{item_path, numbered};
use vstd::prelude::*;

verus! {

/// The gear that a trip was ridden with.
#[derive(Debug, Clone)]
pub struct Gear {
    /// Gear ID
    pub id: u64,
    /// Make/brand
    pub make: Option<String>,
    /// Model
    pub model: Option<String>,
    /// Description
    pub description: Option<String>,
    /// Whether to exclude from totals
    pub exclude_from_totals: Option<bool>,
    /// Created timestamp
    pub created_at: Option<String>,
}

/// The filters and the page of a list of trips. Distances and elevation gains are in
/// meters, written as decimal text (`"20000.0"`); they go into the query as they are
/// written.
#[derive(Debug, Clone)]
pub struct ListTripsParams {
    /// Filter by trip name
    pub name: Option<String>,
    /// Filter by visibility
    pub visibility: Option<Visibility>,
    /// Filter by minimum distance
    pub min_distance: Option<String>,
    /// Filter by maximum distance
    pub max_distance: Option<String>,
    /// Filter by minimum elevation gain
    pub min_elevation_gain: Option<String>,
    /// Filter by maximum elevation gain
    pub max_elevation_gain: Option<String>,
    /// Page number
    pub page: Option<u32>,
    /// Page size
    pub page_size: Option<u32>,
}

impl Default for ListTripsParams {
    fn default() -> (params: Self)
        ensures
            params.name is None,
            params.visibility is None,
            params.min_distance is None,
            params.max_distance is None,
            params.min_elevation_gain is None,
            params.max_elevation_gain is None,
            params.page is None,
            params.page_size is None,
    {
        ListTripsParams {
            name: None,
            visibility: None,
            min_distance: None,
            max_distance: None,
            min_elevation_gain: None,
            max_elevation_gain: None,
            page: None,
            page_size: None,
        }
    }
}

impl ListTripsParams {
    /// The parameters of this record, in the order of their keys.
    pub open spec fn fields(self) -> Seq<(Seq<char>, Option<Seq<char>>)> {
        seq![
            ("max_distance"@, optional_string(self.max_distance)),
            ("max_elevation_gain"@, optional_string(self.max_elevation_gain)),
            ("min_distance"@, optional_string(self.min_distance)),
            ("min_elevation_gain"@, optional_string(self.min_elevation_gain)),
            ("name"@, optional_string(self.name)),
            ("page"@, optional_number(self.page)),
            ("page_size"@, optional_number(self.page_size)),
            ("visibility"@, optional_visibility(self.visibility)),
        ]
    }

    /// The parameters of this record, in the order of their keys.
    pub fn query_fields(&self) -> (fields: Vec<QueryField>)
        ensures
            field_texts(fields@) == self.fields(),
    {
        let mut fields: Vec<QueryField> = Vec::new();
        fields.push(text_field("max_distance", &self.max_distance));
        fields.push(text_field("max_elevation_gain", &self.max_elevation_gain));
        fields.push(text_field("min_distance", &self.min_distance));
        fields.push(text_field("min_elevation_gain", &self.min_elevation_gain));
        fields.push(text_field("name", &self.name));
        fields.push(number_field("page", self.page));
        fields.push(number_field("page_size", self.page_size));
        fields.push(visibility_field("visibility", self.visibility));
        assert(field_texts(fields@) =~= self.fields());
        fields
    }
}

/// The parameters of an optional record of trip filters.
pub open spec fn trip_fields(params: Option<&ListTripsParams>) -> Option<
    Seq<(Seq<char>, Option<Seq<char>>)>,
> {
    match params {
        Some(params) => Some(params.fields()),
        None => None,
    }
}

impl RideWithGpsClient {
    /// Prepares the request for the trips of the user, filtered and paged as `params`
    /// says. The response is a page of trips.
    pub fn list_trips(&self, params: Option<&ListTripsParams>) -> (r: Result<Request<()>, Error>)
        ensures
            self@.listed("/api/v1/trips.json"@, trip_fields(params), r),
    {
        match params {
            Some(params) => {
                let fields = params.query_fields();
                self.list("/api/v1/trips.json", Some(&fields))
            },
            None => self.list("/api/v1/trips.json", None),
        }
    }

    /// Prepares the request for one trip. The response holds it under `trip`.
    pub fn get_trip(&self, id: u64) -> (r: Result<Request<()>, Error>)
        ensures
            self@.prepared(
                Method::Get,
                item_path("/api/v1/trips/"@, id, ".json"@),
                None,
                Reply::Enveloped("trip"),
                r,
            ),
    {
        let path = numbered("/api/v1/trips/", id, ".json");
        self.get(path.as_str(), Reply::Enveloped("trip"))
    }

    /// Prepares the request for the polyline of one trip. The response is the
    /// polyline itself.
    pub fn get_trip_polyline(&self, id: u64) -> (r: Result<Request<()>, Error>)
        ensures
            self@.prepared(
                Method::Get,
                item_path("/api/v1/trips/"@, id, "/polyline.json"@),
                None,
                Reply::Bare,
                r,
            ),
    {
        let path = numbered("/api/v1/trips/", id, "/polyline.json");
        self.get(path.as_str(), Reply::Bare)
    }

    /// Prepares the request that deletes one trip.
    pub fn delete_trip(&self, id: u64) -> (r: Result<Request<()>, Error>)
        ensures
            self@.prepared(
                Method::Delete,
                item_path("/api/v1/trips/"@, id, ".json"@),
                None,
                Reply::Empty,
                r,
            ),
    {
        let path = numbered("/api/v1/trips/", id, ".json");
        self.delete(path.as_str())
    }
}

} // verus!
