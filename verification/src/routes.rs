//! Routes: the records that go with them, and the requests for them.

use crate::client::{Method, Request, RideWithGpsClient};
use crate::error::Error;
use crate::query::{
    field_texts, number_field, optional_number, optional_string, text_field, QueryField,
};
use crate::response::Reply;
use crate::text::{item_path, numbered};
use vstd::prelude::*;

verus! {

/// Who may see a route, a trip, an event or a collection.
#[derive(Debug, Clone, Copy, PartialEq, Eq, Structural)]
pub enum Visibility {
    /// Everyone.
    Public,
    /// The owner alone.
    Private,
    /// Whoever has the link.
    Unlisted,
}

impl Visibility {
    /// The word that the service uses for this setting.
    pub open spec fn word(self) -> Seq<char> {
        match self {
            Visibility::Public => "public"@,
            Visibility::Private => "private"@,
            Visibility::Unlisted => "unlisted"@,
        }
    }

    /// The word that the service uses for this setting.
    pub fn as_str(self) -> (word: &'static str)
        ensures
            word@ == self.word(),
    {
        match self {
            Visibility::Public => "public",
            Visibility::Private => "private",
            Visibility::Unlisted => "unlisted",
        }
    }
}

/// The word of an optional visibility.
pub open spec fn optional_visibility(value: Option<Visibility>) -> Option<Seq<char>> {
    match value {
        Some(v) => Some(v.word()),
        None => None,
    }
}

/// A parameter that is a visibility: present as its word where the record holds one.
pub fn visibility_field(key: &'static str, value: Option<Visibility>) -> (field: QueryField)
    ensures
        field@ == (key@, optional_visibility(value)),
{
    let value = match value {
        Some(v) => Some(v.as_str().to_owned()),
        None => None,
    };
    QueryField { key, value }
}

/// A photo attached to a route, a trip or an event.
#[derive(Debug, Clone)]
pub struct Photo {
    /// Photo ID
    pub id: u64,
    /// Photo URL
    pub url: Option<String>,
    /// Whether the photo is highlighted
    pub highlighted: Option<bool>,
    /// Photo caption
    pub caption: Option<String>,
    /// Created timestamp
    pub created_at: Option<String>,
}

/// The encoded polyline of a route or a trip.
#[derive(Debug, Clone)]
pub struct Polyline {
    /// Encoded polyline string
    pub polyline: String,
    /// Parent type (e.g., "route")
    pub parent_type: Option<String>,
    /// Parent ID
    pub parent_id: Option<u64>,
}

/// The filters and the page of a list of routes. Distances and elevation gains are
/// in meters, written as decimal text (`"5000.0"`); they go into the query as they
/// are written.
#[derive(Debug, Clone)]
pub struct ListRoutesParams {
    /// Filter by route name
    pub name: Option<String>,
    /// Filter by visibility
    pub visibility: Option<Visibility>,
    /// Filter by minimum distance
    pub min_distance: Option<String>,
    /// Filter by maximum distance
    pub max_distance: Option<String>,
    /// Filter by minimum elevation gain
    pub min_elevation_gain: Option<String>,
    /// Filter by maximum elevation gain
    pub max_elevation_gain: Option<String>,
    /// Page number
    pub page: Option<u32>,
    /// Page size
    pub page_size: Option<u32>,
}

impl Default for ListRoutesParams {
    fn default() -> (params: Self)
        ensures
            params.name is None,
            params.visibility is None,
            params.min_distance is None,
            params.max_distance is None,
            params.min_elevation_gain is None,
            params.max_elevation_gain is None,
            params.page is None,
            params.page_size is None,
    {
        ListRoutesParams {
            name: None,
            visibility: None,
            min_distance: None,
            max_distance: None,
            min_elevation_gain: None,
            max_elevation_gain: None,
            page: None,
            page_size: None,
        }
    }
}

impl ListRoutesParams {
    /// The parameters of this record, in the order of their keys.
    pub open spec fn fields(self) -> Seq<(Seq<char>, Option<Seq<char>>)> {
        seq![
            ("max_distance"@, optional_string(self.max_distance)),
            ("max_elevation_gain"@, optional_string(self.max_elevation_gain)),
            ("min_distance"@, optional_string(self.min_distance)),
            ("min_elevation_gain"@, optional_string(self.min_elevation_gain)),
            ("name"@, optional_string(self.name)),
            ("page"@, optional_number(self.page)),
            ("page_size"@, optional_number(self.page_size)),
            ("visibility"@, optional_visibility(self.visibility)),
        ]
    }

    /// The parameters of this record, in the order of their keys.
    pub fn query_fields(&self) -> (fields: Vec<QueryField>)
        ensures
            field_texts(fields@) == self.fields(),
    {
        let mut fields: Vec<QueryField> = Vec::new();
        fields.push(text_field("max_distance", &self.max_distance));
        fields.push(text_field("max_elevation_gain", &self.max_elevation_gain));
        fields.push(text_field("min_distance", &self.min_distance));
        fields.push(text_field("min_elevation_gain", &self.min_elevation_gain));
        fields.push(text_field("name", &self.name));
        fields.push(number_field("page", self.page));
        fields.push(number_field("page_size", self.page_size));
        fields.push(visibility_field("visibility", self.visibility));
        assert(field_texts(fields@) =~= self.fields());
        fields
    }
}

/// The parameters of an optional record of route filters.
pub open spec fn route_fields(params: Option<&ListRoutesParams>) -> Option<
    Seq<(Seq<char>, Option<Seq<char>>)>,
> {
    match params {
        Some(params) => Some(params.fields()),
        None => None,
    }
}

impl RideWithGpsClient {
    /// Prepares the request for the routes of the user, filtered and paged as `params`
    /// says. The response is a page of routes.
    pub fn list_routes(&self, params: Option<&ListRoutesParams>) -> (r: Result<
        Request<()>,
        Error,
    >)
        ensures
            self@.listed("/api/v1/routes.json"@, route_fields(params), r),
    {
        match params {
            Some(params) => {
                let fields = params.query_fields();
                self.list("/api/v1/routes.json", Some(&fields))
            },
            None => self.list("/api/v1/routes.json", None),
        }
    }

    /// Prepares the request for one route. The response holds it under `route`.
    pub fn get_route(&self, id: u64) -> (r: Result<Request<()>, Error>)
        ensures
            self@.prepared(
                Method::Get,
                item_path("/api/v1/routes/"@, id, ".json"@),
                None,
                Reply::Enveloped("route"),
                r,
            ),
    {
        let path = numbered("/api/v1/routes/", id, ".json");
        self.get(path.as_str(), Reply::Enveloped("route"))
    }

    /// Prepares the request for the polyline of one route. The response is the
    /// polyline itself.
    pub fn get_route_polyline(&self, id: u64) -> (r: Result<Request<()>, Error>)
        ensures
            self@.prepared(
                Method::Get,
                item_path("/api/v1/routes/"@, id, "/polyline.json"@),
                None,
                Reply::Bare,
                r,
            ),
    {
        let path = numbered("/api/v1/routes/", id, "/polyline.json");
        self.get(path.as_str(), Reply::Bare)
    }

    /// Prepares the request that deletes one route.
    pub fn delete_route(&self, id: u64) -> (r: Result<Request<()>, Error>)
        ensures
            self@.prepared(
                Method::Delete,
                item_path("/api/v1/routes/"@, id, ".json"@),
                None,
                Reply::Empty,
                r,
            ),
    {
        let path = numbered("/api/v1/routes/", id, ".json");
        self.delete(path.as_str())
    }
}

} // verus!
