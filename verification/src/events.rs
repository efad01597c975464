//! Events.

use crate::client::{Method, Request, RideWithGpsClient};
use crate::error::Error;
use crate::query::{
    field_texts, number_field, optional_number, optional_string, text_field, QueryField,
};
use crate::response::Reply;
use crate::routes::{optional_visibility, visibility_field, Visibility};
use crate::text::{item_path, numbered};
use vstd::prelude::*;

verus! {

/// Who organizes an event.
#[derive(Debug, Clone)]
pub struct Organizer {
    /// Organizer ID
    pub id: Option<u64>,
    /// Organizer name
    pub name: Option<String>,
    /// Created timestamp
    pub created_at: Option<String>,
    /// Updated timestamp
    pub updated_at: Option<String>,
}

/// The filters and the page of a list of events.
#[derive(Debug, Clone)]
pub struct ListEventsParams {
    /// Filter by event name
    pub name: Option<String>,
    /// Filter by visibility
    pub visibility: Option<Visibility>,
    /// Page number
    pub page: Option<u32>,
    /// Page size
    pub page_size: Option<u32>,
}

impl Default for ListEventsParams {
    fn default() -> (params: Self)
        ensures
            params.name is None,
            params.visibility is None,
            params.page is None,
            params.page_size is None,
    {
        ListEventsParams { name: None, visibility: None, page: None, page_size: None }
    }
}

impl ListEventsParams {
    /// The parameters of this record, in the order of their keys.
    pub open spec fn fields(self) -> Seq<(Seq<char>, Option<Seq<char>>)> {
        seq![
            ("name"@, optional_string(self.name)),
            ("page"@, optional_number(self.page)),
            ("page_size"@, optional_number(self.page_size)),
            ("visibility"@, optional_visibility(self.visibility)),
        ]
    }

    /// The parameters of this record, in the order of their keys.
    pub fn query_fields(&self) -> (fields: Vec<QueryField>)
        ensures
            field_texts(fields@) == self.fields(),
    {
        let mut fields: Vec<QueryField> = Vec::new();
        fields.push(text_field("name", &self.name));
        fields.push(number_field("page", self.page));
        fields.push(number_field("page_size", self.page_size));
        fields.push(visibility_field("visibility", self.visibility));
        assert(field_texts(fields@) =~= self.fields());
        fields
    }
}

/// The parameters of an optional record of event filters.
pub open spec fn event_fields(params: Option<&ListEventsParams>) -> Option<
    Seq<(Seq<char>, Option<Seq<char>>)>,
> {
    match params {
        Some(params) => Some(params.fields()),
        None => None,
    }
}

/// What is sent to create or to update an event. What is absent is left out of the
/// body, and left as it is by an update.
#[derive(Debug, Clone)]
pub struct EventRequest {
    /// Event name
    pub name: Option<String>,
    /// Event description
    pub description: Option<String>,
    /// Event location
    pub location: Option<String>,
    /// Event visibility
    pub visibility: Option<Visibility>,
    /// Event start date/time
    pub starts_at: Option<String>,
    /// Event end date/time
    pub ends_at: Option<String>,
    /// Registration opens at
    pub registration_opens_at: Option<String>,
    /// Registration closes at
    pub registration_closes_at: Option<String>,
    /// Whether registration is required
    pub registration_required: Option<bool>,
    /// Maximum attendees
    pub max_attendees: Option<u32>,
}

impl RideWithGpsClient {
    /// Prepares the request for the events, filtered and paged as `params` says. The
    /// response is a page of events.
    pub fn list_events(&self, params: Option<&ListEventsParams>) -> (r: Result<
        Request<()>,
        Error,
    >)
        ensures
            self@.listed("/api/v1/events.json"@, event_fields(params), r),
    {
        match params {
            Some(params) => {
                let fields = params.query_fields();
                self.list("/api/v1/events.json", Some(&fields))
            },
            None => self.list("/api/v1/events.json", None),
        }
    }

    /// Prepares the request that creates an event. The response holds the new event
    /// under `event`.
    pub fn create_event<'a>(&self, event: &'a EventRequest) -> (r: Result<
        Request<&'a EventRequest>,
        Error,
    >)
        ensures
            self@.prepared(
                Method::Post,
                "/api/v1/events.json"@,
                Some(event),
                Reply::Enveloped("event"),
                r,
            ),
    {
        self.post("/api/v1/events.json", event, Reply::Enveloped("event"))
    }

    /// Prepares the request for one event. The response holds it under `event`.
    pub fn get_event(&self, id: u64) -> (r: Result<Request<()>, Error>)
        ensures
            self@.prepared(
                Method::Get,
                item_path("/api/v1/events/"@, id, ".json"@),
                None,
                Reply::Enveloped("event"),
                r,
            ),
    {
        let path = numbered("/api/v1/events/", id, ".json");
        self.get(path.as_str(), Reply::Enveloped("event"))
    }

    /// Prepares the request that updates one event. The response holds the event as
    /// it is afterwards under `event`.
    pub fn update_event<'a>(&self, id: u64, event: &'a EventRequest) -> (r: Result<
        Request<&'a EventRequest>,
        Error,
    >)
        ensures
            self@.prepared(
                Method::Put,
                item_path("/api/v1/events/"@, id, ".json"@),
                Some(event),
                Reply::Enveloped("event"),
                r,
            ),
    {
        let path = numbered("/api/v1/events/", id, ".json");
        self.put(path.as_str(), event, Reply::Enveloped("event"))
    }

    /// Prepares the request that deletes one event.
    pub fn delete_event(&self, id: u64) -> (r: Result<Request<()>, Error>)
        ensures
            self@.prepared(
                Method::Delete,
                item_path("/api/v1/events/"@, id, ".json"@),
                None,
                Reply::Empty,
                r,
            ),
    {
        let path = numbered("/api/v1/events/", id, ".json");
        self.delete(path.as_str())
    }
}

} // verus!
