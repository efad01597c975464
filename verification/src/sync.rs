//! Synchronization: what has changed since a point in time. The service answers with
//! the items that changed and with its own time, which is the point to ask from next.

use crate::client::{Method, Request, RideWithGpsClient};
use crate::encoding::{component_encoded, encode_component};
use crate::error::Error;
use crate::response::Reply;
use vstd::prelude::*;
use vstd::string::StringExecFns;
use vstd::utf8::encode_utf8;

verus! {

/// The RFC 3339 text that `chrono` writes for the UTC time that lies `secs` seconds and
/// `nanos` nanoseconds after the Unix epoch; nothing where `chrono` has no such time.
pub uninterp spec fn rfc3339(secs: int, nanos: int) -> Option<Seq<char>>;

/// Calls `DateTime::from_timestamp`, and `DateTime::to_rfc3339` on the time that it
/// gives. The result depends on the two numbers alone; `rfc3339` is its name.
#[verifier::external_body]
pub(crate) fn rfc3339_text(secs: i64, nanos: u32) -> (r: Option<String>)
    ensures
        match r {
            Some(text) => rfc3339(secs as int, nanos as int) == Some(text@),
            None => rfc3339(secs as int, nanos as int) is None,
        },
{
    match chrono::DateTime::from_timestamp(secs, nanos) {
        Some(time) => Some(time.to_rfc3339()),
        None => None,
    }
}

/// A point in time, in UTC: seconds and nanoseconds after the Unix epoch. Every
/// `Timestamp` is a time that can be written as RFC 3339 text.
#[derive(Debug, Clone, Copy)]
pub struct Timestamp {
    secs: i64,
    nanos: u32,
}

impl Timestamp {
    #[verifier::type_invariant]
    spec fn writable(self) -> bool {
        rfc3339(self.secs as int, self.nanos as int) is Some
    }

    /// The seconds after the Unix epoch.
    pub closed spec fn spec_secs(self) -> int {
        self.secs as int
    }

    /// The nanoseconds after the last full second.
    pub closed spec fn spec_nanos(self) -> int {
        self.nanos as int
    }

    /// The point in time that lies `secs` seconds and `nanos` nanoseconds after the
    /// Unix epoch, if there is such a time.
    pub fn new(secs: i64, nanos: u32) -> (r: Option<Timestamp>)
        ensures
            r is Some <==> rfc3339(secs as int, nanos as int) is Some,
            r matches Some(time) ==> time.spec_secs() == secs && time.spec_nanos() == nanos,
    {
        match rfc3339_text(secs, nanos) {
            Some(_) => Some(Timestamp { secs, nanos }),
            None => None,
        }
    }

    /// The seconds after the Unix epoch.
    pub fn secs(&self) -> (secs: i64)
        ensures
            secs == self.spec_secs(),
    {
        self.secs
    }

    /// The nanoseconds after the last full second.
    pub fn nanos(&self) -> (nanos: u32)
        ensures
            nanos == self.spec_nanos(),
    {
        self.nanos
    }

    /// This time as RFC 3339 text.
    pub fn to_rfc3339(&self) -> (text: String)
        ensures
            rfc3339(self.spec_secs(), self.spec_nanos()) == Some(text@),
    {
        proof {
            use_type_invariant(self);
        }
        match rfc3339_text(self.secs, self.nanos) {
            Some(text) => text,
            None => vstd::pervasive::unreached(),
        }
    }
}

/// The kinds of items that the service keeps in step.
#[derive(Debug, Clone, Copy, PartialEq, Eq, Structural)]
pub enum ItemType {
    /// Route
    Route,
    /// Trip
    Trip,
    /// Event
    Event,
    /// Collection
    Collection,
}

impl ItemType {
    /// The word that the service uses for this kind.
    pub open spec fn word(self) -> Seq<char> {
        match self {
            ItemType::Route => "route"@,
            ItemType::Trip => "trip"@,
            ItemType::Event => "event"@,
            ItemType::Collection => "collection"@,
        }
    }

    /// The word that the service uses for this kind.
    pub fn as_str(self) -> (word: &'static str)
        ensures
            word@ == self.word(),
    {
        match self {
            ItemType::Route => "route",
            ItemType::Trip => "trip",
            ItemType::Event => "event",
            ItemType::Collection => "collection",
        }
    }
}

/// One item that has changed.
#[derive(Debug, Clone)]
pub struct SyncItem {
    /// Item ID
    pub id: u64,
    /// Item type
    pub item_type: ItemType,
    /// When the item was updated
    pub updated_at: Timestamp,
    /// Whether the item was deleted
    pub deleted: Option<bool>,
}

/// What has changed, and the time of the service when it said so.
#[derive(Debug, Clone)]
pub struct SyncResponse {
    /// List of changed items
    pub items: Vec<SyncItem>,
    /// Server datetime for use in next sync request
    pub server_datetime: Timestamp,
}

/// The path that asks for the changes since a time that is written as `since`.
pub open spec fn sync_path(since: Seq<char>) -> Seq<char> {
    "/api/v1/sync.json?since="@ + component_encoded(encode_utf8(since))
}

impl RideWithGpsClient {
    /// Prepares the request for the items that have changed since `since`. The time
    /// goes into the query as RFC 3339 text, encoded as a URL component. The response
    /// is the list of changes itself.
    pub fn sync(&self, since: &Timestamp) -> (r: Result<Request<()>, Error>)
        ensures
            rfc3339(since.spec_secs(), since.spec_nanos()) matches Some(text) && self@.prepared(
                Method::Get,
                sync_path(text),
                None,
                Reply::Bare,
                r,
            ),
    {
        let text = since.to_rfc3339();
        let mut path = "/api/v1/sync.json?since=".to_owned();
        path.append(encode_component(text.as_str()).as_str());
        self.get(path.as_str(), Reply::Bare)
    }
}

} // verus!
