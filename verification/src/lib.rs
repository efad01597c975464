//! A typed client for the Ride with GPS REST API: requests are prepared and
//! responses are classified here; the transport is the caller's.

pub mod auth;
pub mod client;
pub mod collections;
pub mod encoding;
pub mod error;
pub mod events;
pub mod headers;
pub mod json;
pub mod members;
pub mod pagination;
pub mod poi;
pub mod query;
pub mod response;
pub mod routes;
pub mod sync;
pub mod text;
pub mod trips;
pub mod urls;
pub mod users;

pub use auth::{AuthToken, CreateAuthTokenRequest};
pub use client::{Method, Request, RideWithGpsClient};
pub use collections::ListCollectionsParams;
pub use error::Error;
pub use events::{EventRequest, ListEventsParams, Organizer};
pub use members::{ListMembersParams, Member, MemberPermissions, UpdateMemberRequest};
pub use pagination::{PaginatedResponse, Pagination};
pub use poi::ListPointsOfInterestParams;
pub use response::Reply;
pub use routes::{ListRoutesParams, Photo, Polyline, Visibility};
pub use sync::{ItemType, SyncItem, SyncResponse, Timestamp};
pub use trips::{Gear, ListTripsParams};
pub use users::User;
