//! Users.

use crate::client::{Method, Request, RideWithGpsClient};
use crate::error::Error;
use crate::response::Reply;
use vstd::prelude::*;

verus! {

/// A user of the service.
#[derive(Debug, Clone)]
pub struct User {
    /// User ID
    pub id: u64,
    /// User name (full name or display name)
    pub name: Option<String>,
    /// First name
    pub first_name: Option<String>,
    /// Last name
    pub last_name: Option<String>,
    /// Display name
    pub display_name: Option<String>,
    /// User email
    pub email: Option<String>,
    /// User location
    pub location: Option<String>,
    /// User description/bio
    pub description: Option<String>,
    /// Avatar URL
    pub avatar_url: Option<String>,
    /// Whether the user has a premium account
    pub premium: Option<bool>,
    /// Account creation timestamp
    pub created_at: Option<String>,
    /// Account updated timestamp
    pub updated_at: Option<String>,
}

impl RideWithGpsClient {
    /// Prepares the request for the user that is signed in. The response is the user
    /// itself, without an envelope.
    pub fn get_current_user(&self) -> (r: Result<Request<()>, Error>)
        ensures
            self@.prepared(
                Method::Get,
                "/api/v1/users/current.json"@,
                None,
                Reply::Bare,
                r,
            ),
    {
        self.get("/api/v1/users/current.json", Reply::Bare)
    }
}

} // verus!
