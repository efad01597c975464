//! Members of a club. The service answers these requests for organization accounts
//! only.

use crate::client::{Method, Request, RideWithGpsClient};
use crate::error::Error;
use crate::query::{
    field_texts, number_field, optional_number, optional_string, text_field, QueryField,
};
use crate::response::Reply;
use crate::text::{item_path, numbered};
use crate::users::User;
use vstd::prelude::*;

verus! {

/// What a member may do.
#[derive(Debug, Clone)]
pub struct MemberPermissions {
    /// Can manage routes
    pub manage_routes: Option<bool>,
    /// Can manage events
    pub manage_events: Option<bool>,
    /// Can manage members
    pub manage_members: Option<bool>,
    /// Can view analytics
    pub view_analytics: Option<bool>,
}

/// A member of a club.
#[derive(Debug, Clone)]
pub struct Member {
    /// Member ID
    pub id: u64,
    /// User ID
    pub user_id: Option<u64>,
    /// Organization ID
    pub organization_id: Option<u64>,
    /// API URL
    pub url: Option<String>,
    /// Whether the member is active
    pub active: Option<bool>,
    /// Whether the member is an admin
    pub admin: Option<bool>,
    /// Whether the member can manage routes
    pub manages_routes: Option<bool>,
    /// Whether the member can manage members
    pub manages_members: Option<bool>,
    /// Whether the member can manage billing
    pub manages_billing: Option<bool>,
    /// When the member was approved
    pub approved_at: Option<String>,
    /// Member role
    pub role: Option<String>,
    /// Member status
    pub status: Option<String>,
    /// User name
    pub name: Option<String>,
    /// User email
    pub email: Option<String>,
    /// Joined timestamp
    pub joined_at: Option<String>,
    /// Created timestamp
    pub created_at: Option<String>,
    /// Updated timestamp
    pub updated_at: Option<String>,
    /// Permissions
    pub permissions: Option<MemberPermissions>,
    /// User object
    pub user: Option<User>,
}

/// The filters and the page of a list of members.
#[derive(Debug, Clone)]
pub struct ListMembersParams {
    /// Filter by member name
    pub name: Option<String>,
    /// Filter by member role
    pub role: Option<String>,
    /// Filter by member status
    pub status: Option<String>,
    /// Page number
    pub page: Option<u32>,
    /// Page size
    pub page_size: Option<u32>,
}

impl Default for ListMembersParams {
    fn default() -> (params: Self)
        ensures
            params.name is None,
            params.role is None,
            params.status is None,
            params.page is None,
            params.page_size is None,
    {
        ListMembersParams { name: None, role: None, status: None, page: None, page_size: None }
    }
}

impl ListMembersParams {
    /// The parameters of this record, in the order of their keys.
    pub open spec fn fields(self) -> Seq<(Seq<char>, Option<Seq<char>>)> {
        seq![
            ("name"@, optional_string(self.name)),
            ("page"@, optional_number(self.page)),
            ("page_size"@, optional_number(self.page_size)),
            ("role"@, optional_string(self.role)),
            ("status"@, optional_string(self.status)),
        ]
    }

    /// The parameters of this record, in the order of their keys.
    pub fn query_fields(&self) -> (fields: Vec<QueryField>)
        ensures
            field_texts(fields@) == self.fields(),
    {
        let mut fields: Vec<QueryField> = Vec::new();
        fields.push(text_field("name", &self.name));
        fields.push(number_field("page", self.page));
        fields.push(number_field("page_size", self.page_size));
        fields.push(text_field("role", &self.role));
        fields.push(text_field("status", &self.status));
        assert(field_texts(fields@) =~= self.fields());
        fields
    }
}

/// The parameters of an optional record of member filters.
pub open spec fn member_fields(params: Option<&ListMembersParams>) -> Option<
    Seq<(Seq<char>, Option<Seq<char>>)>,
> {
    match params {
        Some(params) => Some(params.fields()),
        None => None,
    }
}

/// What is sent to change the role, the status or the permissions of a member. What
/// is absent is left as it is.
#[derive(Debug, Clone)]
pub struct UpdateMemberRequest {
    /// Member role
    pub role: Option<String>,
    /// Member status
    pub status: Option<String>,
    /// Permissions
    pub permissions: Option<MemberPermissions>,
}

impl RideWithGpsClient {
    /// Prepares the request for the members, filtered and paged as `params` says. The
    /// response is a page of members.
    pub fn list_members(&self, params: Option<&ListMembersParams>) -> (r: Result<
        Request<()>,
        Error,
    >)
        ensures
            self@.listed("/api/v1/members.json"@, member_fields(params), r),
    {
        match params {
            Some(params) => {
                let fields = params.query_fields();
                self.list("/api/v1/members.json", Some(&fields))
            },
            None => self.list("/api/v1/members.json", None),
        }
    }

    /// Prepares the request for one member. The response holds it under `member`.
    pub fn get_member(&self, id: u64) -> (r: Result<Request<()>, Error>)
        ensures
            self@.prepared(
                Method::Get,
                item_path("/api/v1/members/"@, id, ".json"@),
                None,
                Reply::Enveloped("member"),
                r,
            ),
    {
        let path = numbered("/api/v1/members/", id, ".json");
        self.get(path.as_str(), Reply::Enveloped("member"))
    }

    /// Prepares the request that updates one member. The response holds the member as
    /// it is afterwards under `member`.
    pub fn update_member<'a>(&self, id: u64, member: &'a UpdateMemberRequest) -> (r: Result<
        Request<&'a UpdateMemberRequest>,
        Error,
    >)
        ensures
            self@.prepared(
                Method::Put,
                item_path("/api/v1/members/"@, id, ".json"@),
                Some(member),
                Reply::Enveloped("member"),
                r,
            ),
    {
        let path = numbered("/api/v1/members/", id, ".json");
        self.put(path.as_str(), member, Reply::Enveloped("member"))
    }
}

} // verus!
