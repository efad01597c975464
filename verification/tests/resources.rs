use ridewithgps_client::{
    AuthToken, Error, EventRequest, ItemType, MemberPermissions, Method, Reply,
    RideWithGpsClient, SyncItem, SyncResponse, Timestamp, UpdateMemberRequest, Visibility,
};
use ridewithgps_client::response::handle_response;

fn client() -> RideWithGpsClient {
    RideWithGpsClient::new("https://example.test", "k1", None)
}

#[test]
fn a_route_is_fetched_and_read_from_its_envelope() {
    let client = RideWithGpsClient::new("https://example.test", "k1", None);
    let request = client.get_route(123).unwrap();
    assert_eq!(request.method, Method::Get);
    assert_eq!(request.url, "https://example.test/api/v1/routes/123.json");
    assert_eq!(request.headers.get("x-rwgps-api-key").unwrap().as_bytes(), b"k1");
    assert!(request.headers.get("x-rwgps-auth-token").is_none());
    assert!(request.body.is_none());
    assert_eq!(request.reply, Reply::Enveloped("route"));

    let body = "{\"route\":{\"id\":123,\"name\":\"Test\"}}".to_string();
    let route = handle_response(request.reply, 200, Ok(body)).unwrap().unwrap();
    assert_eq!(route["id"], 123);
    assert_eq!(route["name"], "Test");
}

#[test]
fn a_route_that_is_not_there_is_not_found_with_the_body() {
    let request = client().get_route(123).unwrap();
    match handle_response(request.reply, 404, Ok("\"not found\"".to_string())) {
        Err(Error::NotFound(body)) => assert_eq!(body, "\"not found\""),
        _ => panic!("not found was expected"),
    }
}

#[test]
fn sync_asks_from_a_time_and_hands_on_the_next() {
    let since = Timestamp::new(1_735_689_600, 0).unwrap();
    assert_eq!(since.to_rfc3339(), "2025-01-01T00:00:00+00:00");
    let request = client().sync(&since).unwrap();
    assert_eq!(request.method, Method::Get);
    assert_eq!(
        request.url,
        "https://example.test/api/v1/sync.json?since=2025-01-01T00%3A00%3A00%2B00%3A00"
    );
    assert_eq!(request.reply, Reply::Bare);

    let body = "{\"items\": [\
        {\"id\": 123, \"item_type\": \"route\", \"updated_at\": \"2025-01-15T10:30:00Z\", \"deleted\": false},\
        {\"id\": 456, \"item_type\": \"trip\", \"updated_at\": \"2025-01-15T11:00:00Z\", \"deleted\": true}],\
        \"server_datetime\": \"2025-01-15T12:00:00Z\"}"
        .to_string();
    let document = handle_response(request.reply, 200, Ok(body)).unwrap().unwrap();
    assert_eq!(document["items"].as_array().unwrap().len(), 2);
    assert_eq!(document["server_datetime"], "2025-01-15T12:00:00Z");

    let stamp = chrono::DateTime::parse_from_rfc3339(document["server_datetime"].as_str().unwrap())
        .unwrap();
    let response = SyncResponse {
        items: vec![
            SyncItem {
                id: 123,
                item_type: ItemType::Route,
                updated_at: Timestamp::new(1_736_937_000, 0).unwrap(),
                deleted: Some(false),
            },
            SyncItem {
                id: 456,
                item_type: ItemType::Trip,
                updated_at: Timestamp::new(1_736_938_800, 0).unwrap(),
                deleted: Some(true),
            },
        ],
        server_datetime: Timestamp::new(stamp.timestamp(), stamp.timestamp_subsec_nanos())
            .unwrap(),
    };
    assert_eq!(response.items.len(), 2);
    assert_eq!(response.server_datetime.secs(), 1_736_942_400);
    assert_eq!(response.server_datetime.to_rfc3339(), "2025-01-15T12:00:00+00:00");

    let next = client().sync(&response.server_datetime).unwrap();
    assert_eq!(
        next.url,
        "https://example.test/api/v1/sync.json?since=2025-01-15T12%3A00%3A00%2B00%3A00"
    );
}

#[test]
fn a_timestamp_is_a_time_that_can_be_written() {
    let time = Timestamp::new(0, 0).unwrap();
    assert_eq!(time.secs(), 0);
    assert_eq!(time.nanos(), 0);
    assert_eq!(time.to_rfc3339(), "1970-01-01T00:00:00+00:00");

    let fraction = Timestamp::new(-1, 500_000_000).unwrap();
    assert_eq!(fraction.to_rfc3339(), "1969-12-31T23:59:59.500+00:00");

    assert!(Timestamp::new(0, 2_000_000_000).is_none());
    assert!(Timestamp::new(i64::MAX, 0).is_none());
    assert!(Timestamp::new(i64::MIN, 0).is_none());
}

#[test]
fn test_item_type_serialization() {
    assert_eq!(ItemType::Route.as_str(), "route");
    assert_eq!(ItemType::Trip.as_str(), "trip");
    assert_eq!(ItemType::Event.as_str(), "event");
    assert_eq!(ItemType::Collection.as_str(), "collection");
}

#[test]
fn a_token_is_asked_for_with_email_and_password() {
    let request = client().create_auth_token("test@example.com", "password123").unwrap();
    assert_eq!(request.method, Method::Post);
    assert_eq!(request.url, "https://example.test/api/v1/auth_tokens");
    assert_eq!(request.reply, Reply::Bare);
    let body = request.body.unwrap();
    assert_eq!(body.email, "test@example.com");
    assert_eq!(body.password, "password123");
}

#[test]
fn a_token_that_was_issued_is_held_from_then_on() {
    let issued = AuthToken { auth_token: "t-9".to_string(), user_id: Some(5), user: None };
    let signed = client().with_credentials(Ok(issued)).unwrap();
    assert_eq!(signed.auth_token(), Some("t-9"));
    assert_eq!(signed.api_key(), "k1");
    assert_eq!(signed.base_url(), "https://example.test/");
    let headers = signed.build_headers().unwrap();
    assert_eq!(headers.get("x-rwgps-auth-token").unwrap().as_bytes(), b"t-9");
}

#[test]
fn a_failed_exchange_is_handed_on() {
    let refused = client().with_credentials(Err(Error::AuthError("bad password".to_string())));
    match refused {
        Err(Error::AuthError(body)) => assert_eq!(body, "bad password"),
        _ => panic!("the error of the exchange was expected"),
    }
}

#[test]
fn the_requests_for_routes_and_trips() {
    let c = client();
    let polyline = c.get_route_polyline(7).unwrap();
    assert_eq!(polyline.url, "https://example.test/api/v1/routes/7/polyline.json");
    assert_eq!(polyline.reply, Reply::Bare);
    assert_eq!(polyline.method, Method::Get);

    let gone = c.delete_route(7).unwrap();
    assert_eq!(gone.url, "https://example.test/api/v1/routes/7.json");
    assert_eq!(gone.method, Method::Delete);
    assert_eq!(gone.reply, Reply::Empty);

    let trip = c.get_trip(12345).unwrap();
    assert_eq!(trip.url, "https://example.test/api/v1/trips/12345.json");
    assert_eq!(trip.reply, Reply::Enveloped("trip"));

    let line = c.get_trip_polyline(12345).unwrap();
    assert_eq!(line.url, "https://example.test/api/v1/trips/12345/polyline.json");
    assert_eq!(line.reply, Reply::Bare);

    let deleted = c.delete_trip(u64::MAX).unwrap();
    assert_eq!(deleted.url, "https://example.test/api/v1/trips/18446744073709551615.json");
    assert_eq!(deleted.method, Method::Delete);
}

#[test]
fn the_requests_for_collections_and_users() {
    let c = client();
    let one = c.get_collection(9).unwrap();
    assert_eq!(one.url, "https://example.test/api/v1/collections/9.json");
    assert_eq!(one.reply, Reply::Enveloped("collection"));

    let pinned = c.get_pinned_collection().unwrap();
    assert_eq!(pinned.url, "https://example.test/api/v1/collections/pinned.json");
    assert_eq!(pinned.reply, Reply::Enveloped("collection"));

    let user = c.get_current_user().unwrap();
    assert_eq!(user.url, "https://example.test/api/v1/users/current.json");
    assert_eq!(user.reply, Reply::Bare);
    assert_eq!(user.method, Method::Get);
}

#[test]
fn the_requests_for_events() {
    let c = client();
    let event = EventRequest {
        name: Some("My Event".to_string()),
        description: Some("Fun ride".to_string()),
        location: None,
        visibility: Some(Visibility::Public),
        starts_at: None,
        ends_at: None,
        registration_opens_at: None,
        registration_closes_at: None,
        registration_required: Some(true),
        max_attendees: Some(100),
    };
    let created = c.create_event(&event).unwrap();
    assert_eq!(created.method, Method::Post);
    assert_eq!(created.url, "https://example.test/api/v1/events.json");
    assert_eq!(created.reply, Reply::Enveloped("event"));
    let body = created.body.unwrap();
    assert_eq!(body.name.as_deref(), Some("My Event"));
    assert_eq!(body.max_attendees, Some(100));
    assert_eq!(body.visibility, Some(Visibility::Public));

    let updated = c.update_event(12, &event).unwrap();
    assert_eq!(updated.method, Method::Put);
    assert_eq!(updated.url, "https://example.test/api/v1/events/12.json");
    assert_eq!(updated.reply, Reply::Enveloped("event"));
    assert_eq!(updated.body.unwrap().description.as_deref(), Some("Fun ride"));

    let one = c.get_event(12).unwrap();
    assert_eq!(one.url, "https://example.test/api/v1/events/12.json");
    assert_eq!(one.reply, Reply::Enveloped("event"));

    let gone = c.delete_event(12).unwrap();
    assert_eq!(gone.method, Method::Delete);
    assert_eq!(gone.url, "https://example.test/api/v1/events/12.json");
}

#[test]
fn the_requests_for_members() {
    let c = client();
    let one = c.get_member(3).unwrap();
    assert_eq!(one.url, "https://example.test/api/v1/members/3.json");
    assert_eq!(one.reply, Reply::Enveloped("member"));

    let change = UpdateMemberRequest {
        role: Some("moderator".to_string()),
        status: Some("active".to_string()),
        permissions: Some(MemberPermissions {
            manage_routes: Some(true),
            manage_events: Some(false),
            manage_members: Some(false),
            view_analytics: Some(true),
        }),
    };
    let updated = c.update_member(3, &change).unwrap();
    assert_eq!(updated.method, Method::Put);
    assert_eq!(updated.url, "https://example.test/api/v1/members/3.json");
    assert_eq!(updated.reply, Reply::Enveloped("member"));
    let body = updated.body.unwrap();
    assert_eq!(body.role.as_deref(), Some("moderator"));
    assert_eq!(body.permissions.as_ref().unwrap().view_analytics, Some(true));
}

#[test]
fn the_requests_for_points_of_interest() {
    let c = client();
    let created = c.create_point_of_interest("record").unwrap();
    assert_eq!(created.method, Method::Post);
    assert_eq!(created.url, "https://example.test/api/v1/points_of_interest.json");
    assert_eq!(created.reply, Reply::Enveloped("point_of_interest"));
    assert_eq!(created.body, Some("record"));

    let one = c.get_point_of_interest(4).unwrap();
    assert_eq!(one.url, "https://example.test/api/v1/points_of_interest/4.json");
    assert_eq!(one.reply, Reply::Enveloped("point_of_interest"));

    let updated = c.update_point_of_interest(4, 40.5f64).unwrap();
    assert_eq!(updated.method, Method::Put);
    assert_eq!(updated.url, "https://example.test/api/v1/points_of_interest/4.json");
    assert_eq!(updated.body, Some(40.5f64));

    let gone = c.delete_point_of_interest(4).unwrap();
    assert_eq!(gone.method, Method::Delete);
    assert_eq!(gone.url, "https://example.test/api/v1/points_of_interest/4.json");
}

#[test]
fn a_point_is_tied_to_a_route_by_a_post_without_a_body() {
    let c = client();
    let tie = c.associate_poi_with_route(12345, 67890).unwrap();
    assert_eq!(tie.method, Method::Post);
    assert_eq!(
        tie.url,
        "https://example.test/api/v1/points_of_interest/12345/routes/67890.json"
    );
    assert!(tie.body.is_none());
    assert_eq!(tie.reply, Reply::Acknowledged);
    for status in [200u16, 201, 204] {
        assert!(matches!(handle_response(tie.reply, status, Ok(String::new())), Ok(None)));
    }
    match handle_response(tie.reply, 403, Ok("organizations only".to_string())) {
        Err(Error::Forbidden(body)) => assert_eq!(body, "organizations only"),
        _ => panic!("forbidden was expected"),
    }

    let untie = c.disassociate_poi_from_route(12345, 67890).unwrap();
    assert_eq!(untie.method, Method::Delete);
    assert_eq!(
        untie.url,
        "https://example.test/api/v1/points_of_interest/12345/routes/67890.json"
    );
    assert_eq!(untie.reply, Reply::Empty);
}

#[test]
fn the_current_user_comes_without_an_envelope() {
    let client = RideWithGpsClient::new("https://example.test", "k1", Some("t1"));
    let request = client.get_current_user().unwrap();
    assert_eq!(request.method, Method::Get);
    assert_eq!(request.url, "https://example.test/api/v1/users/current.json");
    assert_eq!(request.reply, Reply::Bare);
    assert_eq!(request.headers.get("x-rwgps-auth-token").unwrap().as_bytes(), b"t1");

    let body =
        "{\"id\":123,\"name\":\"Test User\",\"email\":\"test@example.com\",\"premium\":true}"
            .to_string();
    let user = handle_response(request.reply, 200, Ok(body)).unwrap().unwrap();
    assert_eq!(user["id"], 123);
    assert_eq!(user["name"], "Test User");
    assert_eq!(user["email"], "test@example.com");
    assert_eq!(user["premium"], true);
}
