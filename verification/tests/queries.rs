use ridewithgps_client::query::{append_query, number_field, present_pairs, text_field, with_query, QueryField};
use ridewithgps_client::routes::visibility_field;
use ridewithgps_client::{
    Error, ListCollectionsParams, ListEventsParams, ListMembersParams,
    ListPointsOfInterestParams, ListRoutesParams, ListTripsParams, Method, Reply,
    RideWithGpsClient, Visibility,
};

fn client() -> RideWithGpsClient {
    RideWithGpsClient::new("https://example.test", "k1", None)
}

fn keys(fields: &Vec<QueryField>) -> Vec<&'static str> {
    present_pairs(fields).iter().map(|pair| field_key(&pair.0)).collect()
}

fn field_key(key: &str) -> &'static str {
    match key {
        "max_distance" => "max_distance",
        "max_elevation_gain" => "max_elevation_gain",
        "min_distance" => "min_distance",
        "min_elevation_gain" => "min_elevation_gain",
        "name" => "name",
        "page" => "page",
        "page_size" => "page_size",
        "poi_type" => "poi_type",
        "role" => "role",
        "status" => "status",
        "visibility" => "visibility",
        _ => panic!("a key that no record has"),
    }
}

#[test]
fn test_list_routes_params() {
    let params = ListRoutesParams {
        name: Some("test".to_string()),
        visibility: Some(Visibility::Public),
        min_distance: Some("5000.0".to_string()),
        ..Default::default()
    };

    let pairs = present_pairs(&params.query_fields());
    assert!(pairs.iter().any(|pair| pair.0 == "name"));
    assert!(pairs.iter().any(|pair| pair.0 == "visibility"));
    assert!(pairs.iter().any(|pair| pair.0 == "min_distance"));
    assert_eq!(pairs.len(), 3);
}

#[test]
fn test_list_trips_params() {
    let params = ListTripsParams {
        name: Some("ride".to_string()),
        visibility: Some(Visibility::Public),
        min_distance: Some("10000.0".to_string()),
        page: Some(2),
        ..Default::default()
    };

    let pairs = present_pairs(&params.query_fields());
    assert!(pairs.iter().any(|pair| pair.0 == "name"));
    assert!(pairs.iter().any(|pair| pair.0 == "visibility"));
    assert!(pairs.iter().any(|pair| pair.0 == "min_distance"));
    assert!(pairs.iter().any(|pair| pair.0 == "page"));
    assert_eq!(pairs.len(), 4);
}

#[test]
fn test_list_collections_params() {
    let params = ListCollectionsParams {
        name: Some("favorites".to_string()),
        page: Some(1),
        ..Default::default()
    };

    let pairs = present_pairs(&params.query_fields());
    assert!(pairs.iter().any(|pair| pair.0 == "name"));
    assert!(pairs.iter().any(|pair| pair.0 == "page"));
    assert_eq!(pairs.len(), 2);
}

#[test]
fn a_record_without_a_present_field_leaves_the_path_as_it_is() {
    let c = client();
    let routes = c.list_routes(Some(&ListRoutesParams::default())).unwrap();
    assert_eq!(routes.url, "https://example.test/api/v1/routes.json");
    let trips = c.list_trips(Some(&ListTripsParams::default())).unwrap();
    assert_eq!(trips.url, "https://example.test/api/v1/trips.json");
    let events = c.list_events(Some(&ListEventsParams::default())).unwrap();
    assert_eq!(events.url, "https://example.test/api/v1/events.json");
    let collections = c.list_collections(Some(&ListCollectionsParams::default())).unwrap();
    assert_eq!(collections.url, "https://example.test/api/v1/collections.json");
    let members = c.list_members(Some(&ListMembersParams::default())).unwrap();
    assert_eq!(members.url, "https://example.test/api/v1/members.json");
    let pois = c
        .list_points_of_interest(Some(&ListPointsOfInterestParams::default()))
        .unwrap();
    assert_eq!(pois.url, "https://example.test/api/v1/points_of_interest.json");
}

#[test]
fn no_record_leaves_the_path_as_it_is() {
    let c = client();
    let routes = c.list_routes(None).unwrap();
    assert_eq!(routes.url, "https://example.test/api/v1/routes.json");
    assert_eq!(routes.method, Method::Get);
    assert_eq!(routes.reply, Reply::Bare);
    assert!(routes.body.is_none());
    assert_eq!(c.list_trips(None).unwrap().url, "https://example.test/api/v1/trips.json");
    assert_eq!(c.list_events(None).unwrap().url, "https://example.test/api/v1/events.json");
    assert_eq!(
        c.list_collections(None).unwrap().url,
        "https://example.test/api/v1/collections.json"
    );
    assert_eq!(c.list_members(None).unwrap().url, "https://example.test/api/v1/members.json");
    assert_eq!(
        c.list_points_of_interest(None).unwrap().url,
        "https://example.test/api/v1/points_of_interest.json"
    );
}

#[test]
fn the_query_holds_the_present_fields_in_the_order_of_their_keys() {
    let params = ListRoutesParams {
        name: Some("test".to_string()),
        visibility: Some(Visibility::Public),
        min_distance: Some("5000.0".to_string()),
        ..Default::default()
    };
    let request = client().list_routes(Some(&params)).unwrap();
    assert_eq!(
        request.url,
        "https://example.test/api/v1/routes.json?min_distance=5000.0&name=test&visibility=public"
    );
}

#[test]
fn every_field_of_a_route_filter_has_its_place() {
    let params = ListRoutesParams {
        name: Some("n".to_string()),
        visibility: Some(Visibility::Unlisted),
        min_distance: Some("1.5".to_string()),
        max_distance: Some("2.5".to_string()),
        min_elevation_gain: Some("3.0".to_string()),
        max_elevation_gain: Some("4.0".to_string()),
        page: Some(5),
        page_size: Some(60),
    };
    assert_eq!(
        keys(&params.query_fields()),
        vec![
            "max_distance",
            "max_elevation_gain",
            "min_distance",
            "min_elevation_gain",
            "name",
            "page",
            "page_size",
            "visibility"
        ]
    );
    let full = with_query("/r", &params.query_fields()).unwrap();
    assert_eq!(
        full,
        "/r?max_distance=2.5&max_elevation_gain=4.0&min_distance=1.5&min_elevation_gain=3.0&name=n&page=5&page_size=60&visibility=unlisted"
    );
}

#[test]
fn every_field_of_a_trip_filter_has_its_place() {
    let params = ListTripsParams {
        name: Some("n".to_string()),
        visibility: Some(Visibility::Private),
        min_distance: Some("1.5".to_string()),
        max_distance: Some("2.5".to_string()),
        min_elevation_gain: Some("3.0".to_string()),
        max_elevation_gain: Some("4.0".to_string()),
        page: Some(5),
        page_size: Some(60),
    };
    let request = client().list_trips(Some(&params)).unwrap();
    assert_eq!(
        request.url,
        "https://example.test/api/v1/trips.json?max_distance=2.5&max_elevation_gain=4.0&min_distance=1.5&min_elevation_gain=3.0&name=n&page=5&page_size=60&visibility=private"
    );
}

#[test]
fn the_other_records_list_their_fields_in_the_order_of_their_keys() {
    let events = ListEventsParams {
        name: Some("e".to_string()),
        visibility: Some(Visibility::Public),
        page: Some(1),
        page_size: Some(2),
    };
    assert_eq!(
        client().list_events(Some(&events)).unwrap().url,
        "https://example.test/api/v1/events.json?name=e&page=1&page_size=2&visibility=public"
    );

    let collections =
        ListCollectionsParams { name: Some("c".to_string()), page: Some(3), page_size: Some(4) };
    assert_eq!(
        client().list_collections(Some(&collections)).unwrap().url,
        "https://example.test/api/v1/collections.json?name=c&page=3&page_size=4"
    );

    let members = ListMembersParams {
        name: Some("m".to_string()),
        role: Some("admin".to_string()),
        status: Some("active".to_string()),
        page: Some(5),
        page_size: Some(6),
    };
    assert_eq!(
        client().list_members(Some(&members)).unwrap().url,
        "https://example.test/api/v1/members.json?name=m&page=5&page_size=6&role=admin&status=active"
    );

    let pois = ListPointsOfInterestParams {
        name: Some("p".to_string()),
        poi_type: Some("cafe".to_string()),
        page: Some(7),
        page_size: Some(8),
    };
    assert_eq!(
        client().list_points_of_interest(Some(&pois)).unwrap().url,
        "https://example.test/api/v1/points_of_interest.json?name=p&page=7&page_size=8&poi_type=cafe"
    );
}

#[test]
fn absent_fields_leave_no_trace() {
    let params = ListMembersParams { role: Some("admin".to_string()), ..Default::default() };
    let full = with_query("/m", &params.query_fields()).unwrap();
    assert_eq!(full, "/m?role=admin");
    assert!(!full.contains("name"));
    assert!(!full.contains("null"));
    assert!(!full.contains("status"));
    assert!(!full.contains("page"));
}

#[test]
fn values_are_written_as_form_text() {
    let params = ListEventsParams {
        name: Some("a b&c=d/e+f*g-h.i_j~k".to_string()),
        ..Default::default()
    };
    let full = with_query("/e", &params.query_fields()).unwrap();
    assert_eq!(full, "/e?name=a+b%26c%3Dd%2Fe%2Bf*g-h.i_j%7Ek");

    let accents = ListEventsParams { name: Some("caf\u{e9}".to_string()), ..Default::default() };
    assert_eq!(with_query("/e", &accents.query_fields()).unwrap(), "/e?name=caf%C3%A9");

    let empty = ListEventsParams { name: Some(String::new()), ..Default::default() };
    assert_eq!(with_query("/e", &empty.query_fields()).unwrap(), "/e?name=");
}

#[test]
fn numbers_are_written_in_decimal() {
    let params = ListCollectionsParams {
        name: None,
        page: Some(0),
        page_size: Some(u32::MAX),
    };
    assert_eq!(
        with_query("/c", &params.query_fields()).unwrap(),
        "/c?page=0&page_size=4294967295"
    );
}

#[test]
fn fields_are_what_they_were_made_of() {
    let name = text_field("name", &Some("x".to_string()));
    assert_eq!(name.key, "name");
    assert_eq!(name.value.as_deref(), Some("x"));
    assert!(text_field("name", &None).value.is_none());

    let page = number_field("page", Some(12));
    assert_eq!(page.key, "page");
    assert_eq!(page.value.as_deref(), Some("12"));
    assert!(number_field("page", None).value.is_none());

    let visibility = visibility_field("visibility", Some(Visibility::Private));
    assert_eq!(visibility.value.as_deref(), Some("private"));
    assert!(visibility_field("visibility", None).value.is_none());
}

#[test]
fn present_pairs_keeps_the_order_and_drops_what_is_absent() {
    let fields = vec![
        QueryField { key: "b", value: Some("2".to_string()) },
        QueryField { key: "a", value: None },
        QueryField { key: "c", value: Some("3".to_string()) },
        QueryField { key: "b", value: Some("4".to_string()) },
    ];
    let pairs = present_pairs(&fields);
    assert_eq!(
        pairs,
        vec![
            ("b".to_string(), "2".to_string()),
            ("c".to_string(), "3".to_string()),
            ("b".to_string(), "4".to_string())
        ]
    );
    assert!(present_pairs(&Vec::new()).is_empty());
}

#[test]
fn an_encoder_failure_is_an_api_error_with_its_message() {
    let failure = serde_urlencoded::to_string(&[1u8, 2u8]).unwrap_err();
    let expected = format!("Failed to encode query: {}", failure);
    match append_query("/x", Err(failure)) {
        Err(Error::ApiError(message)) => assert_eq!(message, expected),
        _ => panic!("an API error was expected"),
    }
}

#[test]
fn an_encoded_query_goes_after_the_question_mark() {
    assert_eq!(append_query("/x", Ok("a=1".to_string())).unwrap(), "/x?a=1");
    assert_eq!(append_query("", Ok(String::new())).unwrap(), "?");
}

#[test]
fn visibility_has_its_words() {
    assert_eq!(Visibility::Public.as_str(), "public");
    assert_eq!(Visibility::Private.as_str(), "private");
    assert_eq!(Visibility::Unlisted.as_str(), "unlisted");
}

#[test]
fn collections_by_name_on_the_first_page() {
    let params = ListCollectionsParams {
        name: Some("favorites".to_string()),
        page: Some(1),
        ..Default::default()
    };
    let request = client().list_collections(Some(&params)).unwrap();
    assert_eq!(request.method, Method::Get);
    assert_eq!(
        request.url,
        "https://example.test/api/v1/collections.json?name=favorites&page=1"
    );
    assert!(!request.url.contains("page_size"));
}

#[test]
fn an_event_name_with_separators_stays_one_value() {
    let params = ListEventsParams { name: Some("a&b=c".to_string()), ..Default::default() };
    let request = client().list_events(Some(&params)).unwrap();
    assert_eq!(request.url, "https://example.test/api/v1/events.json?name=a%26b%3Dc");
}

#[test]
fn members_by_role_alone() {
    let params = ListMembersParams { role: Some("admin".to_string()), ..Default::default() };
    let request = client().list_members(Some(&params)).unwrap();
    assert_eq!(request.method, Method::Get);
    assert_eq!(request.url, "https://example.test/api/v1/members.json?role=admin");
}

#[test]
fn private_trips_on_the_second_page() {
    let params = ListTripsParams {
        visibility: Some(Visibility::Private),
        page: Some(2),
        ..Default::default()
    };
    let request = client().list_trips(Some(&params)).unwrap();
    assert_eq!(
        request.url,
        "https://example.test/api/v1/trips.json?page=2&visibility=private"
    );
}

#[test]
fn a_query_is_always_written() {
    let odd = ListPointsOfInterestParams {
        name: Some("\u{0}\n\u{10ffff} %".to_string()),
        poi_type: Some(String::new()),
        page: None,
        page_size: None,
    };
    assert_eq!(
        with_query("/p", &odd.query_fields()).unwrap(),
        "/p?name=%00%0A%F4%8F%BF%BF+%25&poi_type="
    );
}
