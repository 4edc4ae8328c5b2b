use worldtimeapi::service::{build_path, Client, ClientError, Endpoint, Payload};

#[test]
fn test_endpoint_display() {
    assert_eq!(Endpoint::Timezone.name(), "timezone");
    assert_eq!(Endpoint::Ip.name(), "ip");
}

#[test]
fn test_base_urls() {
    assert_eq!(
        Endpoint::Timezone.base_url(),
        "https://worldtimeapi.org/api/timezone"
    );
    assert_eq!(Endpoint::Ip.base_url(), "https://worldtimeapi.org/api/ip");
}

#[test]
fn test_listing_urls() {
    assert_eq!(
        Endpoint::Timezone.listing_url(),
        "https://worldtimeapi.org/api/timezone/"
    );
    assert_eq!(Endpoint::Ip.listing_url(), "https://worldtimeapi.org/api/ip");
}

#[test]
fn test_build_path_area_location() {
    let mut payload = Payload::new();
    payload.insert("area", "America");
    payload.insert("location", "New_York");
    let path = build_path(&payload).unwrap();
    assert_eq!(path, "/America/New_York");
}

#[test]
fn test_build_path_area_location_region() {
    let mut payload = Payload::new();
    payload.insert("area", "America");
    payload.insert("location", "New_York");
    payload.insert("region", "Detroit");
    let path = build_path(&payload).unwrap();
    assert_eq!(path, "/America/New_York/Detroit");
}

#[test]
fn test_build_path_area_only() {
    let mut payload = Payload::new();
    payload.insert("area", "Etc");
    let path = build_path(&payload).unwrap();
    assert_eq!(path, "/Etc");
}

#[test]
fn test_invalid_key() {
    let mut payload = Payload::new();
    payload.insert("invalid_key", "America");
    let err = build_path(&payload).unwrap_err();
    assert!(err.is_usage());
    assert_eq!(err.message(), "Invalid key: invalid_key");
    match err {
        ClientError::InvalidKey(k) => assert_eq!(k, "invalid_key"),
        other => panic!("expected InvalidKey, got {other:?}"),
    }
}

#[test]
fn test_invalid_key_beside_valid_keys() {
    let mut payload = Payload::new();
    payload.insert("area", "America");
    payload.insert("zone", "Eastern");
    let err = build_path(&payload).unwrap_err();
    assert!(err.is_usage());
    match err {
        ClientError::InvalidKey(k) => assert_eq!(k, "zone"),
        other => panic!("expected InvalidKey, got {other:?}"),
    }
}

#[test]
fn test_missing_area() {
    let mut payload = Payload::new();
    payload.insert("location", "New_York");
    let err = build_path(&payload).unwrap_err();
    assert!(err.is_usage());
    assert_eq!(err.message(), "Missing key: area");
    match err {
        ClientError::MissingKey(k) => assert_eq!(k, "area"),
        other => panic!("expected MissingKey, got {other:?}"),
    }
}

#[test]
fn test_region_without_location() {
    let mut payload = Payload::new();
    payload.insert("area", "America");
    payload.insert("region", "Detroit");
    let err = build_path(&payload).unwrap_err();
    assert!(err.is_usage());
    assert_eq!(err.message(), "Missing key: region");
    match err {
        ClientError::MissingKey(k) => assert_eq!(k, "region"),
        other => panic!("expected MissingKey, got {other:?}"),
    }
}

#[test]
fn test_duplicate_key_first_wins() {
    let mut payload = Payload::new();
    payload.insert("area", "America");
    payload.insert("area", "Europe");
    let path = build_path(&payload).unwrap();
    assert_eq!(path, "/America");
}

#[test]
fn test_request_url() {
    let client = Client::from_parts("http://127.0.0.1:1234/api/timezone".to_string(), vec![]);
    let mut payload = Payload::new();
    payload.insert("area", "America");
    payload.insert("location", "New_York");
    let url = client.request_url(&payload).unwrap();
    assert_eq!(url, "http://127.0.0.1:1234/api/timezone/America/New_York");
}

#[test]
fn test_request_url_rejects_bad_payload() {
    let client = Client::from_parts("http://127.0.0.1:1234/api/timezone".to_string(), vec![]);
    let mut payload = Payload::new();
    payload.insert("region", "Detroit");
    let err = client.request_url(&payload).unwrap_err();
    assert!(err.is_usage());
}

#[test]
fn test_client_new_parses_regions() {
    let body = "[\"America/New_York\", \"Europe/London\"]";
    let client = Client::new(Endpoint::Timezone, body).unwrap();
    assert_eq!(client.regions().len(), 2);
    assert_eq!(client.regions()[0].as_str(), Some("America/New_York"));
    assert_eq!(client.regions()[1].as_str(), Some("Europe/London"));

    let mut payload = Payload::new();
    payload.insert("area", "America");
    payload.insert("location", "New_York");
    let url = client.request_url(&payload).unwrap();
    assert_eq!(url, "https://worldtimeapi.org/api/timezone/America/New_York");
}

#[test]
fn test_client_new_decode_error() {
    let err = Client::new(Endpoint::Timezone, "not json").unwrap_err();
    assert!(!err.is_usage());
    assert_eq!(err.message(), "JSON decode error");
    match err {
        ClientError::Decode(_) => {}
        other => panic!("expected Decode, got {other:?}"),
    }
}

#[test]
fn test_regions_unaffected_by_lookups() {
    let body = "[\"America/New_York\", \"Europe/London\", 3]";
    let client = Client::new(Endpoint::Timezone, body).unwrap();
    let before = client.regions().to_vec();

    let mut good = Payload::new();
    good.insert("area", "America");
    let _ = client.request_url(&good);

    let mut bad = Payload::new();
    bad.insert("oops", "x");
    let _ = client.request_url(&bad);

    assert_eq!(client.regions(), &before[..]);
}
