use bragi::api::{
    gateway_version, Coord, ExplainResponseBody, Filters, InputQuery, SearchResponseBody,
    StatusResponseBody, StorageHealth, StorageStatus,
};

fn query_with(lat: Option<i64>, lon: Option<i64>) -> InputQuery {
    InputQuery {
        q: String::from("bakery"),
        lat,
        lon,
        shape: None,
        shape_scope: None,
        datasets: None,
        zone_types: None,
        poi_types: None,
    }
}

#[test]
fn lat_without_lon_drops_coordinate() {
    let filters = Filters::from(query_with(Some(48_856_600), None));
    assert_eq!(filters.coord, None);
}

#[test]
fn lon_without_lat_drops_coordinate() {
    let filters = Filters::from(query_with(None, Some(2_352_200)));
    assert_eq!(filters.coord, None);
}

#[test]
fn full_pair_keeps_coordinate() {
    let filters = Filters::from(query_with(Some(48_856_600), Some(2_352_200)));
    assert_eq!(filters.coord, Some(Coord::new(48_856_600, 2_352_200)));
}

#[test]
fn shape_without_scope_drops_shape() {
    let mut query = query_with(None, None);
    query.shape = Some(String::from("polygon"));
    let filters = Filters::from(query);
    assert_eq!(filters.shape, None);
}

#[test]
fn scope_without_shape_drops_shape() {
    let mut query = query_with(None, None);
    query.shape_scope = Some(vec![String::from("street")]);
    let filters = Filters::from(query);
    assert_eq!(filters.shape, None);
}

#[test]
fn full_shape_pair_is_kept() {
    let mut query = query_with(None, None);
    query.shape = Some(String::from("polygon"));
    query.shape_scope = Some(vec![String::from("street"), String::from("house")]);
    let filters = Filters::from(query);
    assert_eq!(
        filters.shape,
        Some((
            String::from("polygon"),
            vec![String::from("street"), String::from("house")]
        ))
    );
}

#[test]
fn optional_sets_pass_through_unchanged() {
    let mut query = query_with(None, None);
    query.datasets = Some(vec![String::from("oa")]);
    query.zone_types = Some(vec![String::from("city")]);
    let filters = Filters::from(query);
    assert_eq!(filters.datasets, Some(vec![String::from("oa")]));
    assert_eq!(filters.zone_types, Some(vec![String::from("city")]));
    assert_eq!(filters.poi_types, None);
}

#[test]
fn normalizing_twice_gives_identical_filters() {
    let mut query = query_with(Some(1), Some(2));
    query.datasets = Some(vec![String::from("oa")]);
    let again = query.clone();
    let once = Filters::from(query);
    let twice = Filters::from(again);
    assert_eq!(once, twice);
}

#[test]
fn default_input_query_is_all_absent() {
    let query = InputQuery::default();
    assert_eq!(query.q, String::new());
    assert_eq!(query.lat, None);
    assert_eq!(query.lon, None);
    assert_eq!(query.shape, None);
    assert_eq!(query.shape_scope, None);
    assert_eq!(query.datasets, None);
    assert_eq!(query.zone_types, None);
    assert_eq!(query.poi_types, None);
}

#[test]
fn docs_count_matches_length() {
    let docs = vec![String::from("a"), String::from("b"), String::from("c")];
    let body = SearchResponseBody::from(docs.clone());
    assert_eq!(body.docs_count, 3);
    assert_eq!(body.docs, docs);
}

#[test]
fn docs_count_of_empty_list_is_zero() {
    let body = SearchResponseBody::from(Vec::<String>::new());
    assert_eq!(body.docs_count, 0);
    assert!(body.docs.is_empty());
}

#[test]
fn explanation_passes_through_unchanged() {
    let payload = serde_json::Value::String(String::from("ranking details"));
    let body = ExplainResponseBody::from(payload.clone());
    assert_eq!(body.explanation, payload);
}

#[test]
fn status_envelope_carries_all_three_fields() {
    let status = StorageStatus {
        health: StorageHealth::Available,
        version: String::from("7.13.2"),
    };
    let body = StatusResponseBody::from(status);
    assert_eq!(body.status, String::from("available"));
    assert_eq!(body.elasticsearch_version, String::from("7.13.2"));
    assert_eq!(body.bragi_version, String::from("1.15.0"));
}

#[test]
fn gateway_version_is_never_empty_whatever_the_health() {
    let down = StorageStatus {
        health: StorageHealth::Unavailable,
        version: String::new(),
    };
    let body = StatusResponseBody::from(down);
    assert_eq!(body.status, String::from("unavailable"));
    assert!(!body.bragi_version.is_empty());
    assert!(!gateway_version().is_empty());
}
