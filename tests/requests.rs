use foursquare::{Client, Credentials, ErrorKind, SearchOptions, TipsOptions, UriError, VenueDetailsOptions};

#[test]
fn credentials_constructors() {
    assert_eq!(
        Credentials::client("id", "secret"),
        Credentials::Client { client_id: "id".to_string(), client_secret: "secret".to_string() }
    );
    assert_eq!(Credentials::user("tok"), Credentials::User { oauth_token: "tok".to_string() });
    assert_ne!(Credentials::user("tok"), Credentials::user("other"));
    assert_ne!(Credentials::user("id"), Credentials::client("id", ""));
}

#[test]
fn search_url_carries_version_and_client_credentials() {
    let c = Client::new("20170801", Credentials::client("id", "secret"));
    let o = SearchOptions::builder().near("foo bar").build().unwrap();
    assert_eq!(
        c.search_url(&o).unwrap(),
        "https://api.foursquare.com/v2/venues/search?near=foo+bar&v=20170801&client_id=id&client_secret=secret"
    );
}

#[test]
fn user_credentials_send_the_token() {
    let c = Client::new("20170801", Credentials::user("tok en"));
    let o = TipsOptions::builder().limit(5).build().unwrap();
    assert_eq!(
        c.tips_url("abc", &o).unwrap(),
        "https://api.foursquare.com/v2/venues/abc/tips?limit=5&v=20170801&oauth_token=tok+en"
    );
}

#[test]
fn endpoint_paths() {
    let c = Client::with_host("http://localhost:8080", "20180101", Credentials::user("t"));
    let d = VenueDetailsOptions::builder().build().unwrap();
    assert_eq!(c.venue_details_url("v1", &d).unwrap(), "http://localhost:8080/v2/venues/v1?v=20180101&oauth_token=t");
    let h = foursquare::HoursOptions::builder().build().unwrap();
    assert_eq!(c.hours_url("v1", &h).unwrap(), "http://localhost:8080/v2/venues/v1/hours?v=20180101&oauth_token=t");
    let s = foursquare::SuggestOptions::builder().build().unwrap();
    assert_eq!(c.suggest_url(&s).unwrap(), "http://localhost:8080/v2/venues/suggestcompletion?v=20180101&oauth_token=t");
    let r = foursquare::RecommendationsOptions::builder().build().unwrap();
    assert_eq!(c.recommendations_url(&r).unwrap(), "http://localhost:8080/v2/search/recommendations/?v=20180101&oauth_token=t");
    let e = foursquare::ExploreOptions::builder().build().unwrap();
    assert_eq!(c.explore_url(&e).unwrap(), "http://localhost:8080/v2/venues/explore?v=20180101&oauth_token=t");
}

#[test]
fn unparsable_host_is_a_uri_error() {
    let c = Client::with_host("not a url", "20170801", Credentials::user("t"));
    let o = SearchOptions::builder().build().unwrap();
    assert!(matches!(c.search_url(&o), Err(ErrorKind::URI(UriError::Parse(_)))));
}

#[test]
fn request_url_keeps_the_given_query_first() {
    let c = Client::new("1", Credentials::user("t"));
    assert_eq!(
        c.request_url("/v2/x", "a=1").unwrap(),
        "https://api.foursquare.com/v2/x?a=1&v=1&oauth_token=t"
    );
}

#[test]
fn list_commas_reach_the_url_unencoded() {
    let c = Client::new("20170801", Credentials::user("t"));
    let o = foursquare::RecommendationsOptions::builder().near("x").prices(vec![1, 2, 3]).build().unwrap();
    assert_eq!(
        c.recommendations_url(&o).unwrap(),
        "https://api.foursquare.com/v2/search/recommendations/?near=x&prices=1,2,3&v=20170801&oauth_token=t"
    );
}
