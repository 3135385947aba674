use foursquare::query::{decimal_text, join_commas};
use foursquare::{
    ExploreOptions, Feature, HoursOptions, Intent, RecommendationsOptions, SearchOptions,
    SuggestOptions, TipsOptions, VenueDetailsOptions,
};

fn pair(k: &str, v: &str) -> (String, String) {
    (k.to_string(), v.to_string())
}

#[test]
fn search_options_serialize() {
    assert_eq!(
        SearchOptions::builder().near("foo bar").build().unwrap().query_string(),
        "near=foo+bar"
    )
}

#[test]
fn default_intent() {
    let default: Intent = Default::default();
    assert_eq!(default, Intent::Checkin)
}

#[test]
fn blank_options_have_empty_queries() {
    assert_eq!(SearchOptions::builder().build().unwrap().query_string(), "");
    assert_eq!(SuggestOptions::builder().build().unwrap().query_string(), "");
    assert_eq!(TipsOptions::builder().build().unwrap().query_string(), "");
    assert_eq!(HoursOptions::builder().build().unwrap().query_string(), "");
    assert_eq!(VenueDetailsOptions::builder().build().unwrap().query_string(), "");
    assert_eq!(RecommendationsOptions::builder().build().unwrap().query_string(), "");
    assert_eq!(ExploreOptions::builder().build().unwrap().query_string(), "");
    assert_eq!(SearchOptions::default().query_pairs(), Vec::<(String, String)>::new());
}

#[test]
fn empty_text_fields_are_left_out() {
    let o = SearchOptions::builder().ll("").near("").query("coffee").build().unwrap();
    assert_eq!(o.query_pairs(), vec![pair("query", "coffee")]);
}

#[test]
fn list_fields_are_comma_joined() {
    let o = RecommendationsOptions::builder()
        .prices(vec![1, 2, 3])
        .categories(vec!["a".to_string(), "b".to_string(), "c".to_string()])
        .build()
        .unwrap();
    assert_eq!(o.query_pairs(), vec![pair("prices", "1,2,3"), pair("categories", "a,b,c")]);
    assert_eq!(o.query_string(), "prices=1,2,3&categories=a,b,c");
}

#[test]
fn empty_list_is_sent_empty() {
    let o = RecommendationsOptions::builder().prices(vec![]).build().unwrap();
    assert_eq!(o.query_pairs(), vec![pair("prices", "")]);
}

#[test]
fn features_use_their_codes() {
    assert_eq!(Feature::DogFriendly.to_string(), "13");
    assert_eq!(Feature::TakesCreditCards.to_string(), "0");
    assert_eq!(Feature::Liked.to_string(), "7");
    assert_eq!(Feature::HappyHour.to_string(), "15");
    assert_eq!(Feature::OnlineReservations.code(), 10);
    let o = RecommendationsOptions::builder()
        .features(vec![Feature::Wifi, Feature::DogFriendly, Feature::ParkingLot])
        .build()
        .unwrap();
    assert_eq!(o.query_pairs(), vec![pair("features", "4,13,14")]);
}

#[test]
fn intents_are_lowercase() {
    assert_eq!(Intent::Checkin.as_str(), "checkin");
    assert_eq!(Intent::Global.as_str(), "global");
    assert_eq!(Intent::Browse.as_str(), "browse");
    assert_eq!(Intent::Match.as_str(), "match");
    let o = SearchOptions::builder().intent(Intent::Browse).build().unwrap();
    assert_eq!(o.query_string(), "intent=browse");
}

#[test]
fn fields_keep_declaration_order() {
    let o = SearchOptions::builder()
        .locale("en")
        .query("coffee")
        .ll("37.5665,126.9780")
        .radius(250)
        .limit(10)
        .ll_acc("10.5")
        .category_id("abc")
        .build()
        .unwrap();
    assert_eq!(
        o.query_pairs(),
        vec![
            pair("ll", "37.5665,126.9780"),
            pair("radius", "250"),
            pair("query", "coffee"),
            pair("limit", "10"),
            pair("categoryId", "abc"),
            pair("llAcc", "10.5"),
            pair("locale", "en"),
        ]
    );
    assert_eq!(
        o.query_string(),
        "ll=37.5665%2C126.9780&radius=250&query=coffee&limit=10&categoryId=abc&llAcc=10.5&locale=en"
    );
}

#[test]
fn flags_and_small_numbers() {
    let r = RecommendationsOptions::builder().open_now(true).sort_by_distance(false).build().unwrap();
    assert_eq!(r.query_pairs(), vec![pair("openNow", "true"), pair("sortByDistance", "false")]);
    let e = ExploreOptions::builder().venue_photos(1).saved(0).section("food").build().unwrap();
    assert_eq!(e.query_pairs(), vec![pair("section", "food"), pair("venuePhotos", "1"), pair("saved", "0")]);
}

#[test]
fn tips_options_pairs() {
    let o = TipsOptions::builder().sort("recent").limit(500).offset(20).locale("fr").build().unwrap();
    assert_eq!(o.query_string(), "sort=recent&limit=500&offset=20&locale=fr");
    assert_eq!(HoursOptions::builder().locale("de").build().unwrap().query_string(), "locale=de");
    assert_eq!(VenueDetailsOptions::builder().locale("ko").build().unwrap().query_string(), "locale=ko");
}

#[test]
fn suggest_options_pairs() {
    let o = SuggestOptions::builder().near("Seoul").query("caf").alt(12).alt_acc("3").build().unwrap();
    assert_eq!(o.query_pairs(), vec![pair("near", "Seoul"), pair("query", "caf"), pair("alt", "12"), pair("altAcc", "3")]);
}

#[test]
fn decimal_texts() {
    assert_eq!(decimal_text(0), "0");
    assert_eq!(decimal_text(7), "7");
    assert_eq!(decimal_text(10), "10");
    assert_eq!(decimal_text(100000), "100000");
    assert_eq!(decimal_text(u64::MAX), "18446744073709551615");
}

#[test]
fn comma_joins() {
    assert_eq!(join_commas(&vec![]), "");
    assert_eq!(join_commas(&vec!["a".to_string()]), "a");
    assert_eq!(join_commas(&vec!["a".to_string(), "".to_string(), "c".to_string()]), "a,,c");
}

#[test]
fn form_encoding_escapes_reserved_characters() {
    let o = SearchOptions::builder().query("a&b=c d/é").build().unwrap();
    assert_eq!(o.query_string(), "query=a%26b%3Dc+d%2F%C3%A9");
}

#[test]
fn list_items_are_encoded_one_by_one() {
    let o = RecommendationsOptions::builder()
        .near("x")
        .categories(vec!["a b".to_string(), "c,d".to_string(), "é".to_string()])
        .features(vec![Feature::Wifi, Feature::DogFriendly])
        .build()
        .unwrap();
    assert_eq!(o.query_string(), "near=x&categories=a+b,c%2Cd,%C3%A9&features=4,13");
    let e = RecommendationsOptions::builder().prices(vec![]).build().unwrap();
    assert_eq!(e.query_string(), "prices=");
}
