use foursquare::venue::{Timeframe, TimeWindow, VenueHours, PhotoItem, Tip, Tips, TipsResponse, User, UserPhoto, VenueHoursResponse};
use foursquare::venue::{AttributeGroups, Group, Photos, AttributeItem, Category, Contact, Hours, Icon, Menu, Price, Warning};
use foursquare::{hours_response, response_document, tips_response, ClientError, CodecError, ErrorKind, Meta, Response};

const TIPS_BODY: &str = r#"{
  "meta": {"code": 200, "requestId": "r1"},
  "response": {"tips": {"count": 2, "items": [
    {"id": "t1", "text": "Great coffee", "canonicalUrl": "https://x/t1",
     "photo": {"id": "p1", "prefix": "https://img/", "suffix": "/a.jpg", "width": 640, "height": 480,
               "user": {"id": "u1", "firstName": "Ann", "photo": {"prefix": "https://u/", "suffix": "/b.jpg"}},
               "visibility": "public"}},
    {"id": "t2", "text": "Loud", "canonicalUrl": "https://x/t2", "extra": [1, 2]}
  ]}}
}"#;

#[test]
fn success_body_decodes_into_the_envelope() {
    let r = tips_response(200, TIPS_BODY.as_bytes()).unwrap();
    assert_eq!(r.meta.code, 200);
    assert_eq!(r.meta.request_id, "r1");
    assert_eq!(r.meta.error_type, None);
    assert_eq!(r.response.tips.count, 2);
    let items = &r.response.tips.items;
    assert_eq!(items.len(), 2);
    assert_eq!(items[0].id, "t1");
    assert_eq!(items[0].text, "Great coffee");
    assert_eq!(items[0].canonical_url, "https://x/t1");
    let photo = items[0].photo.as_ref().unwrap();
    assert_eq!((photo.width, photo.height), (640, 480));
    let user = photo.user.as_ref().unwrap();
    assert_eq!(user.first_name, "Ann");
    assert_eq!(user.last_name, None);
    assert_eq!(user.photo.suffix, "/b.jpg");
    assert_eq!(items[1].photo, None);
}

#[test]
fn fault_carries_status_and_message() {
    let body = br#"{"meta": {"code": 400, "requestId": "r1", "errorType": "param_error", "errorDetail": "Must provide ll"}, "response": {}}"#;
    match tips_response(400, body) {
        Err(ErrorKind::Fault { code, error }) => {
            assert_eq!(code, 400);
            assert_eq!(error.message, Some("Must provide ll".to_string()));
            assert_eq!(error.error_type, Some("param_error".to_string()));
        }
        other => panic!("expected a fault, got {:?}", other),
    }
}

#[test]
fn fault_without_detail_has_no_message() {
    let body = br#"{"meta": {"code": 500, "requestId": "r2"}}"#;
    match hours_response(500, body) {
        Err(ErrorKind::Fault { code, error }) => {
            assert_eq!(code, 500);
            assert_eq!(error, ClientError { message: None, error_type: None });
        }
        other => panic!("expected a fault, got {:?}", other),
    }
}

#[test]
fn malformed_success_body_is_a_codec_error() {
    assert!(matches!(tips_response(200, b"{\"meta\": "), Err(ErrorKind::Codec(CodecError::Json(_)))));
    assert!(matches!(hours_response(201, b"not json"), Err(ErrorKind::Codec(CodecError::Json(_)))));
}

#[test]
fn success_body_of_the_wrong_shape_is_a_codec_error() {
    let body = br#"{"meta": {"code": 200, "requestId": "r"}, "response": {"tips": {"count": -1, "items": []}}}"#;
    assert!(matches!(tips_response(200, body), Err(ErrorKind::Codec(CodecError::Shape(_)))));
    assert!(matches!(tips_response(200, b"[]"), Err(ErrorKind::Codec(CodecError::Shape(_)))));
}

#[test]
fn fault_body_that_is_not_a_fault_is_returned_as_its_error() {
    assert!(matches!(tips_response(500, b"<html>"), Err(ErrorKind::Codec(CodecError::Json(_)))));
    assert!(matches!(tips_response(400, br#"{"meta": {"code": 400}}"#), Err(ErrorKind::Codec(CodecError::Shape(_)))));
    assert!(matches!(tips_response(404, br#"{"message": "Not Found"}"#), Err(ErrorKind::Codec(CodecError::Shape(_)))));
}

#[test]
fn status_bounds_of_success() {
    let body = br#"{"meta": {"code": 0, "requestId": "r"}}"#;
    assert!(matches!(response_document(199, body), Err(ErrorKind::Fault { code: 199, .. })));
    assert!(matches!(response_document(300, body), Err(ErrorKind::Fault { code: 300, .. })));
    assert!(response_document(299, body).is_ok());
}

#[test]
fn hours_body_decodes() {
    let body = br#"{"meta": {"code": 200, "requestId": "h", "errorType": null},
      "response": {"hours": {"timeframes": [{"days": [1, 2, 3], "includesToday": true,
                                             "open": [{"start": "0800", "end": "1700"}]}]},
                   "popular": {"timeframes": []}}}"#;
    let r = hours_response(200, body).unwrap();
    let tf = &r.response.hours.timeframes[0];
    assert_eq!(tf.days, vec![1, 2, 3]);
    assert_eq!(tf.includes_today, Some(true));
    assert_eq!(tf.open[0].start, "0800");
    assert_eq!(tf.open[0].end, "1700");
    assert!(r.response.popular.timeframes.is_empty());
}

fn through_text(v: &serde_json::Value) -> serde_json::Value {
    let bytes = serde_json::to_vec(v).unwrap();
    serde_json::from_slice(&bytes).unwrap()
}

fn full_tip() -> Tip {
    Tip {
        id: "t".to_string(),
        text: "x".to_string(),
        canonical_url: "u".to_string(),
        photo: Some(PhotoItem {
            id: "p".to_string(),
            prefix: "a".to_string(),
            suffix: "b".to_string(),
            width: 65535,
            height: 1,
            user: Some(User {
                id: "u".to_string(),
                first_name: "F".to_string(),
                last_name: Some("L".to_string()),
                photo: UserPhoto { prefix: "c".to_string(), suffix: "d".to_string() },
            }),
            visibility: "public".to_string(),
        }),
    }
}

#[test]
fn populated_payloads_round_trip() {
    let tip = full_tip();
    assert_eq!(Tip::from_json(&through_text(&tip.to_json())), Some(tip.clone()));
    let tips = TipsResponse { tips: Tips { count: 4000000000, items: vec![tip.clone(), tip] } };
    assert_eq!(TipsResponse::from_json(&through_text(&tips.to_json())), Some(tips));
    let meta = Meta { code: 404, request_id: "r".to_string(), error_type: Some("t".to_string()), error_detail: Some("d".to_string()) };
    assert_eq!(Meta::from_json(&through_text(&meta.to_json())), Some(meta));
    let fault = ClientError { message: Some("m".to_string()), error_type: Some("t".to_string()) };
    assert_eq!(ClientError::from_json(&through_text(&fault.to_json())), Some(fault));
    let cat = Category {
        id: "1".to_string(),
        name: "Cafe".to_string(),
        plural_name: "Cafes".to_string(),
        short_name: "Cafe".to_string(),
        icon: Icon { prefix: "p".to_string(), suffix: "s".to_string() },
        primary: Some(true),
    };
    assert_eq!(Category::from_json(&through_text(&cat.to_json())), Some(cat));
    let hours = Hours { status: Some("Open".to_string()), is_open: true, is_local_holiday: false };
    assert_eq!(Hours::from_json(&through_text(&hours.to_json())), Some(hours));
    let price = Price { tier: 2, message: "Moderate".to_string(), currency: "$".to_string() };
    assert_eq!(Price::from_json(&through_text(&price.to_json())), Some(price));
    let menu = Menu { label: "Menu".to_string(), url: "https://m".to_string() };
    assert_eq!(Menu::from_json(&through_text(&menu.to_json())), Some(menu));
    let attr = AttributeItem { display_name: "Wi-Fi".to_string(), display_value: "Yes".to_string() };
    assert_eq!(AttributeItem::from_json(&through_text(&attr.to_json())), Some(attr));
    let warning = Warning { text: "w".to_string() };
    assert_eq!(Warning::from_json(&through_text(&warning.to_json())), Some(warning));
}

#[test]
fn absent_optionals_round_trip_absent() {
    let tip = Tip { id: "t".to_string(), text: "x".to_string(), canonical_url: "u".to_string(), photo: None };
    let back = Tip::from_json(&through_text(&tip.to_json())).unwrap();
    assert_eq!(back.photo, None);
    let contact = Contact {
        phone: None,
        formatted_phone: None,
        twitter: None,
        facebook: None,
        facebook_username: None,
        facebook_name: None,
    };
    assert_eq!(Contact::from_json(&through_text(&contact.to_json())), Some(contact));
    let fault = ClientError { message: None, error_type: None };
    assert_eq!(ClientError::from_json(&through_text(&fault.to_json())), Some(fault));
    let empty = serde_json::from_slice::<serde_json::Value>(b"{}").unwrap();
    assert_eq!(
        Contact::from_json(&empty),
        Some(Contact { phone: None, formatted_phone: None, twitter: None, facebook: None, facebook_username: None, facebook_name: None })
    );
    let text = serde_json::from_slice::<serde_json::Value>(b"\"x\"").unwrap();
    assert_eq!(Contact::from_json(&text), None);
}

#[test]
fn encoding_uses_wire_names() {
    let v = full_tip().to_json();
    assert_eq!(v["canonicalUrl"], serde_json::Value::from("u"));
    assert_eq!(v["photo"]["user"]["firstName"], serde_json::Value::from("F"));
    let hours = VenueHoursResponse::from_json(&serde_json::from_slice(br#"{"hours": {"timeframes": []}}"#).unwrap());
    assert_eq!(hours, None);
}

#[test]
fn numbers_out_of_range_are_refused() {
    let body = br#"{"id": "p", "prefix": "a", "suffix": "b", "width": 65536, "height": 1, "visibility": "v"}"#;
    let v = serde_json::from_slice::<serde_json::Value>(body).unwrap();
    assert_eq!(PhotoItem::from_json(&v), None);
    let price = serde_json::from_slice::<serde_json::Value>(br#"{"tier": 1.0, "message": "m", "currency": "c"}"#).unwrap();
    assert_eq!(Price::from_json(&price), None);
    let price = serde_json::from_slice::<serde_json::Value>(br#"{"tier": 4, "message": "m", "currency": "c"}"#).unwrap();
    assert_eq!(Price::from_json(&price).map(|p| p.tier), Some(4));
}

#[test]
fn populated_envelopes_round_trip_through_text() {
    let meta = Meta { code: 200, request_id: "r".to_string(), error_type: Some("t".to_string()), error_detail: Some("d".to_string()) };
    let tips = Response { meta: meta.clone(), response: TipsResponse { tips: Tips { count: 1, items: vec![full_tip()] } } };
    let body = serde_json::to_vec(&tips.to_json()).unwrap();
    assert_eq!(tips_response(200, &body).unwrap(), tips);
    let hours = Response {
        meta,
        response: VenueHoursResponse {
            hours: VenueHours {
                timeframes: vec![Timeframe {
                    days: vec![1, 7],
                    includes_today: Some(false),
                    open: vec![TimeWindow { start: "0900".to_string(), end: "+0100".to_string() }],
                }],
            },
            popular: VenueHours { timeframes: vec![] },
        },
    };
    let body = serde_json::to_vec(&hours.to_json()).unwrap();
    assert_eq!(hours_response(204, &body).unwrap(), hours);
}

#[test]
fn absent_envelope_optionals_stay_absent_through_text() {
    let meta = Meta { code: 200, request_id: "r".to_string(), error_type: None, error_detail: None };
    let tip = Tip { id: "t".to_string(), text: "x".to_string(), canonical_url: "u".to_string(), photo: None };
    let tips = Response { meta, response: TipsResponse { tips: Tips { count: 1, items: vec![tip] } } };
    let body = serde_json::to_vec(&tips.to_json()).unwrap();
    let back = tips_response(200, &body).unwrap();
    assert_eq!(back.meta.error_type, None);
    assert_eq!(back.meta.error_detail, None);
    assert_eq!(back.response.tips.items[0].photo, None);
    assert_eq!(back, tips);
}

#[test]
fn groups_round_trip_and_read_the_type_member() {
    let photos = Photos {
        count: 1,
        groups: vec![Group {
            name: "Venue photos".to_string(),
            group_type: "venue".to_string(),
            count: Some(1),
            items: vec![full_tip().photo.unwrap()],
        }],
    };
    let v = photos.to_json();
    assert_eq!(v["groups"][0]["type"], serde_json::Value::from("venue"));
    assert_eq!(Photos::from_json(&through_text(&v)), Some(photos));
    let attrs = AttributeGroups {
        groups: vec![Group {
            name: "Amenities".to_string(),
            group_type: "amenities".to_string(),
            count: None,
            items: vec![AttributeItem { display_name: "Wi-Fi".to_string(), display_value: "Yes".to_string() }],
        }],
    };
    assert_eq!(AttributeGroups::from_json(&through_text(&attrs.to_json())), Some(attrs));
    let body = br#"{"groups": [{"name": "n", "type": "t", "items": [{"displayName": "a", "displayValue": "b"}]}]}"#;
    let read = AttributeGroups::from_json(&serde_json::from_slice(body).unwrap()).unwrap();
    assert_eq!(read.groups[0].count, None);
    assert_eq!(read.groups[0].items[0].display_value, "b");
}
