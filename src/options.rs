//! Per-endpoint options and the query pairs they serialize to.
//!
//! Each options type lists its fields in the order in which they appear in
//! the query. Absent fields are left out; list fields are joined with
//! commas; features are sent as their numeric codes.
use vstd::prelude::*;

use crate::query::{
    decimal, decimal_text, form_pair, join_commas, join_pieces, list_field_text, opt_bool_pair,
    opt_bool_piece, opt_list_pair, opt_list_piece, opt_seq, opt_text, opt_text_pair,
    opt_text_piece, opt_texts, opt_u16_pair, opt_u16_piece, opt_u32_pair, opt_u32_piece,
    pair_text, pairs_view, push_opt_bool, push_opt_bool_piece, push_opt_list,
    push_opt_list_piece, push_opt_text, push_opt_text_piece, push_opt_u16, push_opt_u16_piece,
    push_opt_u32, push_opt_u32_piece, push_pair, push_text, push_text_piece, query_text_of,
    text_pair, text_piece, texts_view,
};

verus! {

/// The intent of a venue search.
#[derive(Clone, Copy, Debug, PartialEq, Eq, Structural)]
pub enum Intent {
    Checkin,
    Global,
    Browse,
    Match,
}

impl Intent {
    /// The lowercase name under which the intent is sent.
    pub open spec fn text(self) -> Seq<char> {
        match self {
            Intent::Checkin => "checkin"@,
            Intent::Global => "global"@,
            Intent::Browse => "browse"@,
            Intent::Match => "match"@,
        }
    }

    /// The lowercase name under which the intent is sent.
    pub fn as_str(&self) -> (r: &'static str)
        ensures
            r@ == self.text(),
    {
        match self {
            Intent::Checkin => "checkin",
            Intent::Global => "global",
            Intent::Browse => "browse",
            Intent::Match => "match",
        }
    }
}

impl Default for Intent {
    /// A search checks in unless it says otherwise.
    fn default() -> (r: Intent)
        ensures
            r == Intent::Checkin,
    {
        Intent::Checkin
    }
}

/// A venue feature that recommendations can be limited to.
#[derive(Clone, Copy, Debug, PartialEq, Eq, Structural)]
pub enum Feature {
    TakesCreditCards,
    TakesReservations,
    OffersDelivery,
    OffersTakeOut,
    Wifi,
    OutdoorSeating,
    Liked,
    RecentlyOpened,
    NotChain,
    OnlineReservations,
    DogFriendly,
    ParkingLot,
    HappyHour,
}

impl Feature {
    /// The service's code for the feature. The codes are sparse: 6, 11 and
    /// 12 name no feature here.
    pub open spec fn code_spec(self) -> nat {
        match self {
            Feature::TakesCreditCards => 0,
            Feature::TakesReservations => 1,
            Feature::OffersDelivery => 2,
            Feature::OffersTakeOut => 3,
            Feature::Wifi => 4,
            Feature::OutdoorSeating => 5,
            Feature::Liked => 7,
            Feature::RecentlyOpened => 8,
            Feature::NotChain => 9,
            Feature::OnlineReservations => 10,
            Feature::DogFriendly => 13,
            Feature::ParkingLot => 14,
            Feature::HappyHour => 15,
        }
    }

    /// The service's code for the feature.
    pub fn code(&self) -> (r: u8)
        ensures
            r as nat == self.code_spec(),
    {
        match self {
            Feature::TakesCreditCards => 0,
            Feature::TakesReservations => 1,
            Feature::OffersDelivery => 2,
            Feature::OffersTakeOut => 3,
            Feature::Wifi => 4,
            Feature::OutdoorSeating => 5,
            Feature::Liked => 7,
            Feature::RecentlyOpened => 8,
            Feature::NotChain => 9,
            Feature::OnlineReservations => 10,
            Feature::DogFriendly => 13,
            Feature::ParkingLot => 14,
            Feature::HappyHour => 15,
        }
    }

    /// The text under which the feature is sent: its code in decimal.
    pub open spec fn text(self) -> Seq<char> {
        decimal(self.code_spec())
    }

    /// The text under which the feature is sent: its code in decimal, such
    /// as `13` for a dog-friendly venue.
    pub fn to_string(&self) -> (r: String)
        ensures
            r@ == self.text(),
    {
        decimal_text(self.code() as u64)
    }
}

/// The pair of an optional intent, left out when absent.
pub open spec fn opt_intent_pair(key: Seq<char>, value: Option<Intent>) -> Seq<(Seq<char>, Seq<char>)> {
    match value {
        Some(i) => seq![(key, i.text())],
        None => Seq::empty(),
    }
}

/// The piece of an optional intent, left out when absent.
pub open spec fn opt_intent_piece(key: Seq<char>, value: Option<Intent>) -> Seq<Seq<char>> {
    match value {
        Some(i) => seq![form_pair((key, i.text()))],
        None => Seq::empty(),
    }
}

/// The texts of an optional list of price tiers.
pub open spec fn prices_texts(o: Option<Seq<u16>>) -> Option<Seq<Seq<char>>> {
    match o {
        Some(s) => Some(s.map_values(|n: u16| decimal(n as nat))),
        None => None,
    }
}

/// The texts of an optional list of features.
pub open spec fn features_texts(o: Option<Seq<Feature>>) -> Option<Seq<Seq<char>>> {
    match o {
        Some(s) => Some(s.map_values(|f: Feature| f.text())),
        None => None,
    }
}

/// Appends the pair of an optional intent when present.
fn push_opt_intent(out: &mut Vec<(String, String)>, key: &str, value: Option<Intent>)
    ensures
        pairs_view(final(out)@) == pairs_view(old(out)@) + opt_intent_pair(key@, value),
{
    if let Some(i) = value {
        push_pair(out, key, String::from_str(i.as_str()));
    }
    assert(pairs_view(out@) =~= pairs_view(old(out)@) + opt_intent_pair(key@, value));
}

/// The decimal texts of price tiers.
fn price_texts(prices: &Vec<u16>) -> (r: Vec<String>)
    ensures
        texts_view(r@) == prices@.map_values(|n: u16| decimal(n as nat)),
{
    let mut r: Vec<String> = Vec::new();
    let mut i: usize = 0;
    while i < prices.len()
        invariant
            i <= prices.len(),
            r@.len() == i,
            forall|j: int| 0 <= j < i ==> #[trigger] r@[j]@ == decimal(prices@[j] as nat),
        decreases prices.len() - i,
    {
        r.push(decimal_text(prices[i] as u64));
        i = i + 1;
    }
    assert(texts_view(r@) =~= prices@.map_values(|n: u16| decimal(n as nat)));
    r
}

/// The code texts of features.
fn feature_texts(features: &Vec<Feature>) -> (r: Vec<String>)
    ensures
        texts_view(r@) == features@.map_values(|f: Feature| f.text()),
{
    let mut r: Vec<String> = Vec::new();
    let mut i: usize = 0;
    while i < features.len()
        invariant
            i <= features.len(),
            r@.len() == i,
            forall|j: int| 0 <= j < i ==> #[trigger] r@[j]@ == features@[j].text(),
        decreases features.len() - i,
    {
        r.push(features[i].to_string());
        i = i + 1;
    }
    assert(texts_view(r@) =~= features@.map_values(|f: Feature| f.text()));
    r
}

/// Appends the pair of optional price tiers when present.
fn push_opt_prices(out: &mut Vec<(String, String)>, key: &str, value: &Option<Vec<u16>>)
    ensures
        pairs_view(final(out)@) == pairs_view(old(out)@) + opt_list_pair(key@, prices_texts(opt_seq(*value))),
{
    if let Some(prices) = value {
        let texts = price_texts(prices);
        push_pair(out, key, join_commas(&texts));
    }
    assert(pairs_view(out@) =~= pairs_view(old(out)@) + opt_list_pair(key@, prices_texts(opt_seq(*value))));
}

/// Appends the pair of optional features when present.
fn push_opt_features(out: &mut Vec<(String, String)>, key: &str, value: &Option<Vec<Feature>>)
    ensures
        pairs_view(final(out)@) == pairs_view(old(out)@) + opt_list_pair(key@, features_texts(opt_seq(*value))),
{
    if let Some(features) = value {
        let texts = feature_texts(features);
        push_pair(out, key, join_commas(&texts));
    }
    assert(pairs_view(out@) =~= pairs_view(old(out)@) + opt_list_pair(key@, features_texts(opt_seq(*value))));
}

/// Appends the piece of an optional intent when present.
fn push_opt_intent_piece(out: &mut Vec<String>, key: &str, value: Option<Intent>)
    ensures
        texts_view(final(out)@) == texts_view(old(out)@) + opt_intent_piece(key@, value),
{
    if let Some(i) = value {
        out.push(pair_text(key, i.as_str()));
    }
    assert(texts_view(out@) =~= texts_view(old(out)@) + opt_intent_piece(key@, value));
}

/// Appends the piece of optional price tiers when present.
fn push_opt_prices_piece(out: &mut Vec<String>, key: &str, value: &Option<Vec<u16>>)
    ensures
        texts_view(final(out)@) == texts_view(old(out)@) + opt_list_piece(key@, prices_texts(opt_seq(*value))),
{
    if let Some(prices) = value {
        let texts = price_texts(prices);
        out.push(list_field_text(key, &texts));
    }
    assert(texts_view(out@) =~= texts_view(old(out)@) + opt_list_piece(key@, prices_texts(opt_seq(*value))));
}

/// Appends the piece of optional features when present.
fn push_opt_features_piece(out: &mut Vec<String>, key: &str, value: &Option<Vec<Feature>>)
    ensures
        texts_view(final(out)@) == texts_view(old(out)@) + opt_list_piece(key@, features_texts(opt_seq(*value))),
{
    if let Some(features) = value {
        let texts = feature_texts(features);
        out.push(list_field_text(key, &texts));
    }
    assert(texts_view(out@) =~= texts_view(old(out)@) + opt_list_piece(key@, features_texts(opt_seq(*value))));
}

/// Options of a venue search.
///
/// Every field starts absent; absent fields are left out of the query.
pub struct SearchOptions {
    /// Latitude and longitude of the user's location; required unless `near` is given.
    ll: String,
    /// A place name; required unless `ll` is given.
    near: String,
    /// What the search is for; the service assumes `checkin` when absent.
    intent: Option<Intent>,
    /// Radius in meters around the location.
    radius: Option<u32>,
    /// South-west corner of a bounding box.
    sw: Option<String>,
    /// North-east corner of a bounding box.
    ne: Option<String>,
    /// A search term.
    query: Option<String>,
    /// Number of results to return.
    limit: Option<u32>,
    /// Comma-separated category ids to limit results to.
    category_id: Option<String>,
    /// Accuracy of latitude and longitude in meters, as decimal text.
    ll_acc: Option<String>,
    /// Altitude of the user's location in meters.
    alt: Option<u32>,
    /// Accuracy of the altitude in meters, as decimal text.
    alt_acc: Option<String>,
    /// A third-party URL to match against venues.
    url: Option<String>,
    /// A known third party that `linked_id` belongs to.
    provider_id: Option<String>,
    /// An identifier of the third party named by `provider_id`.
    linked_id: Option<String>,
    /// Language of the response.
    pub locale: Option<String>,
}

/// The abstract value of [`SearchOptions`].
pub struct SearchOptionsView {
    pub ll: Seq<char>,
    pub near: Seq<char>,
    pub intent: Option<Intent>,
    pub radius: Option<u32>,
    pub sw: Option<Seq<char>>,
    pub ne: Option<Seq<char>>,
    pub query: Option<Seq<char>>,
    pub limit: Option<u32>,
    pub category_id: Option<Seq<char>>,
    pub ll_acc: Option<Seq<char>>,
    pub alt: Option<u32>,
    pub alt_acc: Option<Seq<char>>,
    pub url: Option<Seq<char>>,
    pub provider_id: Option<Seq<char>>,
    pub linked_id: Option<Seq<char>>,
    pub locale: Option<Seq<char>>,
}

impl View for SearchOptions {
    type V = SearchOptionsView;

    closed spec fn view(&self) -> SearchOptionsView {
        SearchOptionsView {
            ll: self.ll@,
            near: self.near@,
            intent: self.intent,
            radius: self.radius,
            sw: opt_text(self.sw),
            ne: opt_text(self.ne),
            query: opt_text(self.query),
            limit: self.limit,
            category_id: opt_text(self.category_id),
            ll_acc: opt_text(self.ll_acc),
            alt: self.alt,
            alt_acc: opt_text(self.alt_acc),
            url: opt_text(self.url),
            provider_id: opt_text(self.provider_id),
            linked_id: opt_text(self.linked_id),
            locale: opt_text(self.locale),
        }
    }
}

impl SearchOptionsView {
    /// The value with every field absent.
    pub open spec fn blank(self) -> bool {
        self.ll.len() == 0
        && self.near.len() == 0
        && self.intent is None
        && self.radius is None
        && self.sw is None
        && self.ne is None
        && self.query is None
        && self.limit is None
        && self.category_id is None
        && self.ll_acc is None
        && self.alt is None
        && self.alt_acc is None
        && self.url is None
        && self.provider_id is None
        && self.linked_id is None
        && self.locale is None
    }

    /// The query pairs of these options, in field order.
    pub open spec fn pairs(self) -> Seq<(Seq<char>, Seq<char>)> {
        text_pair("ll"@, self.ll)
            + text_pair("near"@, self.near)
            + opt_intent_pair("intent"@, self.intent)
            + opt_u32_pair("radius"@, self.radius)
            + opt_text_pair("sw"@, self.sw)
            + opt_text_pair("ne"@, self.ne)
            + opt_text_pair("query"@, self.query)
            + opt_u32_pair("limit"@, self.limit)
            + opt_text_pair("categoryId"@, self.category_id)
            + opt_text_pair("llAcc"@, self.ll_acc)
            + opt_u32_pair("alt"@, self.alt)
            + opt_text_pair("altAcc"@, self.alt_acc)
            + opt_text_pair("url"@, self.url)
            + opt_text_pair("providerId"@, self.provider_id)
            + opt_text_pair("linkedId"@, self.linked_id)
            + opt_text_pair("locale"@, self.locale)
    }

    /// The form-encoded pieces of the query, one per present field, in
    /// field order.
    pub open spec fn pieces(self) -> Seq<Seq<char>> {
        text_piece("ll"@, self.ll)
            + text_piece("near"@, self.near)
            + opt_intent_piece("intent"@, self.intent)
            + opt_u32_piece("radius"@, self.radius)
            + opt_text_piece("sw"@, self.sw)
            + opt_text_piece("ne"@, self.ne)
            + opt_text_piece("query"@, self.query)
            + opt_u32_piece("limit"@, self.limit)
            + opt_text_piece("categoryId"@, self.category_id)
            + opt_text_piece("llAcc"@, self.ll_acc)
            + opt_u32_piece("alt"@, self.alt)
            + opt_text_piece("altAcc"@, self.alt_acc)
            + opt_text_piece("url"@, self.url)
            + opt_text_piece("providerId"@, self.provider_id)
            + opt_text_piece("linkedId"@, self.linked_id)
            + opt_text_piece("locale"@, self.locale)
    }

    /// The query text: the pieces joined with `&`. A list field's items are
    /// joined with a literal `,`.
    pub open spec fn query_text(self) -> Seq<char> {
        query_text_of(self.pieces())
    }
}

/// Options with every field absent give no query pairs and an empty query
/// text.
pub proof fn blank_search_options_have_no_pairs(o: SearchOptionsView)
    requires
        o.blank(),
    ensures
        o.pairs() == Seq::<(Seq<char>, Seq<char>)>::empty(),
        o.query_text() == Seq::<char>::empty(),
{
    assert(o.pairs() =~= Seq::<(Seq<char>, Seq<char>)>::empty());
    assert(o.pieces() =~= Seq::<Seq<char>>::empty());
}

impl SearchOptions {
    fn blank() -> (r: SearchOptions)
        ensures
            r@.blank(),
    {
        SearchOptions {
            ll: String::new(),
            near: String::new(),
            intent: None,
            radius: None,
            sw: None,
            ne: None,
            query: None,
            limit: None,
            category_id: None,
            ll_acc: None,
            alt: None,
            alt_acc: None,
            url: None,
            provider_id: None,
            linked_id: None,
            locale: None,
        }
    }

    /// A builder whose fields all start absent.
    pub fn builder() -> (r: SearchOptionsBuilder)
        ensures
            r@.blank(),
    {
        SearchOptionsBuilder { options: SearchOptions::blank() }
    }

    /// The query pairs of these options.
    pub fn query_pairs(&self) -> (r: Vec<(String, String)>)
        ensures
            pairs_view(r@) == self@.pairs(),
    {
        let mut out: Vec<(String, String)> = Vec::new();
        push_text(&mut out, "ll", &self.ll);
        push_text(&mut out, "near", &self.near);
        push_opt_intent(&mut out, "intent", self.intent);
        push_opt_u32(&mut out, "radius", self.radius);
        push_opt_text(&mut out, "sw", &self.sw);
        push_opt_text(&mut out, "ne", &self.ne);
        push_opt_text(&mut out, "query", &self.query);
        push_opt_u32(&mut out, "limit", self.limit);
        push_opt_text(&mut out, "categoryId", &self.category_id);
        push_opt_text(&mut out, "llAcc", &self.ll_acc);
        push_opt_u32(&mut out, "alt", self.alt);
        push_opt_text(&mut out, "altAcc", &self.alt_acc);
        push_opt_text(&mut out, "url", &self.url);
        push_opt_text(&mut out, "providerId", &self.provider_id);
        push_opt_text(&mut out, "linkedId", &self.linked_id);
        push_opt_text(&mut out, "locale", &self.locale);
        assert(pairs_view(out@) =~= self@.pairs());
        out
    }

    /// The form-encoded query text of these options.
    pub fn query_string(&self) -> (r: String)
        ensures
            r@ == self@.query_text(),
            self@.blank() ==> r@.len() == 0,
    {
        let mut out: Vec<String> = Vec::new();
        push_text_piece(&mut out, "ll", &self.ll);
        push_text_piece(&mut out, "near", &self.near);
        push_opt_intent_piece(&mut out, "intent", self.intent);
        push_opt_u32_piece(&mut out, "radius", self.radius);
        push_opt_text_piece(&mut out, "sw", &self.sw);
        push_opt_text_piece(&mut out, "ne", &self.ne);
        push_opt_text_piece(&mut out, "query", &self.query);
        push_opt_u32_piece(&mut out, "limit", self.limit);
        push_opt_text_piece(&mut out, "categoryId", &self.category_id);
        push_opt_text_piece(&mut out, "llAcc", &self.ll_acc);
        push_opt_u32_piece(&mut out, "alt", self.alt);
        push_opt_text_piece(&mut out, "altAcc", &self.alt_acc);
        push_opt_text_piece(&mut out, "url", &self.url);
        push_opt_text_piece(&mut out, "providerId", &self.provider_id);
        push_opt_text_piece(&mut out, "linkedId", &self.linked_id);
        push_opt_text_piece(&mut out, "locale", &self.locale);
        assert(texts_view(out@) =~= self@.pieces());
        proof {
            if self@.blank() {
                blank_search_options_have_no_pairs(self@);
            }
        }
        join_pieces(&out)
    }
}

impl Default for SearchOptions {
    fn default() -> (r: SearchOptions)
        ensures
            r@.blank(),
    {
        SearchOptions::blank()
    }
}

/// Builds [`SearchOptions`] one field at a time.
pub struct SearchOptionsBuilder {
    options: SearchOptions,
}

impl View for SearchOptionsBuilder {
    type V = SearchOptionsView;

    closed spec fn view(&self) -> SearchOptionsView {
        self.options@
    }
}

impl SearchOptionsBuilder {
    /// Sets `ll`. Latitude and longitude of the user's location; required unless `near` is given.
    pub fn ll(self, value: &str) -> (r: SearchOptionsBuilder)
        ensures
            r@ == (SearchOptionsView { ll: value@, ..self@ }),
    {
        let mut options = self.options;
        options.ll = String::from_str(value);
        SearchOptionsBuilder { options }
    }

    /// Sets `near`. A place name; required unless `ll` is given.
    pub fn near(self, value: &str) -> (r: SearchOptionsBuilder)
        ensures
            r@ == (SearchOptionsView { near: value@, ..self@ }),
    {
        let mut options = self.options;
        options.near = String::from_str(value);
        SearchOptionsBuilder { options }
    }

    /// Sets `intent`. What the search is for; the service assumes `checkin` when absent.
    pub fn intent(self, value: Intent) -> (r: SearchOptionsBuilder)
        ensures
            r@ == (SearchOptionsView { intent: Some(value), ..self@ }),
    {
        let mut options = self.options;
        options.intent = Some(value);
        SearchOptionsBuilder { options }
    }

    /// Sets `radius`. Radius in meters around the location.
    pub fn radius(self, value: u32) -> (r: SearchOptionsBuilder)
        ensures
            r@ == (SearchOptionsView { radius: Some(value), ..self@ }),
    {
        let mut options = self.options;
        options.radius = Some(value);
        SearchOptionsBuilder { options }
    }

    /// Sets `sw`. South-west corner of a bounding box.
    pub fn sw(self, value: &str) -> (r: SearchOptionsBuilder)
        ensures
            r@ == (SearchOptionsView { sw: Some(value@), ..self@ }),
    {
        let mut options = self.options;
        options.sw = Some(String::from_str(value));
        SearchOptionsBuilder { options }
    }

    /// Sets `ne`. North-east corner of a bounding box.
    pub fn ne(self, value: &str) -> (r: SearchOptionsBuilder)
        ensures
            r@ == (SearchOptionsView { ne: Some(value@), ..self@ }),
    {
        let mut options = self.options;
        options.ne = Some(String::from_str(value));
        SearchOptionsBuilder { options }
    }

    /// Sets `query`. A search term.
    pub fn query(self, value: &str) -> (r: SearchOptionsBuilder)
        ensures
            r@ == (SearchOptionsView { query: Some(value@), ..self@ }),
    {
        let mut options = self.options;
        options.query = Some(String::from_str(value));
        SearchOptionsBuilder { options }
    }

    /// Sets `limit`. Number of results to return.
    pub fn limit(self, value: u32) -> (r: SearchOptionsBuilder)
        ensures
            r@ == (SearchOptionsView { limit: Some(value), ..self@ }),
    {
        let mut options = self.options;
        options.limit = Some(value);
        SearchOptionsBuilder { options }
    }

    /// Sets `category_id`. Comma-separated category ids to limit results to.
    pub fn category_id(self, value: &str) -> (r: SearchOptionsBuilder)
        ensures
            r@ == (SearchOptionsView { category_id: Some(value@), ..self@ }),
    {
        let mut options = self.options;
        options.category_id = Some(String::from_str(value));
        SearchOptionsBuilder { options }
    }

    /// Sets `ll_acc`. Accuracy of latitude and longitude in meters, as decimal text.
    pub fn ll_acc(self, value: &str) -> (r: SearchOptionsBuilder)
        ensures
            r@ == (SearchOptionsView { ll_acc: Some(value@), ..self@ }),
    {
        let mut options = self.options;
        options.ll_acc = Some(String::from_str(value));
        SearchOptionsBuilder { options }
    }

    /// Sets `alt`. Altitude of the user's location in meters.
    pub fn alt(self, value: u32) -> (r: SearchOptionsBuilder)
        ensures
            r@ == (SearchOptionsView { alt: Some(value), ..self@ }),
    {
        let mut options = self.options;
        options.alt = Some(value);
        SearchOptionsBuilder { options }
    }

    /// Sets `alt_acc`. Accuracy of the altitude in meters, as decimal text.
    pub fn alt_acc(self, value: &str) -> (r: SearchOptionsBuilder)
        ensures
            r@ == (SearchOptionsView { alt_acc: Some(value@), ..self@ }),
    {
        let mut options = self.options;
        options.alt_acc = Some(String::from_str(value));
        SearchOptionsBuilder { options }
    }

    /// Sets `url`. A third-party URL to match against venues.
    pub fn url(self, value: &str) -> (r: SearchOptionsBuilder)
        ensures
            r@ == (SearchOptionsView { url: Some(value@), ..self@ }),
    {
        let mut options = self.options;
        options.url = Some(String::from_str(value));
        SearchOptionsBuilder { options }
    }

    /// Sets `provider_id`. A known third party that `linked_id` belongs to.
    pub fn provider_id(self, value: &str) -> (r: SearchOptionsBuilder)
        ensures
            r@ == (SearchOptionsView { provider_id: Some(value@), ..self@ }),
    {
        let mut options = self.options;
        options.provider_id = Some(String::from_str(value));
        SearchOptionsBuilder { options }
    }

    /// Sets `linked_id`. An identifier of the third party named by `provider_id`.
    pub fn linked_id(self, value: &str) -> (r: SearchOptionsBuilder)
        ensures
            r@ == (SearchOptionsView { linked_id: Some(value@), ..self@ }),
    {
        let mut options = self.options;
        options.linked_id = Some(String::from_str(value));
        SearchOptionsBuilder { options }
    }

    /// Sets `locale`. Language of the response.
    pub fn locale(self, value: &str) -> (r: SearchOptionsBuilder)
        ensures
            r@ == (SearchOptionsView { locale: Some(value@), ..self@ }),
    {
        let mut options = self.options;
        options.locale = Some(String::from_str(value));
        SearchOptionsBuilder { options }
    }

    /// The options set so far; building never fails.
    pub fn build(self) -> (r: Result<SearchOptions, String>)
        ensures
            r is Ok,
            r->Ok_0@ == self@,
    {
        Ok(self.options)
    }
}

/// Options of type-ahead venue suggestions.
///
/// Every field starts absent; absent fields are left out of the query.
pub struct SuggestOptions {
    /// Latitude and longitude of the user's location; required unless `near` is given.
    ll: String,
    /// A place name; required unless `ll` is given.
    near: String,
    /// Radius in meters around the location.
    radius: Option<u32>,
    /// South-west corner of a bounding box.
    sw: Option<String>,
    /// North-east corner of a bounding box.
    ne: Option<String>,
    /// A search term.
    query: Option<String>,
    /// Number of results to return.
    limit: Option<u32>,
    /// Accuracy of latitude and longitude in meters, as decimal text.
    ll_acc: Option<String>,
    /// Altitude of the user's location in meters.
    alt: Option<u32>,
    /// Accuracy of the altitude in meters, as decimal text.
    alt_acc: Option<String>,
    /// Language of the response.
    pub locale: Option<String>,
}

/// The abstract value of [`SuggestOptions`].
pub struct SuggestOptionsView {
    pub ll: Seq<char>,
    pub near: Seq<char>,
    pub radius: Option<u32>,
    pub sw: Option<Seq<char>>,
    pub ne: Option<Seq<char>>,
    pub query: Option<Seq<char>>,
    pub limit: Option<u32>,
    pub ll_acc: Option<Seq<char>>,
    pub alt: Option<u32>,
    pub alt_acc: Option<Seq<char>>,
    pub locale: Option<Seq<char>>,
}

impl View for SuggestOptions {
    type V = SuggestOptionsView;

    closed spec fn view(&self) -> SuggestOptionsView {
        SuggestOptionsView {
            ll: self.ll@,
            near: self.near@,
            radius: self.radius,
            sw: opt_text(self.sw),
            ne: opt_text(self.ne),
            query: opt_text(self.query),
            limit: self.limit,
            ll_acc: opt_text(self.ll_acc),
            alt: self.alt,
            alt_acc: opt_text(self.alt_acc),
            locale: opt_text(self.locale),
        }
    }
}

impl SuggestOptionsView {
    /// The value with every field absent.
    pub open spec fn blank(self) -> bool {
        self.ll.len() == 0
        && self.near.len() == 0
        && self.radius is None
        && self.sw is None
        && self.ne is None
        && self.query is None
        && self.limit is None
        && self.ll_acc is None
        && self.alt is None
        && self.alt_acc is None
        && self.locale is None
    }

    /// The query pairs of these options, in field order.
    pub open spec fn pairs(self) -> Seq<(Seq<char>, Seq<char>)> {
        text_pair("ll"@, self.ll)
            + text_pair("near"@, self.near)
            + opt_u32_pair("radius"@, self.radius)
            + opt_text_pair("sw"@, self.sw)
            + opt_text_pair("ne"@, self.ne)
            + opt_text_pair("query"@, self.query)
            + opt_u32_pair("limit"@, self.limit)
            + opt_text_pair("llAcc"@, self.ll_acc)
            + opt_u32_pair("alt"@, self.alt)
            + opt_text_pair("altAcc"@, self.alt_acc)
            + opt_text_pair("locale"@, self.locale)
    }

    /// The form-encoded pieces of the query, one per present field, in
    /// field order.
    pub open spec fn pieces(self) -> Seq<Seq<char>> {
        text_piece("ll"@, self.ll)
            + text_piece("near"@, self.near)
            + opt_u32_piece("radius"@, self.radius)
            + opt_text_piece("sw"@, self.sw)
            + opt_text_piece("ne"@, self.ne)
            + opt_text_piece("query"@, self.query)
            + opt_u32_piece("limit"@, self.limit)
            + opt_text_piece("llAcc"@, self.ll_acc)
            + opt_u32_piece("alt"@, self.alt)
            + opt_text_piece("altAcc"@, self.alt_acc)
            + opt_text_piece("locale"@, self.locale)
    }

    /// The query text: the pieces joined with `&`. A list field's items are
    /// joined with a literal `,`.
    pub open spec fn query_text(self) -> Seq<char> {
        query_text_of(self.pieces())
    }
}

/// Options with every field absent give no query pairs and an empty query
/// text.
pub proof fn blank_suggest_options_have_no_pairs(o: SuggestOptionsView)
    requires
        o.blank(),
    ensures
        o.pairs() == Seq::<(Seq<char>, Seq<char>)>::empty(),
        o.query_text() == Seq::<char>::empty(),
{
    assert(o.pairs() =~= Seq::<(Seq<char>, Seq<char>)>::empty());
    assert(o.pieces() =~= Seq::<Seq<char>>::empty());
}

impl SuggestOptions {
    fn blank() -> (r: SuggestOptions)
        ensures
            r@.blank(),
    {
        SuggestOptions {
            ll: String::new(),
            near: String::new(),
            radius: None,
            sw: None,
            ne: None,
            query: None,
            limit: None,
            ll_acc: None,
            alt: None,
            alt_acc: None,
            locale: None,
        }
    }

    /// A builder whose fields all start absent.
    pub fn builder() -> (r: SuggestOptionsBuilder)
        ensures
            r@.blank(),
    {
        SuggestOptionsBuilder { options: SuggestOptions::blank() }
    }

    /// The query pairs of these options.
    pub fn query_pairs(&self) -> (r: Vec<(String, String)>)
        ensures
            pairs_view(r@) == self@.pairs(),
    {
        let mut out: Vec<(String, String)> = Vec::new();
        push_text(&mut out, "ll", &self.ll);
        push_text(&mut out, "near", &self.near);
        push_opt_u32(&mut out, "radius", self.radius);
        push_opt_text(&mut out, "sw", &self.sw);
        push_opt_text(&mut out, "ne", &self.ne);
        push_opt_text(&mut out, "query", &self.query);
        push_opt_u32(&mut out, "limit", self.limit);
        push_opt_text(&mut out, "llAcc", &self.ll_acc);
        push_opt_u32(&mut out, "alt", self.alt);
        push_opt_text(&mut out, "altAcc", &self.alt_acc);
        push_opt_text(&mut out, "locale", &self.locale);
        assert(pairs_view(out@) =~= self@.pairs());
        out
    }

    /// The form-encoded query text of these options.
    pub fn query_string(&self) -> (r: String)
        ensures
            r@ == self@.query_text(),
            self@.blank() ==> r@.len() == 0,
    {
        let mut out: Vec<String> = Vec::new();
        push_text_piece(&mut out, "ll", &self.ll);
        push_text_piece(&mut out, "near", &self.near);
        push_opt_u32_piece(&mut out, "radius", self.radius);
        push_opt_text_piece(&mut out, "sw", &self.sw);
        push_opt_text_piece(&mut out, "ne", &self.ne);
        push_opt_text_piece(&mut out, "query", &self.query);
        push_opt_u32_piece(&mut out, "limit", self.limit);
        push_opt_text_piece(&mut out, "llAcc", &self.ll_acc);
        push_opt_u32_piece(&mut out, "alt", self.alt);
        push_opt_text_piece(&mut out, "altAcc", &self.alt_acc);
        push_opt_text_piece(&mut out, "locale", &self.locale);
        assert(texts_view(out@) =~= self@.pieces());
        proof {
            if self@.blank() {
                blank_suggest_options_have_no_pairs(self@);
            }
        }
        join_pieces(&out)
    }
}

impl Default for SuggestOptions {
    fn default() -> (r: SuggestOptions)
        ensures
            r@.blank(),
    {
        SuggestOptions::blank()
    }
}

/// Builds [`SuggestOptions`] one field at a time.
pub struct SuggestOptionsBuilder {
    options: SuggestOptions,
}

impl View for SuggestOptionsBuilder {
    type V = SuggestOptionsView;

    closed spec fn view(&self) -> SuggestOptionsView {
        self.options@
    }
}

impl SuggestOptionsBuilder {
    /// Sets `ll`. Latitude and longitude of the user's location; required unless `near` is given.
    pub fn ll(self, value: &str) -> (r: SuggestOptionsBuilder)
        ensures
            r@ == (SuggestOptionsView { ll: value@, ..self@ }),
    {
        let mut options = self.options;
        options.ll = String::from_str(value);
        SuggestOptionsBuilder { options }
    }

    /// Sets `near`. A place name; required unless `ll` is given.
    pub fn near(self, value: &str) -> (r: SuggestOptionsBuilder)
        ensures
            r@ == (SuggestOptionsView { near: value@, ..self@ }),
    {
        let mut options = self.options;
        options.near = String::from_str(value);
        SuggestOptionsBuilder { options }
    }

    /// Sets `radius`. Radius in meters around the location.
    pub fn radius(self, value: u32) -> (r: SuggestOptionsBuilder)
        ensures
            r@ == (SuggestOptionsView { radius: Some(value), ..self@ }),
    {
        let mut options = self.options;
        options.radius = Some(value);
        SuggestOptionsBuilder { options }
    }

    /// Sets `sw`. South-west corner of a bounding box.
    pub fn sw(self, value: &str) -> (r: SuggestOptionsBuilder)
        ensures
            r@ == (SuggestOptionsView { sw: Some(value@), ..self@ }),
    {
        let mut options = self.options;
        options.sw = Some(String::from_str(value));
        SuggestOptionsBuilder { options }
    }

    /// Sets `ne`. North-east corner of a bounding box.
    pub fn ne(self, value: &str) -> (r: SuggestOptionsBuilder)
        ensures
            r@ == (SuggestOptionsView { ne: Some(value@), ..self@ }),
    {
        let mut options = self.options;
        options.ne = Some(String::from_str(value));
        SuggestOptionsBuilder { options }
    }

    /// Sets `query`. A search term.
    pub fn query(self, value: &str) -> (r: SuggestOptionsBuilder)
        ensures
            r@ == (SuggestOptionsView { query: Some(value@), ..self@ }),
    {
        let mut options = self.options;
        options.query = Some(String::from_str(value));
        SuggestOptionsBuilder { options }
    }

    /// Sets `limit`. Number of results to return.
    pub fn limit(self, value: u32) -> (r: SuggestOptionsBuilder)
        ensures
            r@ == (SuggestOptionsView { limit: Some(value), ..self@ }),
    {
        let mut options = self.options;
        options.limit = Some(value);
        SuggestOptionsBuilder { options }
    }

    /// Sets `ll_acc`. Accuracy of latitude and longitude in meters, as decimal text.
    pub fn ll_acc(self, value: &str) -> (r: SuggestOptionsBuilder)
        ensures
            r@ == (SuggestOptionsView { ll_acc: Some(value@), ..self@ }),
    {
        let mut options = self.options;
        options.ll_acc = Some(String::from_str(value));
        SuggestOptionsBuilder { options }
    }

    /// Sets `alt`. Altitude of the user's location in meters.
    pub fn alt(self, value: u32) -> (r: SuggestOptionsBuilder)
        ensures
            r@ == (SuggestOptionsView { alt: Some(value), ..self@ }),
    {
        let mut options = self.options;
        options.alt = Some(value);
        SuggestOptionsBuilder { options }
    }

    /// Sets `alt_acc`. Accuracy of the altitude in meters, as decimal text.
    pub fn alt_acc(self, value: &str) -> (r: SuggestOptionsBuilder)
        ensures
            r@ == (SuggestOptionsView { alt_acc: Some(value@), ..self@ }),
    {
        let mut options = self.options;
        options.alt_acc = Some(String::from_str(value));
        SuggestOptionsBuilder { options }
    }

    /// Sets `locale`. Language of the response.
    pub fn locale(self, value: &str) -> (r: SuggestOptionsBuilder)
        ensures
            r@ == (SuggestOptionsView { locale: Some(value@), ..self@ }),
    {
        let mut options = self.options;
        options.locale = Some(String::from_str(value));
        SuggestOptionsBuilder { options }
    }

    /// The options set so far; building never fails.
    pub fn build(self) -> (r: Result<SuggestOptions, String>)
        ensures
            r is Ok,
            r->Ok_0@ == self@,
    {
        Ok(self.options)
    }
}

/// Options of a venue's tips.
///
/// Every field starts absent; absent fields are left out of the query.
pub struct TipsOptions {
    /// One of friends, recent or popular.
    sort: Option<String>,
    /// Number of results to return.
    limit: Option<u32>,
    /// Used to page through results.
    offset: Option<u32>,
    /// Language of the response.
    locale: Option<String>,
}

/// The abstract value of [`TipsOptions`].
pub struct TipsOptionsView {
    pub sort: Option<Seq<char>>,
    pub limit: Option<u32>,
    pub offset: Option<u32>,
    pub locale: Option<Seq<char>>,
}

impl View for TipsOptions {
    type V = TipsOptionsView;

    closed spec fn view(&self) -> TipsOptionsView {
        TipsOptionsView {
            sort: opt_text(self.sort),
            limit: self.limit,
            offset: self.offset,
            locale: opt_text(self.locale),
        }
    }
}

impl TipsOptionsView {
    /// The value with every field absent.
    pub open spec fn blank(self) -> bool {
        self.sort is None
        && self.limit is None
        && self.offset is None
        && self.locale is None
    }

    /// The query pairs of these options, in field order.
    pub open spec fn pairs(self) -> Seq<(Seq<char>, Seq<char>)> {
        opt_text_pair("sort"@, self.sort)
            + opt_u32_pair("limit"@, self.limit)
            + opt_u32_pair("offset"@, self.offset)
            + opt_text_pair("locale"@, self.locale)
    }

    /// The form-encoded pieces of the query, one per present field, in
    /// field order.
    pub open spec fn pieces(self) -> Seq<Seq<char>> {
        opt_text_piece("sort"@, self.sort)
            + opt_u32_piece("limit"@, self.limit)
            + opt_u32_piece("offset"@, self.offset)
            + opt_text_piece("locale"@, self.locale)
    }

    /// The query text: the pieces joined with `&`. A list field's items are
    /// joined with a literal `,`.
    pub open spec fn query_text(self) -> Seq<char> {
        query_text_of(self.pieces())
    }
}

/// Options with every field absent give no query pairs and an empty query
/// text.
pub proof fn blank_tips_options_have_no_pairs(o: TipsOptionsView)
    requires
        o.blank(),
    ensures
        o.pairs() == Seq::<(Seq<char>, Seq<char>)>::empty(),
        o.query_text() == Seq::<char>::empty(),
{
    assert(o.pairs() =~= Seq::<(Seq<char>, Seq<char>)>::empty());
    assert(o.pieces() =~= Seq::<Seq<char>>::empty());
}

impl TipsOptions {
    fn blank() -> (r: TipsOptions)
        ensures
            r@.blank(),
    {
        TipsOptions {
            sort: None,
            limit: None,
            offset: None,
            locale: None,
        }
    }

    /// A builder whose fields all start absent.
    pub fn builder() -> (r: TipsOptionsBuilder)
        ensures
            r@.blank(),
    {
        TipsOptionsBuilder { options: TipsOptions::blank() }
    }

    /// The query pairs of these options.
    pub fn query_pairs(&self) -> (r: Vec<(String, String)>)
        ensures
            pairs_view(r@) == self@.pairs(),
    {
        let mut out: Vec<(String, String)> = Vec::new();
        push_opt_text(&mut out, "sort", &self.sort);
        push_opt_u32(&mut out, "limit", self.limit);
        push_opt_u32(&mut out, "offset", self.offset);
        push_opt_text(&mut out, "locale", &self.locale);
        assert(pairs_view(out@) =~= self@.pairs());
        out
    }

    /// The form-encoded query text of these options.
    pub fn query_string(&self) -> (r: String)
        ensures
            r@ == self@.query_text(),
            self@.blank() ==> r@.len() == 0,
    {
        let mut out: Vec<String> = Vec::new();
        push_opt_text_piece(&mut out, "sort", &self.sort);
        push_opt_u32_piece(&mut out, "limit", self.limit);
        push_opt_u32_piece(&mut out, "offset", self.offset);
        push_opt_text_piece(&mut out, "locale", &self.locale);
        assert(texts_view(out@) =~= self@.pieces());
        proof {
            if self@.blank() {
                blank_tips_options_have_no_pairs(self@);
            }
        }
        join_pieces(&out)
    }
}

impl Default for TipsOptions {
    fn default() -> (r: TipsOptions)
        ensures
            r@.blank(),
    {
        TipsOptions::blank()
    }
}

/// Builds [`TipsOptions`] one field at a time.
pub struct TipsOptionsBuilder {
    options: TipsOptions,
}

impl View for TipsOptionsBuilder {
    type V = TipsOptionsView;

    closed spec fn view(&self) -> TipsOptionsView {
        self.options@
    }
}

impl TipsOptionsBuilder {
    /// Sets `sort`. One of friends, recent or popular.
    pub fn sort(self, value: &str) -> (r: TipsOptionsBuilder)
        ensures
            r@ == (TipsOptionsView { sort: Some(value@), ..self@ }),
    {
        let mut options = self.options;
        options.sort = Some(String::from_str(value));
        TipsOptionsBuilder { options }
    }

    /// Sets `limit`. Number of results to return.
    pub fn limit(self, value: u32) -> (r: TipsOptionsBuilder)
        ensures
            r@ == (TipsOptionsView { limit: Some(value), ..self@ }),
    {
        let mut options = self.options;
        options.limit = Some(value);
        TipsOptionsBuilder { options }
    }

    /// Sets `offset`. Used to page through results.
    pub fn offset(self, value: u32) -> (r: TipsOptionsBuilder)
        ensures
            r@ == (TipsOptionsView { offset: Some(value), ..self@ }),
    {
        let mut options = self.options;
        options.offset = Some(value);
        TipsOptionsBuilder { options }
    }

    /// Sets `locale`. Language of the response.
    pub fn locale(self, value: &str) -> (r: TipsOptionsBuilder)
        ensures
            r@ == (TipsOptionsView { locale: Some(value@), ..self@ }),
    {
        let mut options = self.options;
        options.locale = Some(String::from_str(value));
        TipsOptionsBuilder { options }
    }

    /// The options set so far; building never fails.
    pub fn build(self) -> (r: Result<TipsOptions, String>)
        ensures
            r is Ok,
            r->Ok_0@ == self@,
    {
        Ok(self.options)
    }
}

/// Options of a venue's hours.
///
/// Every field starts absent; absent fields are left out of the query.
pub struct HoursOptions {
    /// Language of the response.
    locale: Option<String>,
}

/// The abstract value of [`HoursOptions`].
pub struct HoursOptionsView {
    pub locale: Option<Seq<char>>,
}

impl View for HoursOptions {
    type V = HoursOptionsView;

    closed spec fn view(&self) -> HoursOptionsView {
        HoursOptionsView {
            locale: opt_text(self.locale),
        }
    }
}

impl HoursOptionsView {
    /// The value with every field absent.
    pub open spec fn blank(self) -> bool {
        self.locale is None
    }

    /// The query pairs of these options, in field order.
    pub open spec fn pairs(self) -> Seq<(Seq<char>, Seq<char>)> {
        opt_text_pair("locale"@, self.locale)
    }

    /// The form-encoded pieces of the query, one per present field, in
    /// field order.
    pub open spec fn pieces(self) -> Seq<Seq<char>> {
        opt_text_piece("locale"@, self.locale)
    }

    /// The query text: the pieces joined with `&`. A list field's items are
    /// joined with a literal `,`.
    pub open spec fn query_text(self) -> Seq<char> {
        query_text_of(self.pieces())
    }
}

/// Options with every field absent give no query pairs and an empty query
/// text.
pub proof fn blank_hours_options_have_no_pairs(o: HoursOptionsView)
    requires
        o.blank(),
    ensures
        o.pairs() == Seq::<(Seq<char>, Seq<char>)>::empty(),
        o.query_text() == Seq::<char>::empty(),
{
    assert(o.pairs() =~= Seq::<(Seq<char>, Seq<char>)>::empty());
    assert(o.pieces() =~= Seq::<Seq<char>>::empty());
}

impl HoursOptions {
    fn blank() -> (r: HoursOptions)
        ensures
            r@.blank(),
    {
        HoursOptions {
            locale: None,
        }
    }

    /// A builder whose fields all start absent.
    pub fn builder() -> (r: HoursOptionsBuilder)
        ensures
            r@.blank(),
    {
        HoursOptionsBuilder { options: HoursOptions::blank() }
    }

    /// The query pairs of these options.
    pub fn query_pairs(&self) -> (r: Vec<(String, String)>)
        ensures
            pairs_view(r@) == self@.pairs(),
    {
        let mut out: Vec<(String, String)> = Vec::new();
        push_opt_text(&mut out, "locale", &self.locale);
        assert(pairs_view(out@) =~= self@.pairs());
        out
    }

    /// The form-encoded query text of these options.
    pub fn query_string(&self) -> (r: String)
        ensures
            r@ == self@.query_text(),
            self@.blank() ==> r@.len() == 0,
    {
        let mut out: Vec<String> = Vec::new();
        push_opt_text_piece(&mut out, "locale", &self.locale);
        assert(texts_view(out@) =~= self@.pieces());
        proof {
            if self@.blank() {
                blank_hours_options_have_no_pairs(self@);
            }
        }
        join_pieces(&out)
    }
}

impl Default for HoursOptions {
    fn default() -> (r: HoursOptions)
        ensures
            r@.blank(),
    {
        HoursOptions::blank()
    }
}

/// Builds [`HoursOptions`] one field at a time.
pub struct HoursOptionsBuilder {
    options: HoursOptions,
}

impl View for HoursOptionsBuilder {
    type V = HoursOptionsView;

    closed spec fn view(&self) -> HoursOptionsView {
        self.options@
    }
}

impl HoursOptionsBuilder {
    /// Sets `locale`. Language of the response.
    pub fn locale(self, value: &str) -> (r: HoursOptionsBuilder)
        ensures
            r@ == (HoursOptionsView { locale: Some(value@), ..self@ }),
    {
        let mut options = self.options;
        options.locale = Some(String::from_str(value));
        HoursOptionsBuilder { options }
    }

    /// The options set so far; building never fails.
    pub fn build(self) -> (r: Result<HoursOptions, String>)
        ensures
            r is Ok,
            r->Ok_0@ == self@,
    {
        Ok(self.options)
    }
}

/// Options of a venue's details.
///
/// Every field starts absent; absent fields are left out of the query.
pub struct VenueDetailsOptions {
    /// Language of the response.
    locale: Option<String>,
}

/// The abstract value of [`VenueDetailsOptions`].
pub struct VenueDetailsOptionsView {
    pub locale: Option<Seq<char>>,
}

impl View for VenueDetailsOptions {
    type V = VenueDetailsOptionsView;

    closed spec fn view(&self) -> VenueDetailsOptionsView {
        VenueDetailsOptionsView {
            locale: opt_text(self.locale),
        }
    }
}

impl VenueDetailsOptionsView {
    /// The value with every field absent.
    pub open spec fn blank(self) -> bool {
        self.locale is None
    }

    /// The query pairs of these options, in field order.
    pub open spec fn pairs(self) -> Seq<(Seq<char>, Seq<char>)> {
        opt_text_pair("locale"@, self.locale)
    }

    /// The form-encoded pieces of the query, one per present field, in
    /// field order.
    pub open spec fn pieces(self) -> Seq<Seq<char>> {
        opt_text_piece("locale"@, self.locale)
    }

    /// The query text: the pieces joined with `&`. A list field's items are
    /// joined with a literal `,`.
    pub open spec fn query_text(self) -> Seq<char> {
        query_text_of(self.pieces())
    }
}

/// Options with every field absent give no query pairs and an empty query
/// text.
pub proof fn blank_venue_details_options_have_no_pairs(o: VenueDetailsOptionsView)
    requires
        o.blank(),
    ensures
        o.pairs() == Seq::<(Seq<char>, Seq<char>)>::empty(),
        o.query_text() == Seq::<char>::empty(),
{
    assert(o.pairs() =~= Seq::<(Seq<char>, Seq<char>)>::empty());
    assert(o.pieces() =~= Seq::<Seq<char>>::empty());
}

impl VenueDetailsOptions {
    fn blank() -> (r: VenueDetailsOptions)
        ensures
            r@.blank(),
    {
        VenueDetailsOptions {
            locale: None,
        }
    }

    /// A builder whose fields all start absent.
    pub fn builder() -> (r: VenueDetailsOptionsBuilder)
        ensures
            r@.blank(),
    {
        VenueDetailsOptionsBuilder { options: VenueDetailsOptions::blank() }
    }

    /// The query pairs of these options.
    pub fn query_pairs(&self) -> (r: Vec<(String, String)>)
        ensures
            pairs_view(r@) == self@.pairs(),
    {
        let mut out: Vec<(String, String)> = Vec::new();
        push_opt_text(&mut out, "locale", &self.locale);
        assert(pairs_view(out@) =~= self@.pairs());
        out
    }

    /// The form-encoded query text of these options.
    pub fn query_string(&self) -> (r: String)
        ensures
            r@ == self@.query_text(),
            self@.blank() ==> r@.len() == 0,
    {
        let mut out: Vec<String> = Vec::new();
        push_opt_text_piece(&mut out, "locale", &self.locale);
        assert(texts_view(out@) =~= self@.pieces());
        proof {
            if self@.blank() {
                blank_venue_details_options_have_no_pairs(self@);
            }
        }
        join_pieces(&out)
    }
}

impl Default for VenueDetailsOptions {
    fn default() -> (r: VenueDetailsOptions)
        ensures
            r@.blank(),
    {
        VenueDetailsOptions::blank()
    }
}

/// Builds [`VenueDetailsOptions`] one field at a time.
pub struct VenueDetailsOptionsBuilder {
    options: VenueDetailsOptions,
}

impl View for VenueDetailsOptionsBuilder {
    type V = VenueDetailsOptionsView;

    closed spec fn view(&self) -> VenueDetailsOptionsView {
        self.options@
    }
}

impl VenueDetailsOptionsBuilder {
    /// Sets `locale`. Language of the response.
    pub fn locale(self, value: &str) -> (r: VenueDetailsOptionsBuilder)
        ensures
            r@ == (VenueDetailsOptionsView { locale: Some(value@), ..self@ }),
    {
        let mut options = self.options;
        options.locale = Some(String::from_str(value));
        VenueDetailsOptionsBuilder { options }
    }

    /// The options set so far; building never fails.
    pub fn build(self) -> (r: Result<VenueDetailsOptions, String>)
        ensures
            r is Ok,
            r->Ok_0@ == self@,
    {
        Ok(self.options)
    }
}

/// Options of venue recommendations.
///
/// Every field starts absent; absent fields are left out of the query.
pub struct RecommendationsOptions {
    /// Latitude and longitude of the user's location; required unless `near` is given.
    ll: String,
    /// A place name; required unless `ll` is given.
    near: String,
    /// Accuracy of latitude and longitude in meters, as decimal text.
    ll_acc: Option<String>,
    /// Altitude of the user's location in meters.
    alt: Option<u32>,
    /// Accuracy of the altitude in meters, as decimal text.
    alt_acc: Option<String>,
    /// Radius in meters around the location.
    radius: Option<u32>,
    /// Top-level intent such as food or coffee.
    intent: Option<String>,
    /// Price tiers to match, from 1 to 4.
    prices: Option<Vec<u16>>,
    /// A search term.
    query: Option<String>,
    /// Categories to match after the query is applied.
    categories: Option<Vec<String>>,
    /// Comma-separated category ids to limit results to.
    category_id: Option<String>,
    /// Number of results to return.
    limit: Option<u32>,
    /// Used to page through results.
    offset: Option<u32>,
    /// Features the venues must have.
    features: Option<Vec<Feature>>,
    /// Only venues open now.
    open_now: Option<bool>,
    /// Sort by distance instead of relevance.
    sort_by_distance: Option<bool>,
    /// Personalization of the results.
    personalization: Option<String>,
    /// Day of the week, 1 for Monday to 7 for Sunday.
    local_day: Option<String>,
    /// Time of day, HH in 24-hour format.
    local_time: Option<String>,
    /// Language of the response.
    locale: Option<String>,
}

/// The abstract value of [`RecommendationsOptions`].
pub struct RecommendationsOptionsView {
    pub ll: Seq<char>,
    pub near: Seq<char>,
    pub ll_acc: Option<Seq<char>>,
    pub alt: Option<u32>,
    pub alt_acc: Option<Seq<char>>,
    pub radius: Option<u32>,
    pub intent: Option<Seq<char>>,
    pub prices: Option<Seq<u16>>,
    pub query: Option<Seq<char>>,
    pub categories: Option<Seq<Seq<char>>>,
    pub category_id: Option<Seq<char>>,
    pub limit: Option<u32>,
    pub offset: Option<u32>,
    pub features: Option<Seq<Feature>>,
    pub open_now: Option<bool>,
    pub sort_by_distance: Option<bool>,
    pub personalization: Option<Seq<char>>,
    pub local_day: Option<Seq<char>>,
    pub local_time: Option<Seq<char>>,
    pub locale: Option<Seq<char>>,
}

impl View for RecommendationsOptions {
    type V = RecommendationsOptionsView;

    closed spec fn view(&self) -> RecommendationsOptionsView {
        RecommendationsOptionsView {
            ll: self.ll@,
            near: self.near@,
            ll_acc: opt_text(self.ll_acc),
            alt: self.alt,
            alt_acc: opt_text(self.alt_acc),
            radius: self.radius,
            intent: opt_text(self.intent),
            prices: opt_seq(self.prices),
            query: opt_text(self.query),
            categories: opt_texts(self.categories),
            category_id: opt_text(self.category_id),
            limit: self.limit,
            offset: self.offset,
            features: opt_seq(self.features),
            open_now: self.open_now,
            sort_by_distance: self.sort_by_distance,
            personalization: opt_text(self.personalization),
            local_day: opt_text(self.local_day),
            local_time: opt_text(self.local_time),
            locale: opt_text(self.locale),
        }
    }
}

impl RecommendationsOptionsView {
    /// The value with every field absent.
    pub open spec fn blank(self) -> bool {
        self.ll.len() == 0
        && self.near.len() == 0
        && self.ll_acc is None
        && self.alt is None
        && self.alt_acc is None
        && self.radius is None
        && self.intent is None
        && self.prices is None
        && self.query is None
        && self.categories is None
        && self.category_id is None
        && self.limit is None
        && self.offset is None
        && self.features is None
        && self.open_now is None
        && self.sort_by_distance is None
        && self.personalization is None
        && self.local_day is None
        && self.local_time is None
        && self.locale is None
    }

    /// The query pairs of these options, in field order.
    pub open spec fn pairs(self) -> Seq<(Seq<char>, Seq<char>)> {
        text_pair("ll"@, self.ll)
            + text_pair("near"@, self.near)
            + opt_text_pair("llAcc"@, self.ll_acc)
            + opt_u32_pair("alt"@, self.alt)
            + opt_text_pair("altAcc"@, self.alt_acc)
            + opt_u32_pair("radius"@, self.radius)
            + opt_text_pair("intent"@, self.intent)
            + opt_list_pair("prices"@, prices_texts(self.prices))
            + opt_text_pair("query"@, self.query)
            + opt_list_pair("categories"@, self.categories)
            + opt_text_pair("categoryId"@, self.category_id)
            + opt_u32_pair("limit"@, self.limit)
            + opt_u32_pair("offset"@, self.offset)
            + opt_list_pair("features"@, features_texts(self.features))
            + opt_bool_pair("openNow"@, self.open_now)
            + opt_bool_pair("sortByDistance"@, self.sort_by_distance)
            + opt_text_pair("personalization"@, self.personalization)
            + opt_text_pair("localDay"@, self.local_day)
            + opt_text_pair("localTime"@, self.local_time)
            + opt_text_pair("locale"@, self.locale)
    }

    /// The form-encoded pieces of the query, one per present field, in
    /// field order.
    pub open spec fn pieces(self) -> Seq<Seq<char>> {
        text_piece("ll"@, self.ll)
            + text_piece("near"@, self.near)
            + opt_text_piece("llAcc"@, self.ll_acc)
            + opt_u32_piece("alt"@, self.alt)
            + opt_text_piece("altAcc"@, self.alt_acc)
            + opt_u32_piece("radius"@, self.radius)
            + opt_text_piece("intent"@, self.intent)
            + opt_list_piece("prices"@, prices_texts(self.prices))
            + opt_text_piece("query"@, self.query)
            + opt_list_piece("categories"@, self.categories)
            + opt_text_piece("categoryId"@, self.category_id)
            + opt_u32_piece("limit"@, self.limit)
            + opt_u32_piece("offset"@, self.offset)
            + opt_list_piece("features"@, features_texts(self.features))
            + opt_bool_piece("openNow"@, self.open_now)
            + opt_bool_piece("sortByDistance"@, self.sort_by_distance)
            + opt_text_piece("personalization"@, self.personalization)
            + opt_text_piece("localDay"@, self.local_day)
            + opt_text_piece("localTime"@, self.local_time)
            + opt_text_piece("locale"@, self.locale)
    }

    /// The query text: the pieces joined with `&`. A list field's items are
    /// joined with a literal `,`.
    pub open spec fn query_text(self) -> Seq<char> {
        query_text_of(self.pieces())
    }
}

/// Options with every field absent give no query pairs and an empty query
/// text.
pub proof fn blank_recommendations_options_have_no_pairs(o: RecommendationsOptionsView)
    requires
        o.blank(),
    ensures
        o.pairs() == Seq::<(Seq<char>, Seq<char>)>::empty(),
        o.query_text() == Seq::<char>::empty(),
{
    assert(o.pairs() =~= Seq::<(Seq<char>, Seq<char>)>::empty());
    assert(o.pieces() =~= Seq::<Seq<char>>::empty());
}

impl RecommendationsOptions {
    fn blank() -> (r: RecommendationsOptions)
        ensures
            r@.blank(),
    {
        RecommendationsOptions {
            ll: String::new(),
            near: String::new(),
            ll_acc: None,
            alt: None,
            alt_acc: None,
            radius: None,
            intent: None,
            prices: None,
            query: None,
            categories: None,
            category_id: None,
            limit: None,
            offset: None,
            features: None,
            open_now: None,
            sort_by_distance: None,
            personalization: None,
            local_day: None,
            local_time: None,
            locale: None,
        }
    }

    /// A builder whose fields all start absent.
    pub fn builder() -> (r: RecommendationsOptionsBuilder)
        ensures
            r@.blank(),
    {
        RecommendationsOptionsBuilder { options: RecommendationsOptions::blank() }
    }

    /// The query pairs of these options.
    pub fn query_pairs(&self) -> (r: Vec<(String, String)>)
        ensures
            pairs_view(r@) == self@.pairs(),
    {
        let mut out: Vec<(String, String)> = Vec::new();
        push_text(&mut out, "ll", &self.ll);
        push_text(&mut out, "near", &self.near);
        push_opt_text(&mut out, "llAcc", &self.ll_acc);
        push_opt_u32(&mut out, "alt", self.alt);
        push_opt_text(&mut out, "altAcc", &self.alt_acc);
        push_opt_u32(&mut out, "radius", self.radius);
        push_opt_text(&mut out, "intent", &self.intent);
        push_opt_prices(&mut out, "prices", &self.prices);
        push_opt_text(&mut out, "query", &self.query);
        push_opt_list(&mut out, "categories", &self.categories);
        push_opt_text(&mut out, "categoryId", &self.category_id);
        push_opt_u32(&mut out, "limit", self.limit);
        push_opt_u32(&mut out, "offset", self.offset);
        push_opt_features(&mut out, "features", &self.features);
        push_opt_bool(&mut out, "openNow", self.open_now);
        push_opt_bool(&mut out, "sortByDistance", self.sort_by_distance);
        push_opt_text(&mut out, "personalization", &self.personalization);
        push_opt_text(&mut out, "localDay", &self.local_day);
        push_opt_text(&mut out, "localTime", &self.local_time);
        push_opt_text(&mut out, "locale", &self.locale);
        assert(pairs_view(out@) =~= self@.pairs());
        out
    }

    /// The form-encoded query text of these options.
    pub fn query_string(&self) -> (r: String)
        ensures
            r@ == self@.query_text(),
            self@.blank() ==> r@.len() == 0,
    {
        let mut out: Vec<String> = Vec::new();
        push_text_piece(&mut out, "ll", &self.ll);
        push_text_piece(&mut out, "near", &self.near);
        push_opt_text_piece(&mut out, "llAcc", &self.ll_acc);
        push_opt_u32_piece(&mut out, "alt", self.alt);
        push_opt_text_piece(&mut out, "altAcc", &self.alt_acc);
        push_opt_u32_piece(&mut out, "radius", self.radius);
        push_opt_text_piece(&mut out, "intent", &self.intent);
        push_opt_prices_piece(&mut out, "prices", &self.prices);
        push_opt_text_piece(&mut out, "query", &self.query);
        push_opt_list_piece(&mut out, "categories", &self.categories);
        push_opt_text_piece(&mut out, "categoryId", &self.category_id);
        push_opt_u32_piece(&mut out, "limit", self.limit);
        push_opt_u32_piece(&mut out, "offset", self.offset);
        push_opt_features_piece(&mut out, "features", &self.features);
        push_opt_bool_piece(&mut out, "openNow", self.open_now);
        push_opt_bool_piece(&mut out, "sortByDistance", self.sort_by_distance);
        push_opt_text_piece(&mut out, "personalization", &self.personalization);
        push_opt_text_piece(&mut out, "localDay", &self.local_day);
        push_opt_text_piece(&mut out, "localTime", &self.local_time);
        push_opt_text_piece(&mut out, "locale", &self.locale);
        assert(texts_view(out@) =~= self@.pieces());
        proof {
            if self@.blank() {
                blank_recommendations_options_have_no_pairs(self@);
            }
        }
        join_pieces(&out)
    }
}

impl Default for RecommendationsOptions {
    fn default() -> (r: RecommendationsOptions)
        ensures
            r@.blank(),
    {
        RecommendationsOptions::blank()
    }
}

/// Builds [`RecommendationsOptions`] one field at a time.
pub struct RecommendationsOptionsBuilder {
    options: RecommendationsOptions,
}

impl View for RecommendationsOptionsBuilder {
    type V = RecommendationsOptionsView;

    closed spec fn view(&self) -> RecommendationsOptionsView {
        self.options@
    }
}

impl RecommendationsOptionsBuilder {
    /// Sets `ll`. Latitude and longitude of the user's location; required unless `near` is given.
    pub fn ll(self, value: &str) -> (r: RecommendationsOptionsBuilder)
        ensures
            r@ == (RecommendationsOptionsView { ll: value@, ..self@ }),
    {
        let mut options = self.options;
        options.ll = String::from_str(value);
        RecommendationsOptionsBuilder { options }
    }

    /// Sets `near`. A place name; required unless `ll` is given.
    pub fn near(self, value: &str) -> (r: RecommendationsOptionsBuilder)
        ensures
            r@ == (RecommendationsOptionsView { near: value@, ..self@ }),
    {
        let mut options = self.options;
        options.near = String::from_str(value);
        RecommendationsOptionsBuilder { options }
    }

    /// Sets `ll_acc`. Accuracy of latitude and longitude in meters, as decimal text.
    pub fn ll_acc(self, value: &str) -> (r: RecommendationsOptionsBuilder)
        ensures
            r@ == (RecommendationsOptionsView { ll_acc: Some(value@), ..self@ }),
    {
        let mut options = self.options;
        options.ll_acc = Some(String::from_str(value));
        RecommendationsOptionsBuilder { options }
    }

    /// Sets `alt`. Altitude of the user's location in meters.
    pub fn alt(self, value: u32) -> (r: RecommendationsOptionsBuilder)
        ensures
            r@ == (RecommendationsOptionsView { alt: Some(value), ..self@ }),
    {
        let mut options = self.options;
        options.alt = Some(value);
        RecommendationsOptionsBuilder { options }
    }

    /// Sets `alt_acc`. Accuracy of the altitude in meters, as decimal text.
    pub fn alt_acc(self, value: &str) -> (r: RecommendationsOptionsBuilder)
        ensures
            r@ == (RecommendationsOptionsView { alt_acc: Some(value@), ..self@ }),
    {
        let mut options = self.options;
        options.alt_acc = Some(String::from_str(value));
        RecommendationsOptionsBuilder { options }
    }

    /// Sets `radius`. Radius in meters around the location.
    pub fn radius(self, value: u32) -> (r: RecommendationsOptionsBuilder)
        ensures
            r@ == (RecommendationsOptionsView { radius: Some(value), ..self@ }),
    {
        let mut options = self.options;
        options.radius = Some(value);
        RecommendationsOptionsBuilder { options }
    }

    /// Sets `intent`. Top-level intent such as food or coffee.
    pub fn intent(self, value: &str) -> (r: RecommendationsOptionsBuilder)
        ensures
            r@ == (RecommendationsOptionsView { intent: Some(value@), ..self@ }),
    {
        let mut options = self.options;
        options.intent = Some(String::from_str(value));
        RecommendationsOptionsBuilder { options }
    }

    /// Sets `prices`. Price tiers to match, from 1 to 4.
    pub fn prices(self, value: Vec<u16>) -> (r: RecommendationsOptionsBuilder)
        ensures
            r@ == (RecommendationsOptionsView { prices: Some(value@), ..self@ }),
    {
        let mut options = self.options;
        options.prices = Some(value);
        RecommendationsOptionsBuilder { options }
    }

    /// Sets `query`. A search term.
    pub fn query(self, value: &str) -> (r: RecommendationsOptionsBuilder)
        ensures
            r@ == (RecommendationsOptionsView { query: Some(value@), ..self@ }),
    {
        let mut options = self.options;
        options.query = Some(String::from_str(value));
        RecommendationsOptionsBuilder { options }
    }

    /// Sets `categories`. Categories to match after the query is applied.
    pub fn categories(self, value: Vec<String>) -> (r: RecommendationsOptionsBuilder)
        ensures
            r@ == (RecommendationsOptionsView { categories: Some(texts_view(value@)), ..self@ }),
    {
        let mut options = self.options;
        options.categories = Some(value);
        RecommendationsOptionsBuilder { options }
    }

    /// Sets `category_id`. Comma-separated category ids to limit results to.
    pub fn category_id(self, value: &str) -> (r: RecommendationsOptionsBuilder)
        ensures
            r@ == (RecommendationsOptionsView { category_id: Some(value@), ..self@ }),
    {
        let mut options = self.options;
        options.category_id = Some(String::from_str(value));
        RecommendationsOptionsBuilder { options }
    }

    /// Sets `limit`. Number of results to return.
    pub fn limit(self, value: u32) -> (r: RecommendationsOptionsBuilder)
        ensures
            r@ == (RecommendationsOptionsView { limit: Some(value), ..self@ }),
    {
        let mut options = self.options;
        options.limit = Some(value);
        RecommendationsOptionsBuilder { options }
    }

    /// Sets `offset`. Used to page through results.
    pub fn offset(self, value: u32) -> (r: RecommendationsOptionsBuilder)
        ensures
            r@ == (RecommendationsOptionsView { offset: Some(value), ..self@ }),
    {
        let mut options = self.options;
        options.offset = Some(value);
        RecommendationsOptionsBuilder { options }
    }

    /// Sets `features`. Features the venues must have.
    pub fn features(self, value: Vec<Feature>) -> (r: RecommendationsOptionsBuilder)
        ensures
            r@ == (RecommendationsOptionsView { features: Some(value@), ..self@ }),
    {
        let mut options = self.options;
        options.features = Some(value);
        RecommendationsOptionsBuilder { options }
    }

    /// Sets `open_now`. Only venues open now.
    pub fn open_now(self, value: bool) -> (r: RecommendationsOptionsBuilder)
        ensures
            r@ == (RecommendationsOptionsView { open_now: Some(value), ..self@ }),
    {
        let mut options = self.options;
        options.open_now = Some(value);
        RecommendationsOptionsBuilder { options }
    }

    /// Sets `sort_by_distance`. Sort by distance instead of relevance.
    pub fn sort_by_distance(self, value: bool) -> (r: RecommendationsOptionsBuilder)
        ensures
            r@ == (RecommendationsOptionsView { sort_by_distance: Some(value), ..self@ }),
    {
        let mut options = self.options;
        options.sort_by_distance = Some(value);
        RecommendationsOptionsBuilder { options }
    }

    /// Sets `personalization`. Personalization of the results.
    pub fn personalization(self, value: &str) -> (r: RecommendationsOptionsBuilder)
        ensures
            r@ == (RecommendationsOptionsView { personalization: Some(value@), ..self@ }),
    {
        let mut options = self.options;
        options.personalization = Some(String::from_str(value));
        RecommendationsOptionsBuilder { options }
    }

    /// Sets `local_day`. Day of the week, 1 for Monday to 7 for Sunday.
    pub fn local_day(self, value: &str) -> (r: RecommendationsOptionsBuilder)
        ensures
            r@ == (RecommendationsOptionsView { local_day: Some(value@), ..self@ }),
    {
        let mut options = self.options;
        options.local_day = Some(String::from_str(value));
        RecommendationsOptionsBuilder { options }
    }

    /// Sets `local_time`. Time of day, HH in 24-hour format.
    pub fn local_time(self, value: &str) -> (r: RecommendationsOptionsBuilder)
        ensures
            r@ == (RecommendationsOptionsView { local_time: Some(value@), ..self@ }),
    {
        let mut options = self.options;
        options.local_time = Some(String::from_str(value));
        RecommendationsOptionsBuilder { options }
    }

    /// Sets `locale`. Language of the response.
    pub fn locale(self, value: &str) -> (r: RecommendationsOptionsBuilder)
        ensures
            r@ == (RecommendationsOptionsView { locale: Some(value@), ..self@ }),
    {
        let mut options = self.options;
        options.locale = Some(String::from_str(value));
        RecommendationsOptionsBuilder { options }
    }

    /// The options set so far; building never fails.
    pub fn build(self) -> (r: Result<RecommendationsOptions, String>)
        ensures
            r is Ok,
            r->Ok_0@ == self@,
    {
        Ok(self.options)
    }
}

/// Options of venue exploration.
///
/// Every field starts absent; absent fields are left out of the query.
pub struct ExploreOptions {
    /// Latitude and longitude of the user's location; required unless `near` is given.
    ll: String,
    /// A place name; required unless `ll` is given.
    near: String,
    /// Accuracy of latitude and longitude in meters, as decimal text.
    ll_acc: Option<String>,
    /// Altitude of the user's location in meters.
    alt: Option<u32>,
    /// Accuracy of the altitude in meters, as decimal text.
    alt_acc: Option<String>,
    /// Radius in meters around the location.
    radius: Option<u32>,
    /// A section such as food, drinks or topPicks.
    section: Option<String>,
    /// A search term.
    query: Option<String>,
    /// Number of results to return.
    limit: Option<u32>,
    /// Used to page through results.
    offset: Option<u32>,
    /// new or old.
    novelty: Option<String>,
    /// visited or notvisited.
    friend_visits: Option<String>,
    /// any for any time of day.
    time: Option<String>,
    /// any for any day of the week.
    day: Option<String>,
    /// 1 to include a photo of each venue.
    venue_photos: Option<u16>,
    /// The venue visited last.
    last_venue: Option<String>,
    /// 1 for venues open now.
    open_now: Option<u16>,
    /// 1 to sort by distance.
    sort_by_distance: Option<u16>,
    /// Comma-separated price points from 1 to 4.
    price: Option<String>,
    /// 1 for venues the user has saved.
    saved: Option<u16>,
    /// Language of the response.
    locale: Option<String>,
}

/// The abstract value of [`ExploreOptions`].
pub struct ExploreOptionsView {
    pub ll: Seq<char>,
    pub near: Seq<char>,
    pub ll_acc: Option<Seq<char>>,
    pub alt: Option<u32>,
    pub alt_acc: Option<Seq<char>>,
    pub radius: Option<u32>,
    pub section: Option<Seq<char>>,
    pub query: Option<Seq<char>>,
    pub limit: Option<u32>,
    pub offset: Option<u32>,
    pub novelty: Option<Seq<char>>,
    pub friend_visits: Option<Seq<char>>,
    pub time: Option<Seq<char>>,
    pub day: Option<Seq<char>>,
    pub venue_photos: Option<u16>,
    pub last_venue: Option<Seq<char>>,
    pub open_now: Option<u16>,
    pub sort_by_distance: Option<u16>,
    pub price: Option<Seq<char>>,
    pub saved: Option<u16>,
    pub locale: Option<Seq<char>>,
}

impl View for ExploreOptions {
    type V = ExploreOptionsView;

    closed spec fn view(&self) -> ExploreOptionsView {
        ExploreOptionsView {
            ll: self.ll@,
            near: self.near@,
            ll_acc: opt_text(self.ll_acc),
            alt: self.alt,
            alt_acc: opt_text(self.alt_acc),
            radius: self.radius,
            section: opt_text(self.section),
            query: opt_text(self.query),
            limit: self.limit,
            offset: self.offset,
            novelty: opt_text(self.novelty),
            friend_visits: opt_text(self.friend_visits),
            time: opt_text(self.time),
            day: opt_text(self.day),
            venue_photos: self.venue_photos,
            last_venue: opt_text(self.last_venue),
            open_now: self.open_now,
            sort_by_distance: self.sort_by_distance,
            price: opt_text(self.price),
            saved: self.saved,
            locale: opt_text(self.locale),
        }
    }
}

impl ExploreOptionsView {
    /// The value with every field absent.
    pub open spec fn blank(self) -> bool {
        self.ll.len() == 0
        && self.near.len() == 0
        && self.ll_acc is None
        && self.alt is None
        && self.alt_acc is None
        && self.radius is None
        && self.section is None
        && self.query is None
        && self.limit is None
        && self.offset is None
        && self.novelty is None
        && self.friend_visits is None
        && self.time is None
        && self.day is None
        && self.venue_photos is None
        && self.last_venue is None
        && self.open_now is None
        && self.sort_by_distance is None
        && self.price is None
        && self.saved is None
        && self.locale is None
    }

    /// The query pairs of these options, in field order.
    pub open spec fn pairs(self) -> Seq<(Seq<char>, Seq<char>)> {
        text_pair("ll"@, self.ll)
            + text_pair("near"@, self.near)
            + opt_text_pair("llAcc"@, self.ll_acc)
            + opt_u32_pair("alt"@, self.alt)
            + opt_text_pair("altAcc"@, self.alt_acc)
            + opt_u32_pair("radius"@, self.radius)
            + opt_text_pair("section"@, self.section)
            + opt_text_pair("query"@, self.query)
            + opt_u32_pair("limit"@, self.limit)
            + opt_u32_pair("offset"@, self.offset)
            + opt_text_pair("novelty"@, self.novelty)
            + opt_text_pair("friendVisits"@, self.friend_visits)
            + opt_text_pair("time"@, self.time)
            + opt_text_pair("day"@, self.day)
            + opt_u16_pair("venuePhotos"@, self.venue_photos)
            + opt_text_pair("lastVenue"@, self.last_venue)
            + opt_u16_pair("openNow"@, self.open_now)
            + opt_u16_pair("sortByDistance"@, self.sort_by_distance)
            + opt_text_pair("price"@, self.price)
            + opt_u16_pair("saved"@, self.saved)
            + opt_text_pair("locale"@, self.locale)
    }

    /// The form-encoded pieces of the query, one per present field, in
    /// field order.
    pub open spec fn pieces(self) -> Seq<Seq<char>> {
        text_piece("ll"@, self.ll)
            + text_piece("near"@, self.near)
            + opt_text_piece("llAcc"@, self.ll_acc)
            + opt_u32_piece("alt"@, self.alt)
            + opt_text_piece("altAcc"@, self.alt_acc)
            + opt_u32_piece("radius"@, self.radius)
            + opt_text_piece("section"@, self.section)
            + opt_text_piece("query"@, self.query)
            + opt_u32_piece("limit"@, self.limit)
            + opt_u32_piece("offset"@, self.offset)
            + opt_text_piece("novelty"@, self.novelty)
            + opt_text_piece("friendVisits"@, self.friend_visits)
            + opt_text_piece("time"@, self.time)
            + opt_text_piece("day"@, self.day)
            + opt_u16_piece("venuePhotos"@, self.venue_photos)
            + opt_text_piece("lastVenue"@, self.last_venue)
            + opt_u16_piece("openNow"@, self.open_now)
            + opt_u16_piece("sortByDistance"@, self.sort_by_distance)
            + opt_text_piece("price"@, self.price)
            + opt_u16_piece("saved"@, self.saved)
            + opt_text_piece("locale"@, self.locale)
    }

    /// The query text: the pieces joined with `&`. A list field's items are
    /// joined with a literal `,`.
    pub open spec fn query_text(self) -> Seq<char> {
        query_text_of(self.pieces())
    }
}

/// Options with every field absent give no query pairs and an empty query
/// text.
pub proof fn blank_explore_options_have_no_pairs(o: ExploreOptionsView)
    requires
        o.blank(),
    ensures
        o.pairs() == Seq::<(Seq<char>, Seq<char>)>::empty(),
        o.query_text() == Seq::<char>::empty(),
{
    assert(o.pairs() =~= Seq::<(Seq<char>, Seq<char>)>::empty());
    assert(o.pieces() =~= Seq::<Seq<char>>::empty());
}

impl ExploreOptions {
    fn blank() -> (r: ExploreOptions)
        ensures
            r@.blank(),
    {
        ExploreOptions {
            ll: String::new(),
            near: String::new(),
            ll_acc: None,
            alt: None,
            alt_acc: None,
            radius: None,
            section: None,
            query: None,
            limit: None,
            offset: None,
            novelty: None,
            friend_visits: None,
            time: None,
            day: None,
            venue_photos: None,
            last_venue: None,
            open_now: None,
            sort_by_distance: None,
            price: None,
            saved: None,
            locale: None,
        }
    }

    /// A builder whose fields all start absent.
    pub fn builder() -> (r: ExploreOptionsBuilder)
        ensures
            r@.blank(),
    {
        ExploreOptionsBuilder { options: ExploreOptions::blank() }
    }

    /// The query pairs of these options.
    pub fn query_pairs(&self) -> (r: Vec<(String, String)>)
        ensures
            pairs_view(r@) == self@.pairs(),
    {
        let mut out: Vec<(String, String)> = Vec::new();
        push_text(&mut out, "ll", &self.ll);
        push_text(&mut out, "near", &self.near);
        push_opt_text(&mut out, "llAcc", &self.ll_acc);
        push_opt_u32(&mut out, "alt", self.alt);
        push_opt_text(&mut out, "altAcc", &self.alt_acc);
        push_opt_u32(&mut out, "radius", self.radius);
        push_opt_text(&mut out, "section", &self.section);
        push_opt_text(&mut out, "query", &self.query);
        push_opt_u32(&mut out, "limit", self.limit);
        push_opt_u32(&mut out, "offset", self.offset);
        push_opt_text(&mut out, "novelty", &self.novelty);
        push_opt_text(&mut out, "friendVisits", &self.friend_visits);
        push_opt_text(&mut out, "time", &self.time);
        push_opt_text(&mut out, "day", &self.day);
        push_opt_u16(&mut out, "venuePhotos", self.venue_photos);
        push_opt_text(&mut out, "lastVenue", &self.last_venue);
        push_opt_u16(&mut out, "openNow", self.open_now);
        push_opt_u16(&mut out, "sortByDistance", self.sort_by_distance);
        push_opt_text(&mut out, "price", &self.price);
        push_opt_u16(&mut out, "saved", self.saved);
        push_opt_text(&mut out, "locale", &self.locale);
        assert(pairs_view(out@) =~= self@.pairs());
        out
    }

    /// The form-encoded query text of these options.
    pub fn query_string(&self) -> (r: String)
        ensures
            r@ == self@.query_text(),
            self@.blank() ==> r@.len() == 0,
    {
        let mut out: Vec<String> = Vec::new();
        push_text_piece(&mut out, "ll", &self.ll);
        push_text_piece(&mut out, "near", &self.near);
        push_opt_text_piece(&mut out, "llAcc", &self.ll_acc);
        push_opt_u32_piece(&mut out, "alt", self.alt);
        push_opt_text_piece(&mut out, "altAcc", &self.alt_acc);
        push_opt_u32_piece(&mut out, "radius", self.radius);
        push_opt_text_piece(&mut out, "section", &self.section);
        push_opt_text_piece(&mut out, "query", &self.query);
        push_opt_u32_piece(&mut out, "limit", self.limit);
        push_opt_u32_piece(&mut out, "offset", self.offset);
        push_opt_text_piece(&mut out, "novelty", &self.novelty);
        push_opt_text_piece(&mut out, "friendVisits", &self.friend_visits);
        push_opt_text_piece(&mut out, "time", &self.time);
        push_opt_text_piece(&mut out, "day", &self.day);
        push_opt_u16_piece(&mut out, "venuePhotos", self.venue_photos);
        push_opt_text_piece(&mut out, "lastVenue", &self.last_venue);
        push_opt_u16_piece(&mut out, "openNow", self.open_now);
        push_opt_u16_piece(&mut out, "sortByDistance", self.sort_by_distance);
        push_opt_text_piece(&mut out, "price", &self.price);
        push_opt_u16_piece(&mut out, "saved", self.saved);
        push_opt_text_piece(&mut out, "locale", &self.locale);
        assert(texts_view(out@) =~= self@.pieces());
        proof {
            if self@.blank() {
                blank_explore_options_have_no_pairs(self@);
            }
        }
        join_pieces(&out)
    }
}

impl Default for ExploreOptions {
    fn default() -> (r: ExploreOptions)
        ensures
            r@.blank(),
    {
        ExploreOptions::blank()
    }
}

/// Builds [`ExploreOptions`] one field at a time.
pub struct ExploreOptionsBuilder {
    options: ExploreOptions,
}

impl View for ExploreOptionsBuilder {
    type V = ExploreOptionsView;

    closed spec fn view(&self) -> ExploreOptionsView {
        self.options@
    }
}

impl ExploreOptionsBuilder {
    /// Sets `ll`. Latitude and longitude of the user's location; required unless `near` is given.
    pub fn ll(self, value: &str) -> (r: ExploreOptionsBuilder)
        ensures
            r@ == (ExploreOptionsView { ll: value@, ..self@ }),
    {
        let mut options = self.options;
        options.ll = String::from_str(value);
        ExploreOptionsBuilder { options }
    }

    /// Sets `near`. A place name; required unless `ll` is given.
    pub fn near(self, value: &str) -> (r: ExploreOptionsBuilder)
        ensures
            r@ == (ExploreOptionsView { near: value@, ..self@ }),
    {
        let mut options = self.options;
        options.near = String::from_str(value);
        ExploreOptionsBuilder { options }
    }

    /// Sets `ll_acc`. Accuracy of latitude and longitude in meters, as decimal text.
    pub fn ll_acc(self, value: &str) -> (r: ExploreOptionsBuilder)
        ensures
            r@ == (ExploreOptionsView { ll_acc: Some(value@), ..self@ }),
    {
        let mut options = self.options;
        options.ll_acc = Some(String::from_str(value));
        ExploreOptionsBuilder { options }
    }

    /// Sets `alt`. Altitude of the user's location in meters.
    pub fn alt(self, value: u32) -> (r: ExploreOptionsBuilder)
        ensures
            r@ == (ExploreOptionsView { alt: Some(value), ..self@ }),
    {
        let mut options = self.options;
        options.alt = Some(value);
        ExploreOptionsBuilder { options }
    }

    /// Sets `alt_acc`. Accuracy of the altitude in meters, as decimal text.
    pub fn alt_acc(self, value: &str) -> (r: ExploreOptionsBuilder)
        ensures
            r@ == (ExploreOptionsView { alt_acc: Some(value@), ..self@ }),
    {
        let mut options = self.options;
        options.alt_acc = Some(String::from_str(value));
        ExploreOptionsBuilder { options }
    }

    /// Sets `radius`. Radius in meters around the location.
    pub fn radius(self, value: u32) -> (r: ExploreOptionsBuilder)
        ensures
            r@ == (ExploreOptionsView { radius: Some(value), ..self@ }),
    {
        let mut options = self.options;
        options.radius = Some(value);
        ExploreOptionsBuilder { options }
    }

    /// Sets `section`. A section such as food, drinks or topPicks.
    pub fn section(self, value: &str) -> (r: ExploreOptionsBuilder)
        ensures
            r@ == (ExploreOptionsView { section: Some(value@), ..self@ }),
    {
        let mut options = self.options;
        options.section = Some(String::from_str(value));
        ExploreOptionsBuilder { options }
    }

    /// Sets `query`. A search term.
    pub fn query(self, value: &str) -> (r: ExploreOptionsBuilder)
        ensures
            r@ == (ExploreOptionsView { query: Some(value@), ..self@ }),
    {
        let mut options = self.options;
        options.query = Some(String::from_str(value));
        ExploreOptionsBuilder { options }
    }

    /// Sets `limit`. Number of results to return.
    pub fn limit(self, value: u32) -> (r: ExploreOptionsBuilder)
        ensures
            r@ == (ExploreOptionsView { limit: Some(value), ..self@ }),
    {
        let mut options = self.options;
        options.limit = Some(value);
        ExploreOptionsBuilder { options }
    }

    /// Sets `offset`. Used to page through results.
    pub fn offset(self, value: u32) -> (r: ExploreOptionsBuilder)
        ensures
            r@ == (ExploreOptionsView { offset: Some(value), ..self@ }),
    {
        let mut options = self.options;
        options.offset = Some(value);
        ExploreOptionsBuilder { options }
    }

    /// Sets `novelty`. new or old.
    pub fn novelty(self, value: &str) -> (r: ExploreOptionsBuilder)
        ensures
            r@ == (ExploreOptionsView { novelty: Some(value@), ..self@ }),
    {
        let mut options = self.options;
        options.novelty = Some(String::from_str(value));
        ExploreOptionsBuilder { options }
    }

    /// Sets `friend_visits`. visited or notvisited.
    pub fn friend_visits(self, value: &str) -> (r: ExploreOptionsBuilder)
        ensures
            r@ == (ExploreOptionsView { friend_visits: Some(value@), ..self@ }),
    {
        let mut options = self.options;
        options.friend_visits = Some(String::from_str(value));
        ExploreOptionsBuilder { options }
    }

    /// Sets `time`. any for any time of day.
    pub fn time(self, value: &str) -> (r: ExploreOptionsBuilder)
        ensures
            r@ == (ExploreOptionsView { time: Some(value@), ..self@ }),
    {
        let mut options = self.options;
        options.time = Some(String::from_str(value));
        ExploreOptionsBuilder { options }
    }

    /// Sets `day`. any for any day of the week.
    pub fn day(self, value: &str) -> (r: ExploreOptionsBuilder)
        ensures
            r@ == (ExploreOptionsView { day: Some(value@), ..self@ }),
    {
        let mut options = self.options;
        options.day = Some(String::from_str(value));
        ExploreOptionsBuilder { options }
    }

    /// Sets `venue_photos`. 1 to include a photo of each venue.
    pub fn venue_photos(self, value: u16) -> (r: ExploreOptionsBuilder)
        ensures
            r@ == (ExploreOptionsView { venue_photos: Some(value), ..self@ }),
    {
        let mut options = self.options;
        options.venue_photos = Some(value);
        ExploreOptionsBuilder { options }
    }

    /// Sets `last_venue`. The venue visited last.
    pub fn last_venue(self, value: &str) -> (r: ExploreOptionsBuilder)
        ensures
            r@ == (ExploreOptionsView { last_venue: Some(value@), ..self@ }),
    {
        let mut options = self.options;
        options.last_venue = Some(String::from_str(value));
        ExploreOptionsBuilder { options }
    }

    /// Sets `open_now`. 1 for venues open now.
    pub fn open_now(self, value: u16) -> (r: ExploreOptionsBuilder)
        ensures
            r@ == (ExploreOptionsView { open_now: Some(value), ..self@ }),
    {
        let mut options = self.options;
        options.open_now = Some(value);
        ExploreOptionsBuilder { options }
    }

    /// Sets `sort_by_distance`. 1 to sort by distance.
    pub fn sort_by_distance(self, value: u16) -> (r: ExploreOptionsBuilder)
        ensures
            r@ == (ExploreOptionsView { sort_by_distance: Some(value), ..self@ }),
    {
        let mut options = self.options;
        options.sort_by_distance = Some(value);
        ExploreOptionsBuilder { options }
    }

    /// Sets `price`. Comma-separated price points from 1 to 4.
    pub fn price(self, value: &str) -> (r: ExploreOptionsBuilder)
        ensures
            r@ == (ExploreOptionsView { price: Some(value@), ..self@ }),
    {
        let mut options = self.options;
        options.price = Some(String::from_str(value));
        ExploreOptionsBuilder { options }
    }

    /// Sets `saved`. 1 for venues the user has saved.
    pub fn saved(self, value: u16) -> (r: ExploreOptionsBuilder)
        ensures
            r@ == (ExploreOptionsView { saved: Some(value), ..self@ }),
    {
        let mut options = self.options;
        options.saved = Some(value);
        ExploreOptionsBuilder { options }
    }

    /// Sets `locale`. Language of the response.
    pub fn locale(self, value: &str) -> (r: ExploreOptionsBuilder)
        ensures
            r@ == (ExploreOptionsView { locale: Some(value@), ..self@ }),
    {
        let mut options = self.options;
        options.locale = Some(String::from_str(value));
        ExploreOptionsBuilder { options }
    }

    /// The options set so far; building never fails.
    pub fn build(self) -> (r: Result<ExploreOptions, String>)
        ensures
            r is Ok,
            r->Ok_0@ == self@,
    {
        Ok(self.options)
    }
}

} // verus!
