//! The client's settings and the URLs of its requests.
use vstd::prelude::*;

use crate::credentials::Credentials;
use crate::error::{ErrorKind, UriError};
use crate::options::{
    ExploreOptions, HoursOptions, RecommendationsOptions, SearchOptions, SuggestOptions,
    TipsOptions, VenueDetailsOptions,
};
use crate::query::pairs_view;

verus! {

/// The host that requests go to unless the client says otherwise.
pub const DEFAULT_HOST: &'static str = "https://api.foursquare.com";

/// The URL that `url::Url` makes of a text once the pairs are appended to
/// its query, if the text parses as a URL.
pub uninterp spec fn url_with_pairs(uri: Seq<char>, pairs: Seq<(Seq<char>, Seq<char>)>) -> Option<Seq<char>>;

/// Relies on `url::Url::parse`, `Url::query_pairs_mut` and the URL's text:
/// whether the text parses, and the URL it yields with the pairs appended to
/// its query, depend on the text and the pairs alone.
#[verifier::external_body]
fn append_query_pairs(uri: &str, pairs: &Vec<(String, String)>) -> (r: Result<String, url::ParseError>)
    ensures
        r is Ok <==> url_with_pairs(uri@, pairs_view(pairs@)) is Some,
        r is Ok ==> r->Ok_0@ == url_with_pairs(uri@, pairs_view(pairs@))->Some_0,
{
    let mut url = url::Url::parse(uri)?;
    url.query_pairs_mut().extend_pairs(pairs.iter());
    Ok(url.to_string())
}

/// Settings shared by every request: the host, the API version in
/// `YYYYMMDD` form, and the credentials.
#[derive(Clone, Debug)]
pub struct Client {
    host: String,
    version: String,
    credentials: Credentials,
}

/// The text of a request before authentication: host, path, `?`, query.
pub open spec fn endpoint_text(host: Seq<char>, path: Seq<char>, query: Seq<char>) -> Seq<char> {
    host + path + seq!['?'] + query
}

/// The path of a venue, or of one of its parts when `part` is not empty.
pub open spec fn venue_path(id: Seq<char>, part: Seq<char>) -> Seq<char> {
    "/v2/venues/"@ + id + part
}

impl Client {
    /// The host the client sends to.
    pub closed spec fn host_spec(&self) -> Seq<char> {
        self.host@
    }

    /// The API version the client asks for.
    pub closed spec fn version_spec(&self) -> Seq<char> {
        self.version@
    }

    /// The credentials the client authenticates with.
    pub closed spec fn credentials_spec(&self) -> Credentials {
        self.credentials
    }

    /// A client of the default host, for an API version in `YYYYMMDD` form.
    pub fn new(version: &str, credentials: Credentials) -> (r: Client)
        ensures
            r.host_spec() == DEFAULT_HOST@,
            r.version_spec() == version@,
            r.credentials_spec() == credentials,
    {
        Client { host: String::from_str(DEFAULT_HOST), version: String::from_str(version), credentials }
    }

    /// A client of another host, such as a test server.
    pub fn with_host(host: &str, version: &str, credentials: Credentials) -> (r: Client)
        ensures
            r.host_spec() == host@,
            r.version_spec() == version@,
            r.credentials_spec() == credentials,
    {
        Client { host: String::from_str(host), version: String::from_str(version), credentials }
    }

    /// The URL of a request for `path` and `query`: the API version and the
    /// credentials are appended to the query. The URL error when the text
    /// does not parse as a URL.
    pub open spec fn url_outcome(&self, path: Seq<char>, query: Seq<char>, r: Result<String, ErrorKind>) -> bool {
        let target = url_with_pairs(
            endpoint_text(self.host_spec(), path, query),
            self.credentials_spec().auth_pairs_spec(self.version_spec()),
        );
        match r {
            Ok(u) => target == Some(u@),
            Err(e) => target is None && e is URI && e->URI_0 is Parse,
        }
    }

    /// Builds the URL of a request for `path` with the form-encoded `query`.
    pub fn request_url(&self, path: &str, query: &str) -> (r: Result<String, ErrorKind>)
        ensures
            self.url_outcome(path@, query@, r),
    {
        let mut uri = self.host.clone();
        uri.append(path);
        uri.append("?");
        uri.append(query);
        proof {
            reveal_strlit("?");
            assert(uri@ =~= endpoint_text(self.host@, path@, query@));
        }
        let pairs = self.credentials.auth_pairs(self.version.as_str());
        match append_query_pairs(uri.as_str(), &pairs) {
            Ok(u) => Ok(u),
            Err(e) => Err(ErrorKind::URI(UriError::Parse(e))),
        }
    }

    fn venue_url(&self, id: &str, part: &str, query: &str) -> (r: Result<String, ErrorKind>)
        ensures
            self.url_outcome(venue_path(id@, part@), query@, r),
    {
        let mut path = String::from_str("/v2/venues/");
        path.append(id);
        path.append(part);
        self.request_url(path.as_str(), query)
    }

    /// The URL of a venue's details.
    pub fn venue_details_url(&self, id: &str, options: &VenueDetailsOptions) -> (r: Result<String, ErrorKind>)
        ensures
            self.url_outcome(venue_path(id@, ""@), options@.query_text(), r),
    {
        let query = options.query_string();
        self.venue_url(id, "", query.as_str())
    }

    /// The URL of a venue's tips.
    pub fn tips_url(&self, id: &str, options: &TipsOptions) -> (r: Result<String, ErrorKind>)
        ensures
            self.url_outcome(venue_path(id@, "/tips"@), options@.query_text(), r),
    {
        let query = options.query_string();
        self.venue_url(id, "/tips", query.as_str())
    }

    /// The URL of a venue's hours.
    pub fn hours_url(&self, id: &str, options: &HoursOptions) -> (r: Result<String, ErrorKind>)
        ensures
            self.url_outcome(venue_path(id@, "/hours"@), options@.query_text(), r),
    {
        let query = options.query_string();
        self.venue_url(id, "/hours", query.as_str())
    }

    /// The URL of a venue search.
    pub fn search_url(&self, options: &SearchOptions) -> (r: Result<String, ErrorKind>)
        ensures
            self.url_outcome("/v2/venues/search"@, options@.query_text(), r),
    {
        let query = options.query_string();
        self.request_url("/v2/venues/search", query.as_str())
    }

    /// The URL of type-ahead venue suggestions.
    pub fn suggest_url(&self, options: &SuggestOptions) -> (r: Result<String, ErrorKind>)
        ensures
            self.url_outcome("/v2/venues/suggestcompletion"@, options@.query_text(), r),
    {
        let query = options.query_string();
        self.request_url("/v2/venues/suggestcompletion", query.as_str())
    }

    /// The URL of venue recommendations.
    pub fn recommendations_url(&self, options: &RecommendationsOptions) -> (r: Result<String, ErrorKind>)
        ensures
            self.url_outcome("/v2/search/recommendations/"@, options@.query_text(), r),
    {
        let query = options.query_string();
        self.request_url("/v2/search/recommendations/", query.as_str())
    }

    /// The URL of venue exploration.
    pub fn explore_url(&self, options: &ExploreOptions) -> (r: Result<String, ErrorKind>)
        ensures
            self.url_outcome("/v2/venues/explore"@, options@.query_text(), r),
    {
        let query = options.query_string();
        self.request_url("/v2/venues/explore", query.as_str())
    }
}

} // verus!
