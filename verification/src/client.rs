//! The token-based client: one method per remote operation.
//!
//! Each operation is split along the network boundary. A `*_request`
//! method builds the full description of the outbound request from the
//! client's state; the transport sends it and hands back the HTTP
//! status together with the decoded envelope (or `None` where the body
//! did not decode). The operation's main method then maps that response
//! to the domain result, exactly as the corresponding
//! `spec_*_result` function states.
use vstd::prelude::*;
use vstd::string::StringExecFns;
use crate::api;
use crate::episode::Episode;
use crate::error::PocketcastError;
use crate::http::bearer;
use crate::http::is_success_status;
use crate::http::list_result_view;
use crate::http::spec_bearer;
use crate::http::spec_is_success;
use crate::http::HttpMethod;
use crate::http::RequestPlan;
use crate::podcast::DiscoverPodcast;
use crate::podcast::Podcast;
use crate::responses::spec_discover_result;
use crate::responses::spec_episodes_result;
use crate::responses::spec_search_result;
use crate::responses::spec_subscriptions_result;
use crate::responses::DiscoverResponse;
use crate::responses::EpisodesPodcast;
use crate::responses::EpisodesResponse;
use crate::responses::SearchPodcast;
use crate::responses::SearchResponse;
use crate::responses::SubscriptionsResponse;

verus! {

/// A client of the token-based backend. It exists only after a
/// successful login and always carries the issued token; every
/// authenticated request attaches it as a bearer credential.
#[derive(Clone, Debug)]
pub struct PocketcastClient {
    token: String,
}

/// The decoded body of a successful login response.
#[derive(Clone, Debug, PartialEq)]
pub struct LoginResponseBody {
    pub token: String,
    pub uuid: String,
}

/// The scope field the login endpoint expects.
#[derive(Clone, Copy, Debug, PartialEq, Eq, Structural)]
pub enum LoginScope {
    Webplayer,
}

impl LoginScope {
    /// How the scope is spelled on the wire.
    pub fn wire_name(&self) -> (r: &'static str)
        ensures
            r@ == "webplayer"@,
    {
        "webplayer"
    }
}

/// The JSON body sent to the login endpoint.
#[derive(Clone, Debug)]
pub struct LoginRequest {
    pub email: String,
    pub password: String,
    pub scope: LoginScope,
}

/// The JSON body sent to the subscriptions endpoint; `version` is
/// spelled `v` on the wire.
#[derive(Clone, Copy, Debug, PartialEq, Eq, Structural)]
pub struct ApiVersion {
    pub version: u32,
}

/// The JSON body sent to the search endpoint.
#[derive(Clone, Debug)]
pub struct SearchRequest {
    pub term: String,
}

/// What a login response means: `401` is a credential rejection, any
/// other non-2xx status an `HttpStatusError`, an undecodable body a
/// `ParseError`, and a decoded body yields the issued token.
pub open spec fn spec_login_result(status: u16, body: Option<LoginResponseBody>) -> Result<
    Seq<char>,
    PocketcastError,
> {
    if status == 401 {
        Err(PocketcastError::InvalidCredentials)
    } else if !spec_is_success(status) {
        Err(PocketcastError::HttpStatusError(status))
    } else {
        match body {
            None => Err(PocketcastError::ParseError),
            Some(b) => Ok(b.token@),
        }
    }
}

/// Every failing login against the token-based backend yields the
/// matching error variant — `InvalidCredentials` for a `401`,
/// `HttpStatusError` for any other non-2xx status, `ParseError` for a
/// 2xx response whose body does not decode — and a login fails exactly
/// when the response is not a 2xx carrying a decodable body. A failed
/// login yields no client at all, so it can set no session.
pub proof fn lemma_login_error_variants(status: u16, body: Option<LoginResponseBody>)
    ensures
        status == 401 ==> spec_login_result(status, body) == Err::<Seq<char>, _>(
            PocketcastError::InvalidCredentials,
        ),
        status != 401 && !spec_is_success(status) ==> spec_login_result(status, body) == Err::<
            Seq<char>,
            _,
        >(PocketcastError::HttpStatusError(status)),
        spec_is_success(status) && body is None ==> spec_login_result(status, body) == Err::<
            Seq<char>,
            _,
        >(PocketcastError::ParseError),
        spec_login_result(status, body) is Err <==> !(spec_is_success(status) && body is Some),
{
}

/// What a podcast-detail response means: the podcast record nested
/// inside the per-podcast envelope.
pub open spec fn spec_podcast_result(status: u16, body: Option<EpisodesResponse>) -> Result<
    EpisodesPodcast,
    PocketcastError,
> {
    if !spec_is_success(status) {
        Err(PocketcastError::HttpStatusError(status))
    } else {
        match body {
            None => Err(PocketcastError::ParseError),
            Some(b) => Ok(b.podcast),
        }
    }
}

/// The URL of the episodes endpoint for one podcast: the podcast id
/// spliced into the fixed path, with the fixed page-size suffix.
pub open spec fn spec_episodes_url(podcast_id: Seq<char>) -> Seq<char> {
    api::spec_get_episodes_uri_prefix() + "/"@ + podcast_id + "/"@
        + api::spec_get_episodes_uri_suffix() + ".json"@
}

impl PocketcastClient {
    /// The bearer token this client attaches to authenticated requests.
    pub closed spec fn spec_token(&self) -> Seq<char> {
        self.token@
    }

    /// A client around an already-issued token.
    pub fn new(token: String) -> (c: PocketcastClient)
        ensures
            c.spec_token() == token@,
    {
        PocketcastClient { token }
    }

    /// The JSON body to send to the login endpoint for one credential
    /// pair.
    pub fn login_request(email: String, password: String) -> (r: LoginRequest)
        ensures
            r.email == email,
            r.password == password,
            r.scope is Webplayer,
    {
        LoginRequest { email, password, scope: LoginScope::Webplayer }
    }

    /// Maps the login endpoint's response to a client or a typed
    /// failure, as [`spec_login_result`] states. Only a 2xx response
    /// with a decodable body yields a client, and that client holds
    /// exactly the issued token.
    pub fn login(status: u16, body: Option<LoginResponseBody>) -> (r: Result<
        PocketcastClient,
        PocketcastError,
    >)
        ensures
            r matches Ok(c) ==> spec_login_result(status, body) == Ok::<_, PocketcastError>(
                c.spec_token(),
            ),
            r matches Err(e) ==> spec_login_result(status, body) == Err::<Seq<char>, _>(e),
    {
        if status == 401 {
            return Err(PocketcastError::InvalidCredentials);
        }
        if !is_success_status(status) {
            return Err(PocketcastError::HttpStatusError(status));
        }
        match body {
            None => Err(PocketcastError::ParseError),
            Some(b) => Ok(PocketcastClient { token: b.token }),
        }
    }

    /// The outbound request of `get_subscriptions`: an authenticated
    /// POST to the fixed subscriptions endpoint.
    pub fn subscriptions_request(&self) -> (r: (RequestPlan, ApiVersion))
        ensures
            r.0.method is Post,
            r.0.url@ == api::spec_get_subscriptions_uri(),
            r.0.authorization matches Some(a) && a@ == spec_bearer(self.spec_token()),
            r.0.cookie is None,
            r.0.follow_redirects == true,
            r.1.version == 1,
    {
        let plan = RequestPlan {
            method: HttpMethod::Post,
            url: String::from_str(api::get_subscriptions_uri()),
            authorization: Some(bearer(self.token.as_str())),
            cookie: None,
            follow_redirects: true,
        };
        (plan, ApiVersion { version: 1 })
    }

    /// Maps the subscriptions endpoint's response to the subscribed
    /// podcasts, as [`spec_subscriptions_result`] states.
    pub fn get_subscriptions(&self, status: u16, body: Option<SubscriptionsResponse>) -> (r: Result<
        Vec<Podcast>,
        PocketcastError,
    >)
        ensures
            list_result_view(r) == spec_subscriptions_result(status, body),
    {
        if !is_success_status(status) {
            return Err(PocketcastError::HttpStatusError(status));
        }
        match body {
            None => Err(PocketcastError::ParseError),
            Some(b) => Ok(b.podcasts),
        }
    }

    /// The full URL of the episodes endpoint for one podcast id.
    pub fn episodes_url(podcast_id: &str) -> (r: String)
        ensures
            r@ == spec_episodes_url(podcast_id@),
    {
        let mut r = String::from_str(api::get_episodes_uri_prefix());
        r.append("/");
        r.append(podcast_id);
        r.append("/");
        r.append(api::get_episodes_uri_suffix());
        r.append(".json");
        r
    }

    /// The outbound request of `get_episodes`: an authenticated GET to
    /// the per-podcast episodes URL.
    pub fn episodes_request(&self, podcast_id: &str) -> (r: RequestPlan)
        ensures
            r.method is Get,
            r.url@ == spec_episodes_url(podcast_id@),
            r.authorization matches Some(a) && a@ == spec_bearer(self.spec_token()),
            r.cookie is None,
            r.follow_redirects == true,
    {
        RequestPlan {
            method: HttpMethod::Get,
            url: PocketcastClient::episodes_url(podcast_id),
            authorization: Some(bearer(self.token.as_str())),
            cookie: None,
            follow_redirects: true,
        }
    }

    /// Maps the episodes endpoint's response to the podcast's episode
    /// list, as [`spec_episodes_result`] states.
    pub fn get_episodes(&self, status: u16, body: Option<EpisodesResponse>) -> (r: Result<
        Vec<Episode>,
        PocketcastError,
    >)
        ensures
            list_result_view(r) == spec_episodes_result(status, body),
    {
        if !is_success_status(status) {
            return Err(PocketcastError::HttpStatusError(status));
        }
        match body {
            None => Err(PocketcastError::ParseError),
            Some(b) => Ok(b.podcast.episodes),
        }
    }

    /// Fetches full detail for one podcast by uuid, against the one
    /// backend version that serves it: the detail record is the podcast
    /// nested inside the envelope the per-podcast endpoint returns (the
    /// same endpoint the episodes come from, so [`Self::episodes_request`]
    /// is its outbound request). Maps the response as
    /// [`spec_podcast_result`] states.
    pub fn get_podcast(&self, status: u16, body: Option<EpisodesResponse>) -> (r: Result<
        EpisodesPodcast,
        PocketcastError,
    >)
        ensures
            r matches Ok(p) ==> spec_podcast_result(status, body) == Ok::<_, PocketcastError>(p),
            r matches Err(e) ==> spec_podcast_result(status, body) == Err::<EpisodesPodcast, _>(e),
    {
        if !is_success_status(status) {
            return Err(PocketcastError::HttpStatusError(status));
        }
        match body {
            None => Err(PocketcastError::ParseError),
            Some(b) => Ok(b.podcast),
        }
    }

    /// The outbound request of `search_podcasts`: an authenticated POST
    /// of the search term to the fixed search endpoint.
    pub fn search_request(&self, term: String) -> (r: (RequestPlan, SearchRequest))
        ensures
            r.0.method is Post,
            r.0.url@ == api::spec_search_podcasts_uri(),
            r.0.authorization matches Some(a) && a@ == spec_bearer(self.spec_token()),
            r.0.cookie is None,
            r.0.follow_redirects == true,
            r.1.term == term,
    {
        let plan = RequestPlan {
            method: HttpMethod::Post,
            url: String::from_str(api::search_podcasts_uri()),
            authorization: Some(bearer(self.token.as_str())),
            cookie: None,
            follow_redirects: true,
        };
        (plan, SearchRequest { term })
    }

    /// Maps the search endpoint's response to the matching podcasts, as
    /// [`spec_search_result`] states.
    pub fn search_podcasts(&self, status: u16, body: Option<SearchResponse>) -> (r: Result<
        Vec<SearchPodcast>,
        PocketcastError,
    >)
        ensures
            list_result_view(r) == spec_search_result(status, body),
    {
        if !is_success_status(status) {
            return Err(PocketcastError::HttpStatusError(status));
        }
        match body {
            None => Err(PocketcastError::ParseError),
            Some(b) => Ok(b.podcasts),
        }
    }

    /// The outbound request of a discovery feed: an unauthenticated GET
    /// to one of the three fixed URLs.
    fn discover_request(url: &'static str) -> (r: RequestPlan)
        ensures
            r.method is Get,
            r.url@ == url@,
            r.authorization is None,
            r.cookie is None,
            r.follow_redirects == true,
    {
        RequestPlan {
            method: HttpMethod::Get,
            url: String::from_str(url),
            authorization: None,
            cookie: None,
            follow_redirects: true,
        }
    }

    /// The outbound request of `get_top_charts`.
    pub fn top_charts_request() -> (r: RequestPlan)
        ensures
            r.method is Get,
            r.url@ == api::spec_get_top_charts_uri(),
            r.authorization is None,
            r.cookie is None,
            r.follow_redirects == true,
    {
        PocketcastClient::discover_request(api::get_top_charts_uri())
    }

    /// The outbound request of `get_featured`.
    pub fn featured_request() -> (r: RequestPlan)
        ensures
            r.method is Get,
            r.url@ == api::spec_get_featured_uri(),
            r.authorization is None,
            r.cookie is None,
            r.follow_redirects == true,
    {
        PocketcastClient::discover_request(api::get_featured_uri())
    }

    /// The outbound request of `get_trending`.
    pub fn trending_request() -> (r: RequestPlan)
        ensures
            r.method is Get,
            r.url@ == api::spec_get_trending_uri(),
            r.authorization is None,
            r.cookie is None,
            r.follow_redirects == true,
    {
        PocketcastClient::discover_request(api::get_trending_uri())
    }

    /// Maps a discovery feed's response to its podcast list, as
    /// [`spec_discover_result`] states: a decoded envelope without a
    /// `result` payload is an `EmptyResponse` failure, never an empty
    /// list.
    pub fn get_discover(status: u16, body: Option<DiscoverResponse>) -> (r: Result<
        Vec<DiscoverPodcast>,
        PocketcastError,
    >)
        ensures
            list_result_view(r) == spec_discover_result(status, body),
    {
        if !is_success_status(status) {
            return Err(PocketcastError::HttpStatusError(status));
        }
        match body {
            None => Err(PocketcastError::ParseError),
            Some(b) => match b.result {
                None => Err(PocketcastError::EmptyResponse),
                Some(res) => Ok(res.podcasts),
            },
        }
    }

    /// Maps the top-charts feed's response, as [`spec_discover_result`]
    /// states.
    pub fn get_top_charts(status: u16, body: Option<DiscoverResponse>) -> (r: Result<
        Vec<DiscoverPodcast>,
        PocketcastError,
    >)
        ensures
            list_result_view(r) == spec_discover_result(status, body),
    {
        PocketcastClient::get_discover(status, body)
    }

    /// Maps the featured feed's response, as [`spec_discover_result`]
    /// states.
    pub fn get_featured(status: u16, body: Option<DiscoverResponse>) -> (r: Result<
        Vec<DiscoverPodcast>,
        PocketcastError,
    >)
        ensures
            list_result_view(r) == spec_discover_result(status, body),
    {
        PocketcastClient::get_discover(status, body)
    }

    /// Maps the trending feed's response, as [`spec_discover_result`]
    /// states.
    pub fn get_trending(status: u16, body: Option<DiscoverResponse>) -> (r: Result<
        Vec<DiscoverPodcast>,
        PocketcastError,
    >)
        ensures
            list_result_view(r) == spec_discover_result(status, body),
    {
        PocketcastClient::get_discover(status, body)
    }
}

} // verus!
