//! The backend's response envelopes, and the meaning of each remote
//! operation's response as a spec function from HTTP status and decoded
//! body to the domain result.
//!
//! An envelope mirrors the JSON nesting of the wire body; the decoding
//! itself is done outside this library, which only receives the decoded
//! value (or `None`, where the body did not decode against the schema).
use vstd::prelude::*;
use vstd::string::StringExecFns;
use crate::episode::Episode;
use crate::error::PocketcastError;
use crate::http::spec_is_success;
use crate::podcast::spec_thumbnail_url;
use crate::podcast::DiscoverPodcast;
use crate::podcast::Podcast;

verus! {

/// Envelope of the episodes endpoint: podcast metadata around the
/// episode list.
#[derive(Clone, Debug, PartialEq)]
pub struct EpisodesResponse {
    pub episode_count: u32,
    pub episode_frequency: String,
    pub estimated_next_episode_at: String,
    pub has_more_episodes: bool,
    pub has_seasons: bool,
    pub season_count: u32,
    pub podcast: EpisodesPodcast,
}

/// The podcast record nested inside an [`EpisodesResponse`], holding
/// the episode list the caller actually wants.
#[derive(Clone, Debug, PartialEq)]
pub struct EpisodesPodcast {
    pub audio: bool,
    pub author: String,
    pub uuid: String,
    pub category: String,
    pub description: String,
    pub title: String,
    pub url: String,
    pub episodes: Vec<Episode>,
}

/// Envelope of the subscriptions endpoint.
#[derive(Clone, Debug, PartialEq)]
pub struct SubscriptionsResponse {
    pub podcasts: Vec<Podcast>,
}

/// Envelope of the three discovery feeds. `result` is optional on the
/// wire: a feed may answer with a bare status and no payload at all.
#[derive(Clone, Debug, PartialEq)]
pub struct DiscoverResponse {
    pub result: Option<DiscoverResult>,
    pub status: String,
}

/// The payload of a discovery feed that did answer with content.
#[derive(Clone, Debug, PartialEq)]
pub struct DiscoverResult {
    pub podcasts: Vec<DiscoverPodcast>,
}

/// Envelope of the search endpoint.
#[derive(Clone, Debug, PartialEq)]
pub struct SearchResponse {
    pub podcasts: Vec<SearchPodcast>,
}

/// A podcast record as the search endpoint returns it: text fields
/// only, with the thumbnail derived rather than transmitted.
#[derive(Clone, Debug, PartialEq)]
pub struct SearchPodcast {
    pub author: String,
    pub description: String,
    pub title: String,
    pub url: String,
    pub uuid: String,
}

impl SearchPodcast {
    /// The derived image-CDN address for this podcast's artwork.
    pub fn thumbnail_url(&self) -> (r: String)
        ensures
            r@ == spec_thumbnail_url(self.uuid@),
    {
        let mut r = String::from_str("https://static2.pocketcasts.com/discover/images/400/");
        r.append(self.uuid.as_str());
        r.append(".jpg");
        r
    }
}

/// What a subscriptions response means: a non-2xx status is an
/// `HttpStatusError`, an undecodable body a `ParseError`, and a decoded
/// envelope yields exactly its `podcasts` list.
pub open spec fn spec_subscriptions_result(
    status: u16,
    body: Option<SubscriptionsResponse>,
) -> Result<Seq<Podcast>, PocketcastError> {
    if !spec_is_success(status) {
        Err(PocketcastError::HttpStatusError(status))
    } else {
        match body {
            None => Err(PocketcastError::ParseError),
            Some(b) => Ok(b.podcasts@),
        }
    }
}

/// What a discovery response means. A decoded envelope without a
/// `result` payload is itself a failure, `EmptyResponse` — never an
/// empty list.
pub open spec fn spec_discover_result(status: u16, body: Option<DiscoverResponse>) -> Result<
    Seq<DiscoverPodcast>,
    PocketcastError,
> {
    if !spec_is_success(status) {
        Err(PocketcastError::HttpStatusError(status))
    } else {
        match body {
            None => Err(PocketcastError::ParseError),
            Some(b) => match b.result {
                None => Err(PocketcastError::EmptyResponse),
                Some(res) => Ok(res.podcasts@),
            },
        }
    }
}

/// What an episodes response means: the episode list nested inside the
/// envelope's `podcast` record.
pub open spec fn spec_episodes_result(status: u16, body: Option<EpisodesResponse>) -> Result<
    Seq<Episode>,
    PocketcastError,
> {
    if !spec_is_success(status) {
        Err(PocketcastError::HttpStatusError(status))
    } else {
        match body {
            None => Err(PocketcastError::ParseError),
            Some(b) => Ok(b.podcast.episodes@),
        }
    }
}

/// What a search response means: exactly its `podcasts` list.
pub open spec fn spec_search_result(status: u16, body: Option<SearchResponse>) -> Result<
    Seq<SearchPodcast>,
    PocketcastError,
> {
    if !spec_is_success(status) {
        Err(PocketcastError::HttpStatusError(status))
    } else {
        match body {
            None => Err(PocketcastError::ParseError),
            Some(b) => Ok(b.podcasts@),
        }
    }
}

/// A successful discovery response whose envelope carries no `result`
/// yields `EmptyResponse` — never a successful empty list.
pub proof fn lemma_null_result_is_empty_response(status: u16, body: DiscoverResponse)
    requires
        spec_is_success(status),
        body.result is None,
    ensures
        spec_discover_result(status, Some(body)) == Err::<
            Seq<DiscoverPodcast>,
            PocketcastError,
        >(PocketcastError::EmptyResponse),
{
}

} // verus!
