//! Podcast records, as the subscription and discovery endpoints return
//! them.
use vstd::prelude::*;
use vstd::string::StringExecFns;

verus! {

/// The thumbnail URL of a podcast is never transmitted for discovery
/// records: it is derived from the podcast's uuid by substituting the
/// uuid into a fixed image-CDN URL template.
pub open spec fn spec_thumbnail_url(uuid: Seq<char>) -> Seq<char> {
    "https://static2.pocketcasts.com/discover/images/400/"@ + uuid + ".jpg"@
}

/// A subscribed podcast, in the shape the token-based backend sends:
/// required text fields plus subscription metadata.
#[derive(Clone, Debug, PartialEq)]
pub struct Podcast {
    pub uuid: String,
    pub title: String,
    pub author: String,
    pub description: String,
    pub url: Option<String>,
    pub auto_start_from: u32,
    pub episodes_sort_order: u32,
    pub last_epsiode_archived: Option<bool>,
    pub last_episode_published: String,
    pub last_episode_uuid: String,
    pub unplayed: bool,
}

impl Podcast {
    /// The derived image-CDN address for this podcast's artwork.
    pub fn thumbnail_url(&self) -> (r: String)
        ensures
            r@ == spec_thumbnail_url(self.uuid@),
    {
        let mut r = String::from_str("https://static2.pocketcasts.com/discover/images/400/");
        r.append(self.uuid.as_str());
        r.append(".jpg");
        r
    }
}

/// A lighter-weight podcast record returned by the discovery feeds.
#[derive(Clone, Debug, PartialEq)]
pub struct DiscoverPodcast {
    pub id: Option<i32>,
    pub uuid: String,
    pub title: String,
    pub author: String,
    pub description: String,
    pub url: Option<String>,
    pub thumbnail_url: Option<String>,
}

} // verus!
