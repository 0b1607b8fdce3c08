//! The fixed endpoint URLs of the service, one function per endpoint.
//!
//! Each function returns the literal URL and ties it, through its
//! `ensures` clause, to a spec-level view that contracts elsewhere in
//! the crate can refer to.
use vstd::prelude::*;

verus! {

pub open spec fn spec_login_uri() -> Seq<char> {
    "https://api.pocketcasts.com/user/login"@
}

pub fn login_uri() -> (r: &'static str)
    ensures
        r@ == spec_login_uri(),
{
    "https://api.pocketcasts.com/user/login"
}

pub open spec fn spec_get_subscriptions_uri() -> Seq<char> {
    "https://api.pocketcasts.com/user/podcast/list"@
}

pub fn get_subscriptions_uri() -> (r: &'static str)
    ensures
        r@ == spec_get_subscriptions_uri(),
{
    "https://api.pocketcasts.com/user/podcast/list"
}

pub open spec fn spec_search_podcasts_uri() -> Seq<char> {
    "https://api.pocketcasts.com/discover/search"@
}

pub fn search_podcasts_uri() -> (r: &'static str)
    ensures
        r@ == spec_search_podcasts_uri(),
{
    "https://api.pocketcasts.com/discover/search"
}

pub open spec fn spec_get_episodes_uri_prefix() -> Seq<char> {
    "https://cache.pocketcasts.com/podcast/full"@
}

pub fn get_episodes_uri_prefix() -> (r: &'static str)
    ensures
        r@ == spec_get_episodes_uri_prefix(),
{
    "https://cache.pocketcasts.com/podcast/full"
}

pub open spec fn spec_get_episodes_uri_suffix() -> Seq<char> {
    "0/3/1000"@
}

pub fn get_episodes_uri_suffix() -> (r: &'static str)
    ensures
        r@ == spec_get_episodes_uri_suffix(),
{
    "0/3/1000"
}

pub open spec fn spec_get_top_charts_uri() -> Seq<char> {
    "https://static.pocketcasts.com/discover/json/popular_world.json"@
}

pub fn get_top_charts_uri() -> (r: &'static str)
    ensures
        r@ == spec_get_top_charts_uri(),
{
    "https://static.pocketcasts.com/discover/json/popular_world.json"
}

pub open spec fn spec_get_featured_uri() -> Seq<char> {
    "https://static.pocketcasts.com/discover/json/featured.json"@
}

pub fn get_featured_uri() -> (r: &'static str)
    ensures
        r@ == spec_get_featured_uri(),
{
    "https://static.pocketcasts.com/discover/json/featured.json"
}

pub open spec fn spec_get_trending_uri() -> Seq<char> {
    "https://static.pocketcasts.com/discover/json/trending.json"@
}

pub fn get_trending_uri() -> (r: &'static str)
    ensures
        r@ == spec_get_trending_uri(),
{
    "https://static.pocketcasts.com/discover/json/trending.json"
}

/// The sign-in endpoint of the legacy, cookie-session backend.
pub open spec fn spec_legacy_login_uri() -> Seq<char> {
    "https://play.pocketcasts.com/users/sign_in"@
}

pub fn legacy_login_uri() -> (r: &'static str)
    ensures
        r@ == spec_legacy_login_uri(),
{
    "https://play.pocketcasts.com/users/sign_in"
}

/// The subscriptions endpoint of the legacy, cookie-session backend.
pub open spec fn spec_legacy_get_subscriptions_uri() -> Seq<char> {
    "https://play.pocketcasts.com/web/podcasts/all.json"@
}

pub fn legacy_get_subscriptions_uri() -> (r: &'static str)
    ensures
        r@ == spec_legacy_get_subscriptions_uri(),
{
    "https://play.pocketcasts.com/web/podcasts/all.json"
}

} // verus!
