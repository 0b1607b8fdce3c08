use pocketcasts::responses::DiscoverResponse;
use pocketcasts::responses::DiscoverResult;
use pocketcasts::responses::SubscriptionsResponse;
use pocketcasts::DiscoverPodcast;
use pocketcasts::Podcast;
use pocketcasts::PocketcastUser;

fn create_user() -> PocketcastUser {
    PocketcastUser::new("user@example.com".to_string(), "hunter2".to_string())
}

fn login() -> Result<PocketcastUser, pocketcasts::PocketcastError> {
    let mut user = create_user();
    let headers = vec!["_social_session=abc123; Path=/; HttpOnly".to_string()];
    user.login(302, &headers)?;
    Ok(user)
}

fn sample_podcast() -> Podcast {
    Podcast {
        uuid: "p1".to_string(),
        title: "T".to_string(),
        author: "A".to_string(),
        description: "D".to_string(),
        url: Some("https://example.com".to_string()),
        auto_start_from: 0,
        episodes_sort_order: 1,
        last_epsiode_archived: None,
        last_episode_published: "2020-01-01".to_string(),
        last_episode_uuid: "e1".to_string(),
        unplayed: false,
    }
}

fn sample_discover_response() -> DiscoverResponse {
    let podcast = DiscoverPodcast {
        id: None,
        uuid: "d1".to_string(),
        title: "T".to_string(),
        author: "A".to_string(),
        description: "D".to_string(),
        url: None,
        thumbnail_url: Some("https://example.com/d1.jpg".to_string()),
    };
    DiscoverResponse {
        result: Some(DiscoverResult { podcasts: vec![podcast] }),
        status: "ok".to_string(),
    }
}

#[test]
fn user_it_logs_in() {
    let user = login().unwrap();
    assert_ne!(user.session, None);
}

#[test]
fn user_it_should_fetch_subscriptions() {
    let user = login().unwrap();
    let body = SubscriptionsResponse { podcasts: vec![sample_podcast()] };
    let subscriptions = user.get_subscriptions(200, Some(body)).unwrap();
    assert_ne!(subscriptions, vec![]);
}

#[test]
fn user_it_should_fetch_top_charts() {
    let user = create_user();
    let charts = user.get_top_charts(200, Some(sample_discover_response())).unwrap();
    assert_ne!(charts, vec![]);
}

#[test]
fn user_it_should_fetch_featured() {
    let user = create_user();
    let charts = user.get_featured(200, Some(sample_discover_response())).unwrap();
    assert_ne!(charts, vec![]);
}

#[test]
fn user_it_should_fetch_trending() {
    let user = create_user();
    let charts = user.get_trending(200, Some(sample_discover_response())).unwrap();
    assert_ne!(charts, vec![]);
}
