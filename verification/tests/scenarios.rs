use pocketcasts::client::LoginResponseBody;
use pocketcasts::responses::DiscoverResponse;
use pocketcasts::responses::SearchPodcast;
use pocketcasts::responses::SubscriptionsResponse;
use pocketcasts::Podcast;
use pocketcasts::PocketcastClient;
use pocketcasts::PocketcastError;
use pocketcasts::PocketcastUser;

fn sample_podcast(uuid: &str) -> Podcast {
    Podcast {
        uuid: uuid.to_string(),
        title: "T".to_string(),
        author: "A".to_string(),
        description: "D".to_string(),
        url: None,
        auto_start_from: 0,
        episodes_sort_order: 1,
        last_epsiode_archived: None,
        last_episode_published: "2020-01-01".to_string(),
        last_episode_uuid: "e1".to_string(),
        unplayed: false,
    }
}

#[test]
fn thumbnail_url_is_derived_from_uuid() {
    let podcast = sample_podcast("abc-123");
    assert_eq!(
        podcast.thumbnail_url(),
        "https://static2.pocketcasts.com/discover/images/400/abc-123.jpg"
    );
    let found = SearchPodcast {
        author: "A".to_string(),
        description: "D".to_string(),
        title: "T".to_string(),
        url: "https://example.com".to_string(),
        uuid: "abc-123".to_string(),
    };
    assert_eq!(
        found.thumbnail_url(),
        "https://static2.pocketcasts.com/discover/images/400/abc-123.jpg"
    );
}

#[test]
fn login_then_subscriptions_attaches_bearer_token() {
    let body = LoginResponseBody { token: "tok1".to_string(), uuid: "u1".to_string() };
    let client = PocketcastClient::login(200, Some(body)).unwrap();
    let (plan, version) = client.subscriptions_request();
    assert_eq!(plan.authorization, Some("Bearer tok1".to_string()));
    assert_eq!(plan.url, "https://api.pocketcasts.com/user/podcast/list");
    assert_eq!(version.version, 1);
    let envelope = SubscriptionsResponse { podcasts: vec![sample_podcast("p1")] };
    let subscriptions = client.get_subscriptions(200, Some(envelope)).unwrap();
    assert_eq!(subscriptions.len(), 1);
    assert_eq!(subscriptions[0].uuid, "p1");
}

#[test]
fn login_unauthorized_is_invalid_credentials() {
    let result = PocketcastClient::login(401, None);
    assert_eq!(result.unwrap_err(), PocketcastError::InvalidCredentials);
}

#[test]
fn login_server_error_is_http_status_error() {
    let result = PocketcastClient::login(500, None);
    assert_eq!(result.unwrap_err(), PocketcastError::HttpStatusError(500));
}

#[test]
fn login_undecodable_body_is_parse_error() {
    let result = PocketcastClient::login(200, None);
    assert_eq!(result.unwrap_err(), PocketcastError::ParseError);
}

#[test]
fn top_charts_without_result_is_empty_response() {
    let body = DiscoverResponse { result: None, status: "ok".to_string() };
    let result = PocketcastClient::get_top_charts(200, Some(body));
    assert_eq!(result.unwrap_err(), PocketcastError::EmptyResponse);
}

#[test]
fn discover_http_error_is_http_status_error() {
    let result = PocketcastClient::get_top_charts(500, None);
    assert_eq!(result.unwrap_err(), PocketcastError::HttpStatusError(500));
}

#[test]
fn subscriptions_undecodable_body_is_parse_error() {
    let client = PocketcastClient::new("tok".to_string());
    let result = client.get_subscriptions(200, None);
    assert_eq!(result.unwrap_err(), PocketcastError::ParseError);
}

fn create_user() -> PocketcastUser {
    PocketcastUser::new("user@example.com".to_string(), "hunter2".to_string())
}

#[test]
fn user_login_ok_status_is_invalid_credentials() {
    let mut user = create_user();
    let result = user.login(200, &vec![]);
    assert_eq!(result.unwrap_err(), PocketcastError::InvalidCredentials);
    assert_eq!(user.session, None);
}

#[test]
fn user_login_unexpected_status_is_http_status_error() {
    let mut user = create_user();
    let result = user.login(503, &vec![]);
    assert_eq!(result.unwrap_err(), PocketcastError::HttpStatusError(503));
    assert_eq!(user.session, None);
}

#[test]
fn user_login_without_session_cookie_is_missing_session() {
    let mut user = create_user();
    let result = user.login(302, &vec![]);
    assert_eq!(result.unwrap_err(), PocketcastError::MissingSession);
    assert_eq!(user.session, None);

    let headers = vec!["other=1; Path=/".to_string()];
    let result = user.login(302, &headers);
    assert_eq!(result.unwrap_err(), PocketcastError::MissingSession);
    assert_eq!(user.session, None);

    let headers = vec!["no equals sign here".to_string()];
    let result = user.login(302, &headers);
    assert_eq!(result.unwrap_err(), PocketcastError::MissingSession);
    assert_eq!(user.session, None);
}

#[test]
fn user_login_extracts_session_cookie_value() {
    let mut user = create_user();
    let headers = vec![
        "no equals sign here".to_string(),
        "other=1; Path=/".to_string(),
        "_social_session=abc123; Path=/; HttpOnly".to_string(),
        "_social_session=later; Path=/".to_string(),
    ];
    user.login(302, &headers).unwrap();
    assert_eq!(user.session, Some("abc123".to_string()));
}

#[test]
fn user_operations_before_login_are_no_session() {
    let user = create_user();
    assert_eq!(user.session, None);
    let request = user.subscriptions_request();
    assert_eq!(request.unwrap_err(), PocketcastError::NoSession);
    let result = user.get_subscriptions(200, None);
    assert_eq!(result.unwrap_err(), PocketcastError::NoSession);
}

#[test]
fn user_subscriptions_request_carries_session_cookie() {
    let mut user = create_user();
    let headers = vec!["_social_session=abc123".to_string()];
    user.login(302, &headers).unwrap();
    let plan = user.subscriptions_request().unwrap();
    assert_eq!(plan.cookie, Some("_social_session=abc123".to_string()));
    assert_eq!(plan.url, "https://play.pocketcasts.com/web/podcasts/all.json");
    assert_eq!(plan.authorization, None);
}

#[test]
fn user_login_form_carries_credentials() {
    let user = create_user();
    let form = user.login_form();
    assert_eq!(form.len(), 2);
    assert_eq!(form[0], ("[user]email".to_string(), "user@example.com".to_string()));
    assert_eq!(form[1], ("[user]password".to_string(), "hunter2".to_string()));
}

fn podcast_to_json(p: &Podcast) -> serde_json::Value {
    let mut map = serde_json::Map::new();
    map.insert("uuid".to_string(), serde_json::Value::from(p.uuid.clone()));
    map.insert("title".to_string(), serde_json::Value::from(p.title.clone()));
    map.insert("author".to_string(), serde_json::Value::from(p.author.clone()));
    map.insert("description".to_string(), serde_json::Value::from(p.description.clone()));
    match &p.url {
        Some(u) => map.insert("url".to_string(), serde_json::Value::from(u.clone())),
        None => map.insert("url".to_string(), serde_json::Value::Null),
    };
    map.insert("autoStartFrom".to_string(), serde_json::Value::from(p.auto_start_from));
    map.insert("episodesSortOrder".to_string(), serde_json::Value::from(p.episodes_sort_order));
    match p.last_epsiode_archived {
        Some(b) => map.insert("lastEpsiodeArchived".to_string(), serde_json::Value::from(b)),
        None => map.insert("lastEpsiodeArchived".to_string(), serde_json::Value::Null),
    };
    map.insert(
        "lastEpisodePublished".to_string(),
        serde_json::Value::from(p.last_episode_published.clone()),
    );
    map.insert("lastEpisodeUuid".to_string(), serde_json::Value::from(p.last_episode_uuid.clone()));
    map.insert("unplayed".to_string(), serde_json::Value::from(p.unplayed));
    serde_json::Value::Object(map)
}

fn podcast_from_json(v: &serde_json::Value) -> Podcast {
    let text = |key: &str| v[key].as_str().unwrap().to_string();
    Podcast {
        uuid: text("uuid"),
        title: text("title"),
        author: text("author"),
        description: text("description"),
        url: v["url"].as_str().map(|s| s.to_string()),
        auto_start_from: v["autoStartFrom"].as_u64().unwrap() as u32,
        episodes_sort_order: v["episodesSortOrder"].as_u64().unwrap() as u32,
        last_epsiode_archived: v["lastEpsiodeArchived"].as_bool(),
        last_episode_published: text("lastEpisodePublished"),
        last_episode_uuid: text("lastEpisodeUuid"),
        unplayed: v["unplayed"].as_bool().unwrap(),
    }
}

#[test]
fn podcast_wire_round_trip_is_identity() {
    let podcast = sample_podcast("abc-123");
    let encoded = serde_json::to_string(&podcast_to_json(&podcast)).unwrap();
    let decoded: serde_json::Value = serde_json::from_str(&encoded).unwrap();
    assert_eq!(podcast_from_json(&decoded), podcast);

    let with_url = Podcast { url: Some("https://example.com".to_string()), ..sample_podcast("p2") };
    let encoded = serde_json::to_string(&podcast_to_json(&with_url)).unwrap();
    let decoded: serde_json::Value = serde_json::from_str(&encoded).unwrap();
    assert_eq!(podcast_from_json(&decoded), with_url);
}

fn episode_to_json(e: &pocketcasts::Episode) -> serde_json::Value {
    let mut map = serde_json::Map::new();
    map.insert("uuid".to_string(), serde_json::Value::from(e.uuid.clone()));
    map.insert("file_size".to_string(), serde_json::Value::from(e.file_size));
    map.insert("file_type".to_string(), serde_json::Value::from(e.file_type.clone()));
    map.insert("title".to_string(), serde_json::Value::from(e.title.clone()));
    map.insert("url".to_string(), serde_json::Value::from(e.url.clone()));
    map.insert("duration".to_string(), serde_json::Value::from(e.duration));
    serde_json::Value::Object(map)
}

fn episode_from_json(v: &serde_json::Value) -> pocketcasts::Episode {
    pocketcasts::Episode {
        uuid: v["uuid"].as_str().unwrap().to_string(),
        file_size: v["file_size"].as_i64().unwrap() as i32,
        file_type: v["file_type"].as_str().unwrap().to_string(),
        title: v["title"].as_str().unwrap().to_string(),
        url: v["url"].as_str().unwrap().to_string(),
        duration: v["duration"].as_u64().unwrap(),
    }
}

#[test]
fn episode_wire_round_trip_is_identity() {
    let episode = pocketcasts::Episode {
        uuid: "e1".to_string(),
        file_size: 1000,
        file_type: "audio/mp3".to_string(),
        title: "E".to_string(),
        url: "https://example.com/e1.mp3".to_string(),
        duration: 60,
    };
    let encoded = serde_json::to_string(&episode_to_json(&episode)).unwrap();
    let decoded: serde_json::Value = serde_json::from_str(&encoded).unwrap();
    assert_eq!(episode_from_json(&decoded), episode);
}
