use posterino::config::{
    BlueskyConfig, ConfigError, MastodonConfig, PlatformConfig, TwitterConfig,
};
use posterino::message::unescape_newlines;
use posterino::platform::Platform;
use posterino::social::bluesky::BlueskyClient;
use posterino::social::mastodon::{trim_trailing_slashes, MastodonClient};
use posterino::social::twitter::TwitterClient;
use posterino::social::{bearer_header, Body, HttpReply, Outcome, PostStep, SocialClient};

fn twitter() -> TwitterClient {
    TwitterClient {
        consumer_key: "ck".to_string(),
        consumer_secret: "cs".to_string(),
        access_token: "at".to_string(),
        access_token_secret: "ats".to_string(),
    }
}

fn mastodon(instance_url: &str) -> MastodonClient {
    MastodonClient { access_token: "tok".to_string(), instance_url: instance_url.to_string() }
}

fn bluesky() -> BlueskyClient {
    BlueskyClient {
        identifier: "me.bsky.social".to_string(),
        password: "pw".to_string(),
        instance_url: "https://bsky.social".to_string(),
    }
}

fn answered(status: u16, body: &str) -> HttpReply {
    HttpReply::Answered { status, body: body.to_string() }
}

#[test]
fn mastodon_endpoint_ignores_a_trailing_slash() {
    assert_eq!(mastodon("https://example.social/").endpoint(), "https://example.social/api/v1/statuses");
    assert_eq!(mastodon("https://example.social").endpoint(), "https://example.social/api/v1/statuses");
    assert_eq!(mastodon("https://example.social///").endpoint(), "https://example.social/api/v1/statuses");
}

#[test]
fn trailing_slashes_are_trimmed() {
    assert_eq!(trim_trailing_slashes(""), "");
    assert_eq!(trim_trailing_slashes("/"), "");
    assert_eq!(trim_trailing_slashes("a/b"), "a/b");
    assert_eq!(trim_trailing_slashes("a/b//"), "a/b");
    assert_eq!(trim_trailing_slashes("é/"), "é");
}

#[test]
fn mastodon_request_is_a_public_status() {
    let request = mastodon("https://example.social/").request("hello");
    assert_eq!(request.url, "https://example.social/api/v1/statuses");
    assert_eq!(request.authorization.as_deref(), Some("Bearer tok"));
    match request.body {
        Body::Status { status, visibility } => {
            assert_eq!(status, "hello");
            assert_eq!(visibility, "public");
        }
        other => panic!("unexpected: {:?}", other),
    }
}

#[test]
fn twitter_request_is_signed() {
    let request = twitter().request("hello");
    assert_eq!(request.url, "https://api.twitter.com/2/tweets");
    let header = request.authorization.unwrap();
    assert!(header.starts_with("OAuth "));
    assert!(header.contains("oauth_consumer_key=\"ck\""));
    assert!(header.contains("oauth_token=\"at\""));
    assert!(header.contains("oauth_signature="));
    match request.body {
        Body::Tweet { text } => assert_eq!(text, "hello"),
        other => panic!("unexpected: {:?}", other),
    }
}

#[test]
fn twitter_request_keeps_the_given_header() {
    let request = TwitterClient::signed_request("hi", "OAuth x=\"y\"".to_string());
    assert_eq!(request.url, "https://api.twitter.com/2/tweets");
    assert_eq!(request.authorization.as_deref(), Some("OAuth x=\"y\""));
    assert!(matches!(request.body, Body::Tweet { ref text } if text == "hi"));
}

#[test]
fn bodies_carry_a_real_line_feed() {
    let message = unescape_newlines("one\\ntwo");
    assert_eq!(message, "one\ntwo");
    match twitter().request(&message).body {
        Body::Tweet { text } => assert_eq!(text, "one\ntwo"),
        other => panic!("unexpected: {:?}", other),
    }
    match mastodon("https://m.example").request(&message).body {
        Body::Status { status, .. } => assert_eq!(status, "one\ntwo"),
        other => panic!("unexpected: {:?}", other),
    }
    match bluesky().create_record(&message, "jwt", "2024-01-01T00:00:00+00:00".to_string()).body {
        Body::Record { text, .. } => assert_eq!(text, "one\ntwo"),
        other => panic!("unexpected: {:?}", other),
    }
}

#[test]
fn answers_become_outcomes() {
    assert!(matches!(Outcome::from_reply(answered(200, "ok")), Outcome::Success(ref b) if b == "ok"));
    assert!(matches!(Outcome::from_reply(answered(299, "ok")), Outcome::Success(_)));
    assert!(matches!(Outcome::from_reply(answered(199, "no")), Outcome::Failure(ref b) if b == "no"));
    assert!(matches!(Outcome::from_reply(answered(300, "no")), Outcome::Failure(_)));
    assert!(matches!(Outcome::from_reply(answered(401, "denied")), Outcome::Failure(ref b) if b == "denied"));
    assert!(matches!(
        Outcome::from_reply(HttpReply::Failed("timed out".to_string())),
        Outcome::Failure(ref b) if b == "timed out"
    ));
}

#[test]
fn bearer_header_holds_the_token() {
    assert_eq!(bearer_header("abc"), "Bearer abc");
    assert_eq!(bearer_header(""), "Bearer ");
}

#[test]
fn bluesky_opens_a_session_first() {
    let request = bluesky().begin("hello");
    assert_eq!(request.url, "https://bsky.social/xrpc/com.atproto.server.createSession");
    assert!(request.authorization.is_none());
    match request.body {
        Body::Session { identifier, password } => {
            assert_eq!(identifier, "me.bsky.social");
            assert_eq!(password, "pw");
        }
        other => panic!("unexpected: {:?}", other),
    }
}

#[test]
fn session_token_is_read_from_the_answer() {
    let reply = answered(200, "{\"accessJwt\":\"abc.def\",\"handle\":\"me\"}");
    assert_eq!(BlueskyClient::session_token(reply), Ok("abc.def".to_string()));
    let reply = answered(200, "{\"accessJwt\": \"a\\u0062c\"}");
    assert_eq!(BlueskyClient::session_token(reply), Ok("abc".to_string()));
}

#[test]
fn session_without_token_fails() {
    for body in ["{}", "{\"handle\":\"me\"}", "{\"accessJwt\":5}", "{\"accessJwt\":null}", "[]", "not json", ""] {
        assert_eq!(
            BlueskyClient::session_token(answered(200, body)),
            Err("Failed to get access token".to_string()),
            "body: {:?}",
            body
        );
    }
}

#[test]
fn session_with_bad_status_or_no_answer_fails() {
    assert_eq!(
        BlueskyClient::session_token(answered(401, "{\"accessJwt\":\"abc\"}")),
        Err("{\"accessJwt\":\"abc\"}".to_string())
    );
    assert_eq!(
        BlueskyClient::session_token(HttpReply::Failed("connection refused".to_string())),
        Err("connection refused".to_string())
    );
    assert_eq!(
        BlueskyClient::read_session(answered(200, "x"), Some("t".to_string())),
        Ok("t".to_string())
    );
    assert_eq!(
        BlueskyClient::read_session(answered(500, "x"), Some("t".to_string())),
        Err("x".to_string())
    );
}

#[test]
fn bluesky_never_posts_without_a_token() {
    let step = bluesky().proceed("hello", 0, answered(200, "{\"did\":\"x\"}"));
    match step {
        PostStep::Done(Outcome::Failure(cause)) => assert_eq!(cause, "Failed to get access token"),
        other => panic!("unexpected: {:?}", other),
    }
    let step = bluesky().proceed("hello", 0, HttpReply::Failed("down".to_string()));
    assert!(matches!(step, PostStep::Done(Outcome::Failure(ref c)) if c == "down"));
}

#[test]
fn bluesky_posts_with_the_session_token() {
    let step = bluesky().proceed("see https://a.co now", 0, answered(200, "{\"accessJwt\":\"jwt\"}"));
    let request = match step {
        PostStep::Send(request) => request,
        other => panic!("unexpected: {:?}", other),
    };
    assert_eq!(request.url, "https://bsky.social/xrpc/com.atproto.repo.createRecord");
    assert_eq!(request.authorization.as_deref(), Some("Bearer jwt"));
    match request.body {
        Body::Record { repo, collection, record_type, text, created_at, facets, feature_type } => {
            assert_eq!(repo, "me.bsky.social");
            assert_eq!(collection, "app.bsky.feed.post");
            assert_eq!(record_type, "app.bsky.feed.post");
            assert_eq!(text, "see https://a.co now");
            assert_eq!(feature_type, "app.bsky.richtext.facet#link");
            assert!(created_at.len() >= 20 && created_at.contains('T'));
            assert!(created_at.ends_with("+00:00"));
            assert_eq!(facets.len(), 1);
            assert_eq!((facets[0].start, facets[0].end), (4, 16));
            assert_eq!(facets[0].url, "https://a.co");
        }
        other => panic!("unexpected: {:?}", other),
    }
    let step = bluesky().proceed("hello", 1, answered(200, "{\"uri\":\"at://x\"}"));
    assert!(matches!(step, PostStep::Done(Outcome::Success(ref b)) if b == "{\"uri\":\"at://x\"}"));
    let step = bluesky().proceed("hello", 1, answered(400, "bad"));
    assert!(matches!(step, PostStep::Done(Outcome::Failure(ref b)) if b == "bad"));
}

#[test]
fn record_request_keeps_the_given_stamp() {
    let request = bluesky().create_record("no links", "jwt", "2024-05-06T07:08:09+00:00".to_string());
    match request.body {
        Body::Record { created_at, facets, .. } => {
            assert_eq!(created_at, "2024-05-06T07:08:09+00:00");
            assert!(facets.is_empty());
        }
        other => panic!("unexpected: {:?}", other),
    }
}

#[test]
fn clients_take_only_their_own_credentials() {
    let twitter_config = PlatformConfig::Twitter(TwitterConfig {
        consumer_key: "ck".to_string(),
        consumer_secret: "cs".to_string(),
        access_token: "at".to_string(),
        access_token_secret: "ats".to_string(),
    });
    let mastodon_config = PlatformConfig::Mastodon(MastodonConfig {
        access_token: "tok".to_string(),
        instance_url: "https://m.example".to_string(),
    });
    let bluesky_config = PlatformConfig::Bluesky(BlueskyConfig {
        identifier: "me".to_string(),
        password: "pw".to_string(),
        instance_url: "https://bsky.social".to_string(),
    });
    let client = TwitterClient::new(twitter_config.clone()).unwrap();
    assert_eq!(client.access_token_secret, "ats");
    let client = MastodonClient::new(mastodon_config.clone()).unwrap();
    assert_eq!(client.instance_url, "https://m.example");
    let client = BlueskyClient::new(bluesky_config.clone()).unwrap();
    assert_eq!(client.identifier, "me");
    match TwitterClient::new(mastodon_config.clone()) {
        Err(ConfigError::UnknownKey { platform, key }) => {
            assert_eq!(platform, Platform::Mastodon);
            assert_eq!(key, "consumer_key");
        }
        other => panic!("unexpected: {:?}", other),
    }
    assert!(MastodonClient::new(bluesky_config).is_err());
    assert!(BlueskyClient::new(twitter_config).is_err());
}

#[test]
fn single_request_clients_finish_after_one_answer() {
    let step = twitter().proceed("hi", 0, answered(201, "{\"data\":{}}"));
    assert!(matches!(step, PostStep::Done(Outcome::Success(ref b)) if b == "{\"data\":{}}"));
    let step = mastodon("https://m.example").proceed("hi", 0, answered(422, "too long"));
    assert!(matches!(step, PostStep::Done(Outcome::Failure(ref b)) if b == "too long"));
}

#[test]
fn twitter_header_holds_the_seven_parameters_in_order() {
    let client = TwitterClient {
        consumer_key: "c k/ü~".to_string(),
        consumer_secret: "consumer-secret-value".to_string(),
        access_token: "t+k_1.-".to_string(),
        access_token_secret: "token-secret-value".to_string(),
    };
    let header = client.request("hi").authorization.unwrap();
    let rest = header.strip_prefix("OAuth ").unwrap();
    let pairs: Vec<&str> = rest.split(", ").collect();
    assert_eq!(pairs.len(), 7);
    assert_eq!(pairs[0], "oauth_consumer_key=\"c%20k%2F%C3%BC~\"");
    assert!(pairs[1].starts_with("oauth_nonce=\"") && pairs[1].ends_with('"'));
    assert!(pairs[2].starts_with("oauth_signature=\"") && pairs[2].ends_with('"'));
    assert_eq!(pairs[3], "oauth_signature_method=\"HMAC-SHA1\"");
    assert!(pairs[4].starts_with("oauth_timestamp=\"") && pairs[4].ends_with('"'));
    assert_eq!(pairs[5], "oauth_token=\"t%2Bk_1.-\"");
    assert_eq!(pairs[6], "oauth_version=\"1.0\"");
    assert!(!header.contains("consumer-secret-value"));
    assert!(!header.contains("token-secret-value"));
}

#[test]
fn twitter_signs_each_request_anew() {
    let first = twitter().request("hi").authorization.unwrap();
    let second = twitter().request("hi").authorization.unwrap();
    assert_ne!(first, second);
}
