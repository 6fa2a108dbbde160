use posterino::config::{
    BlueskyConfig, Config, ConfigError, ConfigSource, MastodonConfig, PlatformConfig,
    TwitterConfig,
};
use posterino::platform::Platform;

fn twitter() -> TwitterConfig {
    TwitterConfig {
        consumer_key: "ck".to_string(),
        consumer_secret: "cs".to_string(),
        access_token: "at".to_string(),
        access_token_secret: "ats".to_string(),
    }
}

fn mastodon() -> MastodonConfig {
    MastodonConfig { access_token: "tok".to_string(), instance_url: "https://m.example".to_string() }
}

fn bluesky() -> BlueskyConfig {
    BlueskyConfig {
        identifier: "me.bsky.social".to_string(),
        password: "pw".to_string(),
        instance_url: "https://bsky.social".to_string(),
    }
}

fn read(config: Config) -> ConfigSource {
    ConfigSource::Read {
        path: "/home/u/.config/posterino/config.toml".to_string(),
        text: "[twitter]\nconsumer_key = \"ck\"\n".to_string(),
        parsed: Ok(config),
    }
}

fn full() -> Config {
    Config { twitter: Some(twitter()), mastodon: Some(mastodon()), bluesky: Some(bluesky()) }
}

#[test]
fn get_returns_each_twitter_key() {
    let config = PlatformConfig::Twitter(twitter());
    assert_eq!(config.get("consumer_key").unwrap(), "ck");
    assert_eq!(config.get("consumer_secret").unwrap(), "cs");
    assert_eq!(config.get("access_token").unwrap(), "at");
    assert_eq!(config.get("access_token_secret").unwrap(), "ats");
}

#[test]
fn get_returns_each_mastodon_and_bluesky_key() {
    let config = PlatformConfig::Mastodon(mastodon());
    assert_eq!(config.get("access_token").unwrap(), "tok");
    assert_eq!(config.get("instance_url").unwrap(), "https://m.example");
    let config = PlatformConfig::Bluesky(bluesky());
    assert_eq!(config.get("identifier").unwrap(), "me.bsky.social");
    assert_eq!(config.get("password").unwrap(), "pw");
    assert_eq!(config.get("instance_url").unwrap(), "https://bsky.social");
}

#[test]
fn get_rejects_a_key_of_another_platform() {
    let config = PlatformConfig::Mastodon(mastodon());
    match config.get("consumer_key") {
        Err(ConfigError::UnknownKey { platform, key }) => {
            assert_eq!(platform, Platform::Mastodon);
            assert_eq!(key, "consumer_key");
        }
        other => panic!("unexpected: {:?}", other),
    }
    let error = PlatformConfig::Twitter(twitter()).get("instance_url").unwrap_err();
    assert_eq!(error.message(), "Unknown Twitter config key: instance_url");
    let error = PlatformConfig::Bluesky(bluesky()).get("").unwrap_err();
    assert_eq!(error.message(), "Unknown Bluesky config key: ");
}

#[test]
fn load_selects_the_section() {
    match Config::load("twitter", read(full())) {
        Ok(PlatformConfig::Twitter(section)) => assert_eq!(section.consumer_secret, "cs"),
        other => panic!("unexpected: {:?}", other),
    }
    match Config::load("mastodon", read(full())) {
        Ok(PlatformConfig::Mastodon(section)) => assert_eq!(section.access_token, "tok"),
        other => panic!("unexpected: {:?}", other),
    }
    match Config::load("bluesky", read(full())) {
        Ok(PlatformConfig::Bluesky(section)) => assert_eq!(section.identifier, "me.bsky.social"),
        other => panic!("unexpected: {:?}", other),
    }
}

#[test]
fn load_fails_on_a_missing_section() {
    let config = Config { twitter: None, mastodon: Some(mastodon()), bluesky: None };
    let error = Config::load("twitter", read(config.clone())).unwrap_err();
    assert!(matches!(error, ConfigError::MissingSection(Platform::Twitter)));
    assert_eq!(error.message(), "Twitter configuration not found in config file");
    let error = Config::load("bluesky", read(config.clone())).unwrap_err();
    assert_eq!(error.message(), "Bluesky configuration not found in config file");
    assert!(Config::load("mastodon", read(config)).is_ok());
}

#[test]
fn load_fails_on_an_unknown_platform() {
    let error = Config::load("myspace", read(full())).unwrap_err();
    assert!(matches!(error, ConfigError::UnsupportedPlatform(_)));
    assert_eq!(error.message(), "Unsupported platform: myspace");
    let error = Config::load("Twitter", read(full())).unwrap_err();
    assert_eq!(error.message(), "Unsupported platform: Twitter");
}

#[test]
fn load_fails_without_a_file() {
    let source = ConfigSource::Missing { path: "/home/u/.config/posterino/config.toml".to_string() };
    let error = Config::load("twitter", source).unwrap_err();
    assert!(matches!(error, ConfigError::NotFound { .. }));
    assert_eq!(
        error.message(),
        "Config file not found. An example config has been created at: /home/u/.config/posterino/config.toml\nPlease fill in your credentials."
    );
}

#[test]
fn load_hands_on_a_read_or_parse_error() {
    let error = Config::load("twitter", ConfigSource::Failed("permission denied".to_string()))
        .unwrap_err();
    assert!(matches!(error, ConfigError::Invalid(_)));
    assert_eq!(error.message(), "permission denied");
    let source = ConfigSource::Read {
        path: "/c.toml".to_string(),
        text: "[twitter]\nconsumer_key = 1\n".to_string(),
        parsed: Err("missing field".to_string()),
    };
    let error = Config::load("twitter", source).unwrap_err();
    assert!(matches!(error, ConfigError::Invalid(_)));
    assert_eq!(error.message(), "missing field");
}

fn template_values() -> Config {
    Config {
        twitter: Some(TwitterConfig {
            consumer_key: "your_twitter_consumer_key".to_string(),
            consumer_secret: "your_twitter_consumer_secret".to_string(),
            access_token: "your_twitter_access_token".to_string(),
            access_token_secret: "your_twitter_access_token_secret".to_string(),
        }),
        mastodon: Some(MastodonConfig {
            access_token: "your_mastodon_access_token".to_string(),
            instance_url: "https://mastodon.social".to_string(),
        }),
        bluesky: Some(BlueskyConfig {
            identifier: "your_handle.bsky.social".to_string(),
            password: "your_bluesky_app_password".to_string(),
            instance_url: "https://bsky.social".to_string(),
        }),
    }
}

#[test]
fn unedited_template_fails_as_a_missing_file() {
    let path = "/home/u/.config/posterino/config.toml";
    for platform in ["twitter", "mastodon", "bluesky", "myspace"] {
        let first = Config::load(platform, ConfigSource::Missing { path: path.to_string() })
            .unwrap_err();
        let source = ConfigSource::Read {
            path: path.to_string(),
            text: Config::template().to_string(),
            parsed: Ok(template_values()),
        };
        let second = Config::load(platform, source).unwrap_err();
        assert!(matches!(second, ConfigError::NotFound { path: ref p } if p == path));
        assert_eq!(second.message(), first.message());
        let source = ConfigSource::Read {
            path: path.to_string(),
            text: Config::template().to_string(),
            parsed: Err("does not matter".to_string()),
        };
        let third = Config::load(platform, source).unwrap_err();
        assert_eq!(third.message(), first.message());
    }
}

#[test]
fn edited_template_is_read() {
    let edited = Config::template().replace("your_twitter_consumer_key", "real-key");
    let mut config = template_values();
    config.twitter.as_mut().unwrap().consumer_key = "real-key".to_string();
    let source =
        ConfigSource::Read { path: "/c.toml".to_string(), text: edited, parsed: Ok(config) };
    match Config::load("twitter", source) {
        Ok(PlatformConfig::Twitter(section)) => assert_eq!(section.consumer_key, "real-key"),
        other => panic!("unexpected: {:?}", other),
    }
}

#[test]
fn select_picks_the_section() {
    assert!(matches!(full().select("mastodon"), Ok(PlatformConfig::Mastodon(_))));
    let empty = Config { twitter: None, mastodon: None, bluesky: None };
    assert!(matches!(
        empty.select("bluesky"),
        Err(ConfigError::MissingSection(Platform::Bluesky))
    ));
    assert!(matches!(full().select("x"), Err(ConfigError::UnsupportedPlatform(_))));
}

#[test]
fn template_names_every_platform() {
    let template = Config::template();
    assert!(template.starts_with("[twitter]\nconsumer_key = \"your_twitter_consumer_key\"\n"));
    assert!(template.contains("\n[mastodon]\naccess_token = "));
    assert!(template.contains("\n[bluesky]\nidentifier = "));
    assert!(template.ends_with("\n"));
}

#[test]
fn platform_names_round_trip() {
    for platform in [Platform::Twitter, Platform::Mastodon, Platform::Bluesky] {
        assert_eq!(Platform::from_name(platform.name()), Some(platform));
    }
    assert_eq!(Platform::from_name("twitter"), Some(Platform::Twitter));
    assert_eq!(Platform::from_name("Bluesky"), None);
    assert_eq!(Platform::from_name(""), None);
    assert_eq!(Platform::Mastodon.label(), "Mastodon");
}
