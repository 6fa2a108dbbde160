//! The credentials of each platform, as read from the configuration file.
//!
//! Reading and parsing the file is left to the caller, who hands in what came of
//! it; which credentials are then returned, and which error, is decided here.
//! A file that still holds the template, letter for letter, counts as no file:
//! until it is edited, every call fails as the one that wrote it.

use crate::platform::{platform_named, same_text, Platform};
use vstd::prelude::*;
use vstd::string::*;

verus! {

/// The `[twitter]` section.
#[derive(Clone, Debug)]
pub struct TwitterConfig {
    pub consumer_key: String,
    pub consumer_secret: String,
    pub access_token: String,
    pub access_token_secret: String,
}

/// The `[mastodon]` section.
#[derive(Clone, Debug)]
pub struct MastodonConfig {
    pub access_token: String,
    pub instance_url: String,
}

/// The `[bluesky]` section.
#[derive(Clone, Debug)]
pub struct BlueskyConfig {
    pub identifier: String,
    pub password: String,
    pub instance_url: String,
}

/// The configuration file: one optional section per platform, each complete.
#[derive(Clone, Debug)]
pub struct Config {
    pub twitter: Option<TwitterConfig>,
    pub mastodon: Option<MastodonConfig>,
    pub bluesky: Option<BlueskyConfig>,
}

/// The complete credentials of one platform.
#[derive(Clone, Debug)]
pub enum PlatformConfig {
    Twitter(TwitterConfig),
    Mastodon(MastodonConfig),
    Bluesky(BlueskyConfig),
}

/// What came of looking for the configuration file.
#[derive(Debug)]
pub enum ConfigSource {
    /// No file stood at `path`.
    Missing { path: String },
    /// The file at the path exists and could not be read; the text says why.
    Failed(String),
    /// The file at `path` holds `text`; `parsed` is what parsing the text gave,
    /// or why it could not be parsed.
    Read { path: String, text: String, parsed: Result<Config, String> },
}

/// Why no credentials could be given.
#[derive(Clone, Debug)]
pub enum ConfigError {
    /// There was no configuration file at `path`, or only the template.
    NotFound { path: String },
    /// The file could not be read or parsed.
    Invalid(String),
    /// The file has no section for the platform.
    MissingSection(Platform),
    /// No platform has this name.
    UnsupportedPlatform(String),
    /// The platform has no credential of this name.
    UnknownKey { platform: Platform, key: String },
}

/// The template that is written where no configuration file exists.
pub open spec fn template_text() -> Seq<char> {
    "[twitter]
consumer_key = \"your_twitter_consumer_key\"
consumer_secret = \"your_twitter_consumer_secret\"
access_token = \"your_twitter_access_token\"
access_token_secret = \"your_twitter_access_token_secret\"

[mastodon]
access_token = \"your_mastodon_access_token\"
instance_url = \"https://mastodon.social\"

[bluesky]
identifier = \"your_handle.bsky.social\"
password = \"your_bluesky_app_password\"
instance_url = \"https://bsky.social\"
"@
}

impl ConfigError {
    /// The text of the error, as shown to the user.
    pub open spec fn message_text(self) -> Seq<char> {
        match self {
            ConfigError::NotFound { path } => {
                "Config file not found. An example config has been created at: "@ + path@
                    + "\nPlease fill in your credentials."@
            },
            ConfigError::Invalid(cause) => cause@,
            ConfigError::MissingSection(platform) => {
                platform.label_text() + " configuration not found in config file"@
            },
            ConfigError::UnsupportedPlatform(name) => "Unsupported platform: "@ + name@,
            ConfigError::UnknownKey { platform, key } => {
                "Unknown "@ + platform.label_text() + " config key: "@ + key@
            },
        }
    }

    /// The text of the error, as shown to the user.
    pub fn message(&self) -> (text: String)
        ensures
            text@ == self.message_text(),
    {
        match self {
            ConfigError::NotFound { path } => {
                let mut text = String::from_str(
                    "Config file not found. An example config has been created at: ",
                );
                text.append(path.as_str());
                text.append("\nPlease fill in your credentials.");
                text
            },
            ConfigError::Invalid(cause) => cause.clone(),
            ConfigError::MissingSection(platform) => {
                let mut text = String::from_str(platform.label());
                text.append(" configuration not found in config file");
                text
            },
            ConfigError::UnsupportedPlatform(name) => {
                let mut text = String::from_str("Unsupported platform: ");
                text.append(name.as_str());
                text
            },
            ConfigError::UnknownKey { platform, key } => {
                let mut text = String::from_str("Unknown ");
                text.append(platform.label());
                text.append(" config key: ");
                text.append(key.as_str());
                text
            },
        }
    }
}

/// The error that a source gives whatever the platform, if it gives one: no
/// file, or only the template; a file that could not be read or parsed.
pub open spec fn refusal(source: ConfigSource) -> Option<ConfigError> {
    match source {
        ConfigSource::Missing { path } => Some(ConfigError::NotFound { path }),
        ConfigSource::Failed(cause) => Some(ConfigError::Invalid(cause)),
        ConfigSource::Read { path, text, parsed } => if text@ == template_text() {
            Some(ConfigError::NotFound { path })
        } else {
            match parsed {
                Err(cause) => Some(ConfigError::Invalid(cause)),
                Ok(_) => None,
            }
        },
    }
}

impl Config {
    /// The credentials that the file holds for `platform`, if it has that section.
    pub open spec fn section(self, platform: Platform) -> Option<PlatformConfig> {
        match platform {
            Platform::Twitter => match self.twitter {
                Some(section) => Some(PlatformConfig::Twitter(section)),
                None => None,
            },
            Platform::Mastodon => match self.mastodon {
                Some(section) => Some(PlatformConfig::Mastodon(section)),
                None => None,
            },
            Platform::Bluesky => match self.bluesky {
                Some(section) => Some(PlatformConfig::Bluesky(section)),
                None => None,
            },
        }
    }

    /// The template that is written where no configuration file exists.
    pub fn template() -> (text: &'static str)
        ensures
            text@ == template_text(),
    {
        "[twitter]
consumer_key = \"your_twitter_consumer_key\"
consumer_secret = \"your_twitter_consumer_secret\"
access_token = \"your_twitter_access_token\"
access_token_secret = \"your_twitter_access_token_secret\"

[mastodon]
access_token = \"your_mastodon_access_token\"
instance_url = \"https://mastodon.social\"

[bluesky]
identifier = \"your_handle.bsky.social\"
password = \"your_bluesky_app_password\"
instance_url = \"https://bsky.social\"
"
    }

    /// What selecting the section of the platform named `platform` gives:
    /// the section, or the error that says what is missing.
    pub open spec fn selected(self, platform: Seq<char>, r: Result<PlatformConfig, ConfigError>)
        -> bool {
        match platform_named(platform) {
            Some(p) => match self.section(p) {
                Some(section) => r == Ok::<PlatformConfig, ConfigError>(section),
                None => r == Err::<PlatformConfig, ConfigError>(ConfigError::MissingSection(p)),
            },
            None => r matches Err(ConfigError::UnsupportedPlatform(name)) && name@ == platform,
        }
    }

    /// The section of the platform named `platform`.
    ///
    /// Succeeds exactly when the name is that of a platform and the file has
    /// that platform's section; the section is then returned whole.
    pub fn select(self, platform: &str) -> (r: Result<PlatformConfig, ConfigError>)
        ensures
            self.selected(platform@, r),
    {
        match Platform::from_name(platform) {
            Some(Platform::Twitter) => match self.twitter {
                Some(section) => Ok(PlatformConfig::Twitter(section)),
                None => Err(ConfigError::MissingSection(Platform::Twitter)),
            },
            Some(Platform::Mastodon) => match self.mastodon {
                Some(section) => Ok(PlatformConfig::Mastodon(section)),
                None => Err(ConfigError::MissingSection(Platform::Mastodon)),
            },
            Some(Platform::Bluesky) => match self.bluesky {
                Some(section) => Ok(PlatformConfig::Bluesky(section)),
                None => Err(ConfigError::MissingSection(Platform::Bluesky)),
            },
            None => Err(ConfigError::UnsupportedPlatform(String::from_str(platform))),
        }
    }

    /// The credentials of the platform named `platform`.
    ///
    /// Fails with `NotFound` where there is no file and where the file holds
    /// nothing but the template, whatever the platform. Fails with `Invalid`
    /// where the file could not be read or parsed. Otherwise succeeds exactly
    /// when the name is that of a platform and the file has that platform's
    /// section; the section is then returned whole.
    pub fn load(platform: &str, source: ConfigSource) -> (r: Result<PlatformConfig, ConfigError>)
        ensures
            match refusal(source) {
                Some(error) => r == Err::<PlatformConfig, ConfigError>(error),
                None => source matches ConfigSource::Read { parsed: Ok(config), .. }
                    && config.selected(platform@, r),
            },
    {
        match source {
            ConfigSource::Missing { path } => Err(ConfigError::NotFound { path }),
            ConfigSource::Failed(cause) => Err(ConfigError::Invalid(cause)),
            ConfigSource::Read { path, text, parsed } => {
                if same_text(text.as_str(), Config::template()) {
                    Err(ConfigError::NotFound { path })
                } else {
                    match parsed {
                        Err(cause) => Err(ConfigError::Invalid(cause)),
                        Ok(config) => config.select(platform),
                    }
                }
            },
        }
    }
}

/// A file that holds the template gives the error that a missing file gives,
/// for every platform name and whatever parsing the template gave.
pub proof fn lemma_template_counts_as_missing(
    path: String,
    text: String,
    parsed: Result<Config, String>,
)
    requires
        text@ == template_text(),
    ensures
        refusal(ConfigSource::Read { path, text, parsed }) == refusal(
            ConfigSource::Missing { path },
        ),
        refusal(ConfigSource::Missing { path }) == Some(ConfigError::NotFound { path }),
{
}

impl PlatformConfig {
    /// The platform these credentials belong to.
    pub open spec fn platform(self) -> Platform {
        match self {
            PlatformConfig::Twitter(_) => Platform::Twitter,
            PlatformConfig::Mastodon(_) => Platform::Mastodon,
            PlatformConfig::Bluesky(_) => Platform::Bluesky,
        }
    }

    /// The credential named `key`, if the platform has one of that name.
    pub open spec fn value_of(self, key: Seq<char>) -> Option<String> {
        match self {
            PlatformConfig::Twitter(c) => {
                if key == "consumer_key"@ {
                    Some(c.consumer_key)
                } else if key == "consumer_secret"@ {
                    Some(c.consumer_secret)
                } else if key == "access_token"@ {
                    Some(c.access_token)
                } else if key == "access_token_secret"@ {
                    Some(c.access_token_secret)
                } else {
                    None
                }
            },
            PlatformConfig::Mastodon(c) => {
                if key == "access_token"@ {
                    Some(c.access_token)
                } else if key == "instance_url"@ {
                    Some(c.instance_url)
                } else {
                    None
                }
            },
            PlatformConfig::Bluesky(c) => {
                if key == "identifier"@ {
                    Some(c.identifier)
                } else if key == "password"@ {
                    Some(c.password)
                } else if key == "instance_url"@ {
                    Some(c.instance_url)
                } else {
                    None
                }
            },
        }
    }

    /// The platform these credentials belong to.
    pub fn which(&self) -> (p: Platform)
        ensures
            p == self.platform(),
    {
        match self {
            PlatformConfig::Twitter(_) => Platform::Twitter,
            PlatformConfig::Mastodon(_) => Platform::Mastodon,
            PlatformConfig::Bluesky(_) => Platform::Bluesky,
        }
    }

    /// The credential named `key`, or the error that says that this platform
    /// has none of that name.
    pub fn get(&self, key: &str) -> (r: Result<String, ConfigError>)
        ensures
            match self.value_of(key@) {
                Some(value) => r == Ok::<String, ConfigError>(value),
                None => r matches Err(ConfigError::UnknownKey { platform, key: name })
                    && platform == self.platform() && name@ == key@,
            },
    {
        let found: Option<String> = match self {
            PlatformConfig::Twitter(c) => {
                if same_text(key, "consumer_key") {
                    Some(c.consumer_key.clone())
                } else if same_text(key, "consumer_secret") {
                    Some(c.consumer_secret.clone())
                } else if same_text(key, "access_token") {
                    Some(c.access_token.clone())
                } else if same_text(key, "access_token_secret") {
                    Some(c.access_token_secret.clone())
                } else {
                    None
                }
            },
            PlatformConfig::Mastodon(c) => {
                if same_text(key, "access_token") {
                    Some(c.access_token.clone())
                } else if same_text(key, "instance_url") {
                    Some(c.instance_url.clone())
                } else {
                    None
                }
            },
            PlatformConfig::Bluesky(c) => {
                if same_text(key, "identifier") {
                    Some(c.identifier.clone())
                } else if same_text(key, "password") {
                    Some(c.password.clone())
                } else if same_text(key, "instance_url") {
                    Some(c.instance_url.clone())
                } else {
                    None
                }
            },
        };
        match found {
            Some(value) => Ok(value),
            None => Err(
                ConfigError::UnknownKey { platform: self.which(), key: String::from_str(key) },
            ),
        }
    }
}

} // verus!
