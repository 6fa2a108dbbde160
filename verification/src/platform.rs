//! The platforms a message can go to.

use vstd::prelude::*;
use vstd::string::*;

verus! {

/// One of the supported platforms.
#[derive(Clone, Copy, Debug, PartialEq, Eq, Structural)]
pub enum Platform {
    Twitter,
    Mastodon,
    Bluesky,
}

/// The platform that a configuration section name stands for.
pub open spec fn platform_named(name: Seq<char>) -> Option<Platform> {
    if name == "twitter"@ {
        Some(Platform::Twitter)
    } else if name == "mastodon"@ {
        Some(Platform::Mastodon)
    } else if name == "bluesky"@ {
        Some(Platform::Bluesky)
    } else {
        None
    }
}

/// Whether two texts hold the same characters.
pub fn same_text(a: &str, b: &str) -> (r: bool)
    ensures
        r == (a@ == b@),
{
    let left = String::from_str(a);
    let right = String::from_str(b);
    left == right
}

impl Platform {
    /// The name of the platform's section in the configuration file.
    pub open spec fn name_text(self) -> Seq<char> {
        match self {
            Platform::Twitter => "twitter"@,
            Platform::Mastodon => "mastodon"@,
            Platform::Bluesky => "bluesky"@,
        }
    }

    /// The name of the platform as it is written in messages to the user.
    pub open spec fn label_text(self) -> Seq<char> {
        match self {
            Platform::Twitter => "Twitter"@,
            Platform::Mastodon => "Mastodon"@,
            Platform::Bluesky => "Bluesky"@,
        }
    }

    /// The platform with the given section name, in lower case.
    pub fn from_name(name: &str) -> (r: Option<Platform>)
        ensures
            r == platform_named(name@),
    {
        if same_text(name, "twitter") {
            Some(Platform::Twitter)
        } else if same_text(name, "mastodon") {
            Some(Platform::Mastodon)
        } else if same_text(name, "bluesky") {
            Some(Platform::Bluesky)
        } else {
            None
        }
    }

    /// The name of the platform's section in the configuration file.
    pub fn name(self) -> (r: &'static str)
        ensures
            r@ == self.name_text(),
    {
        match self {
            Platform::Twitter => "twitter",
            Platform::Mastodon => "mastodon",
            Platform::Bluesky => "bluesky",
        }
    }

    /// The name of the platform as it is written in messages to the user.
    pub fn label(self) -> (r: &'static str)
        ensures
            r@ == self.label_text(),
    {
        match self {
            Platform::Twitter => "Twitter",
            Platform::Mastodon => "Mastodon",
            Platform::Bluesky => "Bluesky",
        }
    }
}

/// A section name names the platform it belongs to, and no other.
pub proof fn lemma_name_round_trip(platform: Platform)
    ensures
        platform_named(platform.name_text()) == Some(platform),
{
    reveal_strlit("twitter");
    reveal_strlit("mastodon");
    reveal_strlit("bluesky");
    assert("twitter"@.len() == 7 && "mastodon"@.len() == 8 && "bluesky"@[0] == 'b');
    assert("twitter"@[0] == 't');
}

} // verus!
