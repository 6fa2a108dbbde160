//! The Mastodon client: one request with a bearer token.

use crate::config::{ConfigError, PlatformConfig};
use crate::facets::chars_of;
use crate::platform::Platform;
use crate::social::{
    bearer, bearer_header, outcome_of, Body, BodyView, HttpReply, HttpRequest, Outcome, PostStep,
    PostStepView, RequestView, SocialClient,
};
use vstd::prelude::*;
use vstd::string::*;

verus! {

/// The credentials of a Mastodon account.
#[derive(Debug)]
pub struct MastodonClient {
    pub access_token: String,
    pub instance_url: String,
}

/// `url` without the slashes at its end.
pub open spec fn without_trailing_slashes(url: Seq<char>) -> Seq<char>
    decreases url.len(),
{
    if url.len() > 0 && url.last() == '/' {
        without_trailing_slashes(url.drop_last())
    } else {
        url
    }
}

/// Where statuses are posted on the instance at `instance_url`.
pub open spec fn statuses_endpoint(instance_url: Seq<char>) -> Seq<char> {
    without_trailing_slashes(instance_url) + "/api/v1/statuses"@
}

/// The request that posts `message` as a public status.
pub open spec fn status_request(client: MastodonClient, message: Seq<char>) -> RequestView {
    RequestView {
        url: statuses_endpoint(client.instance_url@),
        authorization: Some(bearer(client.access_token@)),
        body: BodyView::Status { status: message, visibility: "public"@ },
    }
}

/// A slash at the end of the instance URL makes no difference to where
/// statuses are posted.
pub proof fn lemma_trailing_slash_ignored(instance_url: Seq<char>)
    ensures
        statuses_endpoint(instance_url + seq!['/']) == statuses_endpoint(instance_url),
{
    let longer = instance_url + seq!['/'];
    assert(longer.drop_last() =~= instance_url);
    assert(longer.last() == '/');
}

/// `url` without the slashes at its end.
pub fn trim_trailing_slashes(url: &str) -> (trimmed: String)
    ensures
        trimmed@ == without_trailing_slashes(url@),
{
    let chars = chars_of(url);
    let ghost s = url@;
    let mut end: usize = chars.len();
    proof {
        assert(s.subrange(0, end as int) =~= s);
    }
    while end > 0 && chars[end - 1] == '/'
        invariant
            chars@ == s,
            s == url@,
            end <= s.len(),
            without_trailing_slashes(s.subrange(0, end as int)) == without_trailing_slashes(s),
        decreases end,
    {
        proof {
            assert(s.subrange(0, end as int).drop_last() =~= s.subrange(0, end - 1));
        }
        end = end - 1;
    }
    url.substring_char(0, end).to_owned()
}

impl MastodonClient {
    /// Where this client posts statuses.
    pub fn endpoint(&self) -> (url: String)
        ensures
            url@ == statuses_endpoint(self.instance_url@),
    {
        let mut url = trim_trailing_slashes(self.instance_url.as_str());
        url.append("/api/v1/statuses");
        url
    }

    /// The request that posts `message` as a public status.
    pub fn request(&self, message: &str) -> (request: HttpRequest)
        ensures
            request@ == status_request(*self, message@),
    {
        HttpRequest {
            url: self.endpoint(),
            authorization: Some(bearer_header(self.access_token.as_str())),
            body: Body::Status {
                status: String::from_str(message),
                visibility: String::from_str("public"),
            },
        }
    }
}

impl SocialClient for MastodonClient {
    open spec fn serves() -> Platform {
        Platform::Mastodon
    }

    open spec fn begins(&self, message: Seq<char>, request: RequestView) -> bool {
        request == status_request(*self, message)
    }

    open spec fn proceeds(
        &self,
        message: Seq<char>,
        round: usize,
        reply: HttpReply,
        step: PostStepView,
    ) -> bool {
        step == PostStepView::Done(outcome_of(reply))
    }

    fn new(config: PlatformConfig) -> (r: Result<Self, ConfigError>)
        ensures
            match config {
                PlatformConfig::Mastodon(c) => r matches Ok(client) && client.access_token
                    == c.access_token && client.instance_url == c.instance_url,
                _ => r matches Err(ConfigError::UnknownKey { platform, key }) && platform
                    == config.platform() && key@ == "access_token"@,
            },
    {
        match config {
            PlatformConfig::Mastodon(c) => Ok(
                MastodonClient { access_token: c.access_token, instance_url: c.instance_url },
            ),
            other => Err(
                ConfigError::UnknownKey {
                    platform: other.which(),
                    key: String::from_str("access_token"),
                },
            ),
        }
    }

    fn begin(&self, message: &str) -> (request: HttpRequest) {
        self.request(message)
    }

    fn proceed(&self, message: &str, round: usize, reply: HttpReply) -> (step: PostStep) {
        PostStep::Done(Outcome::from_reply(reply))
    }
}

} // verus!
