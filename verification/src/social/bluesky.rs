//! The Bluesky client: a session request, then the request that creates the
//! post, which carries the session's token and the links found in the message.

use crate::config::{ConfigError, PlatformConfig};
use crate::facets::{detect_urls, url_facets};
use crate::platform::Platform;
use crate::social::{
    bearer, bearer_header, outcome_of, Body, BodyView, HttpReply, HttpRequest, Outcome,
    OutcomeView, PostStep, PostStepView, RequestView, SocialClient,
};
use vstd::prelude::*;
use vstd::string::*;

verus! {

/// The credentials of a Bluesky account.
#[derive(Debug)]
pub struct BlueskyClient {
    pub identifier: String,
    pub password: String,
    pub instance_url: String,
}

/// The member named `key` of the JSON object that `document` holds, where the
/// document is valid JSON, is an object, has that member, and the member is a
/// string.
pub uninterp spec fn json_text_member(document: Seq<char>, key: Seq<char>) -> Option<Seq<char>>;

/// The request that opens a session.
pub open spec fn session_request(client: BlueskyClient) -> RequestView {
    RequestView {
        url: client.instance_url@ + "/xrpc/com.atproto.server.createSession"@,
        authorization: None,
        body: BodyView::Session {
            identifier: client.identifier@,
            password: client.password@,
        },
    }
}

/// The request that creates the post, for a session token and a time stamp.
pub open spec fn record_request(
    client: BlueskyClient,
    message: Seq<char>,
    token: Seq<char>,
    created_at: Seq<char>,
) -> RequestView {
    RequestView {
        url: client.instance_url@ + "/xrpc/com.atproto.repo.createRecord"@,
        authorization: Some(bearer(token)),
        body: BodyView::Record {
            repo: client.identifier@,
            collection: "app.bsky.feed.post"@,
            record_type: "app.bsky.feed.post"@,
            text: message,
            created_at,
            facets: url_facets(message),
            feature_type: "app.bsky.richtext.facet#link"@,
        },
    }
}

/// What the session's answer holds under `accessJwt`, if it has a body.
pub open spec fn token_member(reply: HttpReply) -> Option<Seq<char>> {
    match reply {
        HttpReply::Failed(_) => None,
        HttpReply::Answered { body, .. } => json_text_member(body@, "accessJwt"@),
    }
}

/// The session token that an answer gives, or why it gives none: no answer
/// came, the status was not 2xx, or the body has no token.
pub open spec fn session_token_of(reply: HttpReply, member: Option<Seq<char>>) -> Result<
    Seq<char>,
    Seq<char>,
> {
    match reply {
        HttpReply::Failed(cause) => Err(cause@),
        HttpReply::Answered { status, body } => if !(200 <= status < 300) {
            Err(body@)
        } else {
            match member {
                Some(token) => Ok(token),
                None => Err("Failed to get access token"@),
            }
        },
    }
}

/// `step` is what follows the session's answer: with a token the request that
/// creates the post, under whatever time stamp it carries; without one the end
/// of the attempt, as a failure with the cause.
pub open spec fn follows_session(
    client: BlueskyClient,
    message: Seq<char>,
    reply: HttpReply,
    step: PostStepView,
) -> bool {
    match session_token_of(reply, token_member(reply)) {
        Ok(token) => step matches PostStepView::Send(request) && request.body.stamp() matches Some(
            stamp,
        ) && request == record_request(client, message, token, stamp),
        Err(cause) => step == PostStepView::Done(OutcomeView::Failure(cause)),
    }
}

/// An answer that holds no token ends the attempt as a failure, whatever its
/// status: no request follows it.
pub proof fn lemma_no_token_no_post(
    client: BlueskyClient,
    message: Seq<char>,
    reply: HttpReply,
    step: PostStepView,
)
    requires
        token_member(reply) is None,
        follows_session(client, message, reply, step),
    ensures
        step matches PostStepView::Done(OutcomeView::Failure(_)),
{
}

/// The text behind either side of a result.
pub open spec fn result_text(r: Result<String, String>) -> Result<Seq<char>, Seq<char>> {
    match r {
        Ok(text) => Ok(text@),
        Err(text) => Err(text@),
    }
}

/// Parses `document` with `serde_json::from_str` as a `serde_json::Value`, looks
/// `key` up with `Value::get` and reads the member with `Value::as_str`. The
/// result is a function of the two texts alone; it is `None` where the document
/// does not parse or holds no such string.
#[verifier::external_body]
fn text_member(document: &str, key: &str) -> (member: Option<String>)
    ensures
        match member {
            Some(text) => json_text_member(document@, key@) == Some(text@),
            None => json_text_member(document@, key@) is None,
        },
{
    let parsed = serde_json::from_str::<serde_json::Value>(document).ok()?;
    let member = parsed.get(key)?;
    let text = member.as_str()?;
    Some(text.to_string())
}

/// Calls `chrono::Utc::now` and formats the time with `DateTime::to_rfc3339`.
/// The result changes from call to call, so nothing is claimed of it.
#[verifier::external_body]
fn utc_now_rfc3339() -> (stamp: String) {
    chrono::Utc::now().to_rfc3339()
}

impl BlueskyClient {
    /// The request that opens a session.
    pub fn open_session(&self) -> (request: HttpRequest)
        ensures
            request@ == session_request(*self),
    {
        let mut url = self.instance_url.clone();
        url.append("/xrpc/com.atproto.server.createSession");
        HttpRequest {
            url,
            authorization: None,
            body: Body::Session {
                identifier: self.identifier.clone(),
                password: self.password.clone(),
            },
        }
    }

    /// Reads the session's answer, given what its body holds under `accessJwt`.
    pub fn read_session(reply: HttpReply, member: Option<String>) -> (r: Result<String, String>)
        ensures
            result_text(r) == session_token_of(
                reply,
                match member {
                    Some(token) => Some(token@),
                    None => None,
                },
            ),
    {
        match reply {
            HttpReply::Failed(cause) => Err(cause),
            HttpReply::Answered { status, body } => if !(200 <= status && status < 300) {
                Err(body)
            } else {
                match member {
                    Some(token) => Ok(token),
                    None => Err(String::from_str("Failed to get access token")),
                }
            },
        }
    }

    /// The session token that the answer gives, or why it gives none.
    pub fn session_token(reply: HttpReply) -> (r: Result<String, String>)
        ensures
            result_text(r) == session_token_of(reply, token_member(reply)),
    {
        let member = match &reply {
            HttpReply::Failed(_) => None,
            HttpReply::Answered { body, .. } => text_member(body.as_str(), "accessJwt"),
        };
        BlueskyClient::read_session(reply, member)
    }

    /// The request that creates the post, for a session token and a time stamp.
    pub fn create_record(&self, message: &str, token: &str, created_at: String) -> (request:
        HttpRequest)
        ensures
            request@ == record_request(*self, message@, token@, created_at@),
    {
        let mut url = self.instance_url.clone();
        url.append("/xrpc/com.atproto.repo.createRecord");
        HttpRequest {
            url,
            authorization: Some(bearer_header(token)),
            body: Body::Record {
                repo: self.identifier.clone(),
                collection: String::from_str("app.bsky.feed.post"),
                record_type: String::from_str("app.bsky.feed.post"),
                text: String::from_str(message),
                created_at,
                facets: detect_urls(message),
                feature_type: String::from_str("app.bsky.richtext.facet#link"),
            },
        }
    }

    /// What follows the session's answer, once the token was read from it: with
    /// a token the request that creates the post, without one the end of the
    /// attempt, as a failure.
    pub fn after_session(
        &self,
        message: &str,
        token: Result<String, String>,
        created_at: String,
    ) -> (step: PostStep)
        ensures
            step@ == match token {
                Ok(t) => PostStepView::Send(record_request(*self, message@, t@, created_at@)),
                Err(cause) => PostStepView::Done(OutcomeView::Failure(cause@)),
            },
    {
        match token {
            Ok(t) => PostStep::Send(self.create_record(message, t.as_str(), created_at)),
            Err(cause) => PostStep::Done(Outcome::Failure(cause)),
        }
    }
}

impl SocialClient for BlueskyClient {
    open spec fn serves() -> Platform {
        Platform::Bluesky
    }

    open spec fn begins(&self, message: Seq<char>, request: RequestView) -> bool {
        request == session_request(*self)
    }

    open spec fn proceeds(
        &self,
        message: Seq<char>,
        round: usize,
        reply: HttpReply,
        step: PostStepView,
    ) -> bool {
        if round == 0 {
            follows_session(*self, message, reply, step)
        } else {
            step == PostStepView::Done(outcome_of(reply))
        }
    }

    fn new(config: PlatformConfig) -> (r: Result<Self, ConfigError>)
        ensures
            match config {
                PlatformConfig::Bluesky(c) => r matches Ok(client) && client.identifier
                    == c.identifier && client.password == c.password && client.instance_url
                    == c.instance_url,
                _ => r matches Err(ConfigError::UnknownKey { platform, key }) && platform
                    == config.platform() && key@ == "identifier"@,
            },
    {
        match config {
            PlatformConfig::Bluesky(c) => Ok(
                BlueskyClient {
                    identifier: c.identifier,
                    password: c.password,
                    instance_url: c.instance_url,
                },
            ),
            other => Err(
                ConfigError::UnknownKey {
                    platform: other.which(),
                    key: String::from_str("identifier"),
                },
            ),
        }
    }

    fn begin(&self, message: &str) -> (request: HttpRequest) {
        self.open_session()
    }

    /// After the session's answer comes the request that creates the post, stamped
    /// with the time of this call, or the end of the attempt where the answer
    /// gave no token. After any later answer the attempt is over.
    fn proceed(&self, message: &str, round: usize, reply: HttpReply) -> (step: PostStep) {
        if round == 0 {
            let token = BlueskyClient::session_token(reply);
            self.after_session(message, token, utc_now_rfc3339())
        } else {
            PostStep::Done(Outcome::from_reply(reply))
        }
    }
}

} // verus!
