//! What the three platform clients share: the request a client asks to have
//! sent, the answer it is handed back, and the outcome of a post attempt.
//!
//! A client sends nothing itself. It says which request comes next, the caller
//! sends it and hands back what the platform answered.

pub mod bluesky;
pub mod mastodon;
pub mod twitter;

use crate::config::{ConfigError, PlatformConfig};
use crate::facets::{facet_views, FacetView, UrlFacet};
use crate::platform::Platform;
use vstd::prelude::*;
use vstd::string::*;

verus! {

/// The JSON body of a request, by the fields it carries.
#[derive(Debug)]
pub enum Body {
    /// `{"text": ..}`
    Tweet { text: String },
    /// `{"status": .., "visibility": ..}`
    Status { status: String, visibility: String },
    /// `{"identifier": .., "password": ..}`
    Session { identifier: String, password: String },
    /// `{"repo": .., "collection": .., "record": {"$type": .., "text": ..,
    /// "createdAt": .., "facets": [..]}}`, each facet with one feature of type
    /// `feature_type`.
    Record {
        repo: String,
        collection: String,
        record_type: String,
        text: String,
        created_at: String,
        facets: Vec<UrlFacet>,
        feature_type: String,
    },
}

/// The mathematical value of a [`Body`].
pub ghost enum BodyView {
    Tweet { text: Seq<char> },
    Status { status: Seq<char>, visibility: Seq<char> },
    Session { identifier: Seq<char>, password: Seq<char> },
    Record {
        repo: Seq<char>,
        collection: Seq<char>,
        record_type: Seq<char>,
        text: Seq<char>,
        created_at: Seq<char>,
        facets: Seq<FacetView>,
        feature_type: Seq<char>,
    },
}

impl View for Body {
    type V = BodyView;

    open spec fn view(&self) -> BodyView {
        match *self {
            Body::Tweet { text } => BodyView::Tweet { text: text@ },
            Body::Status { status, visibility } => BodyView::Status {
                status: status@,
                visibility: visibility@,
            },
            Body::Session { identifier, password } => BodyView::Session {
                identifier: identifier@,
                password: password@,
            },
            Body::Record {
                repo,
                collection,
                record_type,
                text,
                created_at,
                facets,
                feature_type,
            } => BodyView::Record {
                repo: repo@,
                collection: collection@,
                record_type: record_type@,
                text: text@,
                created_at: created_at@,
                facets: facet_views(facets@),
                feature_type: feature_type@,
            },
        }
    }
}

impl BodyView {
    /// The message that the body carries, if it carries one.
    pub open spec fn message(self) -> Option<Seq<char>> {
        match self {
            BodyView::Tweet { text } => Some(text),
            BodyView::Status { status, .. } => Some(status),
            BodyView::Session { .. } => None,
            BodyView::Record { text, .. } => Some(text),
        }
    }

    /// The time stamp that the body carries, if it carries one.
    pub open spec fn stamp(self) -> Option<Seq<char>> {
        match self {
            BodyView::Record { created_at, .. } => Some(created_at),
            _ => None,
        }
    }
}

/// One HTTP POST with a JSON body.
#[derive(Debug)]
pub struct HttpRequest {
    /// Where the request goes.
    pub url: String,
    /// The value of the `Authorization` header, if the request has one.
    pub authorization: Option<String>,
    pub body: Body,
}

/// The mathematical value of an [`HttpRequest`].
pub ghost struct RequestView {
    pub url: Seq<char>,
    pub authorization: Option<Seq<char>>,
    pub body: BodyView,
}

impl View for HttpRequest {
    type V = RequestView;

    open spec fn view(&self) -> RequestView {
        RequestView {
            url: self.url@,
            authorization: match self.authorization {
                Some(value) => Some(value@),
                None => None,
            },
            body: self.body@,
        }
    }
}

/// What came of sending a request.
#[derive(Debug)]
pub enum HttpReply {
    /// No answer came; the text says why.
    Failed(String),
    /// The platform answered with this status code and body.
    Answered { status: u16, body: String },
}

/// The result of one post attempt.
#[derive(Debug)]
pub enum Outcome {
    /// The platform took the post; the text is its answer.
    Success(String),
    /// The post was not made; the text says why.
    Failure(String),
}

/// The mathematical value of an [`Outcome`].
pub ghost enum OutcomeView {
    Success(Seq<char>),
    Failure(Seq<char>),
}

impl View for Outcome {
    type V = OutcomeView;

    open spec fn view(&self) -> OutcomeView {
        match *self {
            Outcome::Success(text) => OutcomeView::Success(text@),
            Outcome::Failure(cause) => OutcomeView::Failure(cause@),
        }
    }
}

/// What a client asks for next.
#[derive(Debug)]
pub enum PostStep {
    /// Send this request and come back with the answer.
    Send(HttpRequest),
    /// The attempt is over.
    Done(Outcome),
}

/// The mathematical value of a [`PostStep`].
pub ghost enum PostStepView {
    Send(RequestView),
    Done(OutcomeView),
}

impl View for PostStep {
    type V = PostStepView;

    open spec fn view(&self) -> PostStepView {
        match *self {
            PostStep::Send(request) => PostStepView::Send(request@),
            PostStep::Done(outcome) => PostStepView::Done(outcome@),
        }
    }
}

/// Whether a status code is one of the 2xx codes.
pub open spec fn is_success_status(status: u16) -> bool {
    200 <= status < 300
}

/// The outcome that the answer to a posting request stands for: success with
/// the body on a 2xx status, failure with the body on any other, failure with
/// the cause where no answer came.
pub open spec fn outcome_of(reply: HttpReply) -> OutcomeView {
    match reply {
        HttpReply::Failed(cause) => OutcomeView::Failure(cause@),
        HttpReply::Answered { status, body } => if is_success_status(status) {
            OutcomeView::Success(body@)
        } else {
            OutcomeView::Failure(body@)
        },
    }
}

/// The value of a bearer `Authorization` header.
pub open spec fn bearer(token: Seq<char>) -> Seq<char> {
    "Bearer "@ + token
}

impl Outcome {
    /// Reads the answer to a posting request.
    pub fn from_reply(reply: HttpReply) -> (outcome: Outcome)
        ensures
            outcome@ == outcome_of(reply),
    {
        match reply {
            HttpReply::Failed(cause) => Outcome::Failure(cause),
            HttpReply::Answered { status, body } => if 200 <= status && status < 300 {
                Outcome::Success(body)
            } else {
                Outcome::Failure(body)
            },
        }
    }
}

/// The text `Bearer `, then the token.
pub fn bearer_header(token: &str) -> (header: String)
    ensures
        header@ == bearer(token@),
{
    let mut header = String::from_str("Bearer ");
    header.append(token);
    header
}

/// A client of one platform: it holds that platform's credentials and says
/// which requests make up a post.
pub trait SocialClient: Sized {
    /// The platform that this kind of client posts to.
    spec fn serves() -> Platform;

    /// `request` is a first request of this client for `message`.
    spec fn begins(&self, message: Seq<char>, request: RequestView) -> bool;

    /// `step` is what this client asks for after `reply` to request number
    /// `round` of an attempt to post `message`.
    spec fn proceeds(
        &self,
        message: Seq<char>,
        round: usize,
        reply: HttpReply,
        step: PostStepView,
    ) -> bool;

    /// Makes a client from credentials; they must be those of its platform.
    fn new(config: PlatformConfig) -> (r: Result<Self, ConfigError>)
        ensures
            r is Ok <==> config.platform() == Self::serves(),
    ;

    /// The first request of a post attempt.
    fn begin(&self, message: &str) -> (request: HttpRequest)
        ensures
            self.begins(message@, request@),
    ;

    /// What follows the answer to request number `round` of the attempt, the
    /// first being number 0.
    fn proceed(&self, message: &str, round: usize, reply: HttpReply) -> (step: PostStep)
        ensures
            self.proceeds(message@, round, reply, step@),
    ;
}

} // verus!
