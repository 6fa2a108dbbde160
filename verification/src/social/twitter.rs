//! The Twitter client: one request, signed with OAuth 1.0a.

use crate::config::{ConfigError, PlatformConfig};
use crate::platform::Platform;
use crate::social::{
    outcome_of, Body, BodyView, HttpReply, HttpRequest, Outcome, PostStep, PostStepView,
    RequestView, SocialClient,
};
use vstd::prelude::*;
use vstd::string::*;
use vstd::utf8::encode_utf8;

verus! {

/// The credentials of a Twitter application and of the account it posts for.
#[derive(Debug)]
pub struct TwitterClient {
    pub consumer_key: String,
    pub consumer_secret: String,
    pub access_token: String,
    pub access_token_secret: String,
}

/// Where tweets are created.
pub open spec fn tweets_endpoint() -> Seq<char> {
    "https://api.twitter.com/2/tweets"@
}

/// The request that posts `message` under the given authorization header.
pub open spec fn tweet_request(message: Seq<char>, authorization: Seq<char>) -> RequestView {
    RequestView {
        url: tweets_endpoint(),
        authorization: Some(authorization),
        body: BodyView::Tweet { text: message },
    }
}

/// The bytes that percent-encoding leaves as they are: ASCII letters and
/// digits, `-`, `.`, `_` and `~`.
pub open spec fn is_unreserved(byte: u8) -> bool {
    ||| 0x30 <= byte <= 0x39
    ||| 0x41 <= byte <= 0x5A
    ||| 0x61 <= byte <= 0x7A
    ||| byte == 0x2D
    ||| byte == 0x2E
    ||| byte == 0x5F
    ||| byte == 0x7E
}

/// The sixteen hexadecimal digits, in upper case.
pub open spec fn hex_digits() -> Seq<char> {
    seq!['0', '1', '2', '3', '4', '5', '6', '7', '8', '9', 'A', 'B', 'C', 'D', 'E', 'F']
}

/// One byte, percent-encoded: itself where it is unreserved, else `%` and its
/// two hexadecimal digits.
pub open spec fn percent_encoded_byte(byte: u8) -> Seq<char> {
    if is_unreserved(byte) {
        seq![byte as char]
    } else {
        seq!['%', hex_digits()[byte as int / 16], hex_digits()[byte as int % 16]]
    }
}

/// The bytes, each percent-encoded, in order.
pub open spec fn percent_encoded_bytes(bytes: Seq<u8>) -> Seq<char>
    decreases bytes.len(),
{
    if bytes.len() == 0 {
        Seq::empty()
    } else {
        percent_encoded_bytes(bytes.drop_last()) + percent_encoded_byte(bytes.last())
    }
}

/// The UTF-8 bytes of `text`, percent-encoded.
pub open spec fn percent_encoded(text: Seq<char>) -> Seq<char> {
    percent_encoded_bytes(encode_utf8(text))
}

/// The signature of a request, as text in base 64: the HMAC-SHA1 that `oauth1`
/// computes over the method, the URL and the OAuth parameters (consumer key,
/// nonce, signature method, time stamp, token, version), keyed by the two
/// secrets.
pub uninterp spec fn oauth_signature(
    method: Seq<char>,
    url: Seq<char>,
    consumer_key: Seq<char>,
    consumer_secret: Seq<char>,
    token: Seq<char>,
    token_secret: Seq<char>,
    nonce: Seq<char>,
    timestamp: Seq<char>,
) -> Seq<char>;

/// One parameter of an authorization header: the name, then the
/// percent-encoded value between double quotes.
pub open spec fn oauth_pair(name: Seq<char>, value: Seq<char>) -> Seq<char> {
    name + "=\""@ + percent_encoded(value) + "\""@
}

/// The authorization header made of the seven OAuth parameters, in the order
/// of their names.
pub open spec fn oauth_text(
    consumer_key: Seq<char>,
    nonce: Seq<char>,
    signature: Seq<char>,
    timestamp: Seq<char>,
    token: Seq<char>,
) -> Seq<char> {
    "OAuth "@ + oauth_pair("oauth_consumer_key"@, consumer_key) + ", "@ + oauth_pair(
        "oauth_nonce"@,
        nonce,
    ) + ", "@ + oauth_pair("oauth_signature"@, signature) + ", "@ + oauth_pair(
        "oauth_signature_method"@,
        "HMAC-SHA1"@,
    ) + ", "@ + oauth_pair("oauth_timestamp"@, timestamp) + ", "@ + oauth_pair(
        "oauth_token"@,
        token,
    ) + ", "@ + oauth_pair("oauth_version"@, "1.0"@)
}

/// `header` authorizes a request with the given method and URL for the given
/// credentials: it names the consumer key and the token, and carries the
/// signature computed with the two secrets for some nonce and time stamp. The
/// secrets themselves are no parameter of the header.
pub open spec fn is_oauth_header(
    header: Seq<char>,
    method: Seq<char>,
    url: Seq<char>,
    consumer_key: Seq<char>,
    consumer_secret: Seq<char>,
    token: Seq<char>,
    token_secret: Seq<char>,
) -> bool {
    exists|nonce: Seq<char>, timestamp: Seq<char>|
        header == oauth_text(
            consumer_key,
            nonce,
            #[trigger] oauth_signature(
                method,
                url,
                consumer_key,
                consumer_secret,
                token,
                token_secret,
                nonce,
                timestamp,
            ),
            timestamp,
            token,
        )
}

/// `request` posts `message` under a header that authorizes a POST to the
/// tweets endpoint for the credentials of `client`.
pub open spec fn signed_tweet(client: TwitterClient, message: Seq<char>, request: RequestView)
    -> bool {
    request.authorization matches Some(header) && is_oauth_header(
        header,
        "POST"@,
        tweets_endpoint(),
        client.consumer_key@,
        client.consumer_secret@,
        client.access_token@,
        client.access_token_secret@,
    ) && request == tweet_request(message, header)
}

/// Calls `oauth1::authorize` with a consumer token, an access token and no
/// further parameters. The header it returns holds a fresh nonce and the
/// current time, so it differs from call to call. What is claimed of every
/// outcome is its form: `OAuth `, then the seven parameters sorted by name,
/// each value percent-encoded, among them the consumer key and the token as
/// given and the signature that `oauth1` computes from the arguments, the
/// nonce and the time stamp.
#[verifier::external_body]
fn oauth_header(
    method: &str,
    url: &str,
    consumer_key: &str,
    consumer_secret: &str,
    token: &str,
    token_secret: &str,
) -> (header: String)
    ensures
        exists|nonce: Seq<char>, timestamp: Seq<char>|
            header@ == oauth_text(
                consumer_key@,
                nonce,
                #[trigger] oauth_signature(
                    method@,
                    url@,
                    consumer_key@,
                    consumer_secret@,
                    token@,
                    token_secret@,
                    nonce,
                    timestamp,
                ),
                timestamp,
                token@,
            ),
{
    let consumer = oauth1::Token::new(consumer_key, consumer_secret);
    let access = oauth1::Token::new(token, token_secret);
    oauth1::authorize(method, url, &consumer, Some(&access), None)
}

impl TwitterClient {
    /// The request that posts `message` under an authorization header that was
    /// computed for it.
    pub fn signed_request(message: &str, authorization: String) -> (request: HttpRequest)
        ensures
            request@ == tweet_request(message@, authorization@),
    {
        HttpRequest {
            url: String::from_str("https://api.twitter.com/2/tweets"),
            authorization: Some(authorization),
            body: Body::Tweet { text: String::from_str(message) },
        }
    }

    /// The request that posts `message`, signed with this client's credentials
    /// for a POST to the tweets endpoint: the header names the consumer key and
    /// the access token and carries the signature made with the two secrets.
    /// Each call signs anew, with a nonce and a time stamp of its own.
    pub fn request(&self, message: &str) -> (request: HttpRequest)
        ensures
            signed_tweet(*self, message@, request@),
    {
        let header = oauth_header(
            "POST",
            "https://api.twitter.com/2/tweets",
            self.consumer_key.as_str(),
            self.consumer_secret.as_str(),
            self.access_token.as_str(),
            self.access_token_secret.as_str(),
        );
        TwitterClient::signed_request(message, header)
    }
}

impl SocialClient for TwitterClient {
    open spec fn serves() -> Platform {
        Platform::Twitter
    }

    open spec fn begins(&self, message: Seq<char>, request: RequestView) -> bool {
        signed_tweet(*self, message, request)
    }

    open spec fn proceeds(
        &self,
        message: Seq<char>,
        round: usize,
        reply: HttpReply,
        step: PostStepView,
    ) -> bool {
        step == PostStepView::Done(outcome_of(reply))
    }

    fn new(config: PlatformConfig) -> (r: Result<Self, ConfigError>)
        ensures
            match config {
                PlatformConfig::Twitter(c) => r matches Ok(client) && client.consumer_key
                    == c.consumer_key && client.consumer_secret == c.consumer_secret
                    && client.access_token == c.access_token && client.access_token_secret
                    == c.access_token_secret,
                _ => r matches Err(ConfigError::UnknownKey { platform, key }) && platform
                    == config.platform() && key@ == "consumer_key"@,
            },
    {
        match config {
            PlatformConfig::Twitter(c) => Ok(
                TwitterClient {
                    consumer_key: c.consumer_key,
                    consumer_secret: c.consumer_secret,
                    access_token: c.access_token,
                    access_token_secret: c.access_token_secret,
                },
            ),
            other => Err(
                ConfigError::UnknownKey {
                    platform: other.which(),
                    key: String::from_str("consumer_key"),
                },
            ),
        }
    }

    fn begin(&self, message: &str) -> (request: HttpRequest) {
        self.request(message)
    }

    fn proceed(&self, message: &str, round: usize, reply: HttpReply) -> (step: PostStep) {
        PostStep::Done(Outcome::from_reply(reply))
    }
}

} // verus!
