//! Posting to one platform or to all of them: which platform is attempted
//! next, what is kept of each attempt, and what is reported at the end.
//!
//! In all-platforms mode the platforms are attempted in a fixed order, each
//! whatever became of the others, and the failures are reported together. In
//! single-platform mode the one failure is reported as it is.

use crate::config::{ConfigError, PlatformConfig};
use crate::platform::{platform_named, Platform};
use crate::social::bluesky::{record_request, BlueskyClient};
use crate::social::mastodon::{status_request, MastodonClient};
use crate::social::twitter::{tweet_request, TwitterClient};
use crate::social::{
    HttpReply, HttpRequest, Outcome, PostStep, PostStepView, RequestView, SocialClient,
};
use vstd::prelude::*;
use vstd::string::*;

verus! {

/// Where a message is to go.
#[derive(Clone, Copy, Debug, PartialEq, Eq, Structural)]
pub enum Target {
    One(Platform),
    All,
}

/// Why an attempt on one platform did not post the message.
#[derive(Debug)]
pub enum Failure {
    /// No client could be made: the credentials are missing or incomplete.
    Configuration(ConfigError),
    /// The client was made and the post failed; the text says why.
    Post(String),
}

/// Why a dispatch failed.
#[derive(Debug)]
pub enum DispatchError {
    /// The platform selector names no platform; it is kept as it was given.
    Unsupported(String),
    /// Single-platform mode: the client could not be made.
    Configuration(ConfigError),
    /// Single-platform mode: the post failed.
    Post(String),
    /// All-platforms mode: one line for each platform that failed.
    Collected(String),
}

/// A client of any of the platforms.
#[derive(Debug)]
pub enum Client {
    Twitter(TwitterClient),
    Mastodon(MastodonClient),
    Bluesky(BlueskyClient),
}

/// The platforms that a target stands for, in the order of their attempts.
pub open spec fn planned(target: Target) -> Seq<Platform> {
    match target {
        Target::One(platform) => seq![platform],
        Target::All => seq![Platform::Twitter, Platform::Mastodon, Platform::Bluesky],
    }
}

/// The characters of `text` in lower case, as `str::to_lowercase` gives them.
pub uninterp spec fn lowercased(text: Seq<char>) -> Seq<char>;

/// Calls `str::to_lowercase`. The result is a function of the text alone.
#[verifier::external_body]
fn lowercase(text: &str) -> (lowered: String)
    ensures
        lowered@ == lowercased(text@),
{
    text.to_lowercase()
}

/// The target that the command line asks for, given the selector in lower case.
pub open spec fn target_for(all: bool, lowered: Seq<char>) -> Option<Target> {
    if all {
        Some(Target::All)
    } else {
        match platform_named(lowered) {
            Some(platform) => Some(Target::One(platform)),
            None => None,
        }
    }
}

impl Target {
    /// The target for the `all` flag and a platform selector, of which
    /// `lowered` is the lower-case form. With the flag the selector is not
    /// looked at; without it, a selector that names no platform is an error
    /// that holds the selector as it was given.
    pub fn select(all: bool, selector: &str, lowered: &str) -> (r: Result<Target, DispatchError>)
        ensures
            match target_for(all, lowered@) {
                Some(target) => r == Ok::<Target, DispatchError>(target),
                None => r matches Err(DispatchError::Unsupported(name)) && name@ == selector@,
            },
    {
        if all {
            Ok(Target::All)
        } else {
            match Platform::from_name(lowered) {
                Some(platform) => Ok(Target::One(platform)),
                None => Err(DispatchError::Unsupported(String::from_str(selector))),
            }
        }
    }

    /// The target for the `all` flag and a platform selector in any case.
    pub fn parse(all: bool, selector: &str) -> (r: Result<Target, DispatchError>)
        ensures
            match target_for(all, lowercased(selector@)) {
                Some(target) => r == Ok::<Target, DispatchError>(target),
                None => r matches Err(DispatchError::Unsupported(name)) && name@ == selector@,
            },
    {
        let lowered = lowercase(selector);
        Target::select(all, selector, lowered.as_str())
    }
}

impl Failure {
    /// The cause of the failure, as text.
    pub open spec fn text(self) -> Seq<char> {
        match self {
            Failure::Configuration(error) => error.message_text(),
            Failure::Post(cause) => cause@,
        }
    }

    /// The cause of the failure, as text.
    pub fn message(&self) -> (text: String)
        ensures
            text@ == self.text(),
    {
        match self {
            Failure::Configuration(error) => error.message(),
            Failure::Post(cause) => cause.clone(),
        }
    }

    /// What the end of a post attempt means for the dispatch: nothing to
    /// report on success, the cause on failure.
    pub fn of_outcome(outcome: Outcome) -> (r: Result<(), Failure>)
        ensures
            match outcome {
                Outcome::Success(_) => r is Ok,
                Outcome::Failure(cause) => r == Err::<(), Failure>(Failure::Post(cause)),
            },
    {
        match outcome {
            Outcome::Success(_) => Ok(()),
            Outcome::Failure(cause) => Err(Failure::Post(cause)),
        }
    }
}

/// The line that reports the failure of one platform in all-platforms mode.
pub open spec fn entry_text(entry: (Platform, Failure)) -> Seq<char> {
    entry.0.label_text() + " error: "@ + entry.1.text()
}

/// The lines of all failures, in order, with a line feed between neighbours.
pub open spec fn collected_text(failures: Seq<(Platform, Failure)>) -> Seq<char>
    decreases failures.len(),
{
    if failures.len() == 0 {
        Seq::empty()
    } else if failures.len() == 1 {
        entry_text(failures[0])
    } else {
        collected_text(failures.drop_last()) + "\n"@ + entry_text(failures.last())
    }
}

impl DispatchError {
    /// The text of the error, as shown to the user.
    pub open spec fn message_text(self) -> Seq<char> {
        match self {
            DispatchError::Unsupported(name) => "Unsupported platform: "@ + name@
                + ". Supported platforms are: twitter, mastodon, bluesky"@,
            DispatchError::Configuration(error) => error.message_text(),
            DispatchError::Post(cause) => cause@,
            DispatchError::Collected(lines) => lines@,
        }
    }

    /// The text of the error, as shown to the user.
    pub fn message(&self) -> (text: String)
        ensures
            text@ == self.message_text(),
    {
        match self {
            DispatchError::Unsupported(name) => {
                let mut text = String::from_str("Unsupported platform: ");
                text.append(name.as_str());
                text.append(". Supported platforms are: twitter, mastodon, bluesky");
                text
            },
            DispatchError::Configuration(error) => error.message(),
            DispatchError::Post(cause) => cause.clone(),
            DispatchError::Collected(lines) => lines.clone(),
        }
    }
}

/// The client that credentials make.
pub open spec fn client_of(config: PlatformConfig) -> Client {
    match config {
        PlatformConfig::Twitter(c) => Client::Twitter(
            TwitterClient {
                consumer_key: c.consumer_key,
                consumer_secret: c.consumer_secret,
                access_token: c.access_token,
                access_token_secret: c.access_token_secret,
            },
        ),
        PlatformConfig::Mastodon(c) => Client::Mastodon(
            MastodonClient { access_token: c.access_token, instance_url: c.instance_url },
        ),
        PlatformConfig::Bluesky(c) => Client::Bluesky(
            BlueskyClient {
                identifier: c.identifier,
                password: c.password,
                instance_url: c.instance_url,
            },
        ),
    }
}

/// The name of the credential that a client of `platform` asks for first.
pub open spec fn first_credential(platform: Platform) -> Seq<char> {
    match platform {
        Platform::Twitter => "consumer_key"@,
        Platform::Mastodon => "access_token"@,
        Platform::Bluesky => "identifier"@,
    }
}

/// Whatever the platform, the request that posts a message carries that
/// message in its body, character for character.
pub proof fn lemma_requests_carry_message(
    message: Seq<char>,
    header: Seq<char>,
    mastodon: MastodonClient,
    bluesky: BlueskyClient,
    token: Seq<char>,
    created_at: Seq<char>,
)
    ensures
        tweet_request(message, header).body.message() == Some(message),
        status_request(mastodon, message).body.message() == Some(message),
        record_request(bluesky, message, token, created_at).body.message() == Some(message),
{
}

/// `request` is a first request of `client` for `message`.
pub open spec fn begins_with(client: Client, message: Seq<char>, request: RequestView) -> bool {
    match client {
        Client::Twitter(c) => c.begins(message, request),
        Client::Mastodon(c) => c.begins(message, request),
        Client::Bluesky(c) => c.begins(message, request),
    }
}

/// `step` is what `client` asks for after `reply` to request number `round`.
pub open spec fn proceeds_with(
    client: Client,
    message: Seq<char>,
    round: usize,
    reply: HttpReply,
    step: PostStepView,
) -> bool {
    match client {
        Client::Twitter(c) => c.proceeds(message, round, reply, step),
        Client::Mastodon(c) => c.proceeds(message, round, reply, step),
        Client::Bluesky(c) => c.proceeds(message, round, reply, step),
    }
}

impl Client {
    /// The platform that the client posts to.
    pub open spec fn platform(self) -> Platform {
        match self {
            Client::Twitter(_) => Platform::Twitter,
            Client::Mastodon(_) => Platform::Mastodon,
            Client::Bluesky(_) => Platform::Bluesky,
        }
    }

    /// Makes the client of `platform` from what loading its credentials gave.
    ///
    /// Succeeds exactly when the credentials were loaded and are those of
    /// `platform`. A loading error is handed on as it is.
    pub fn connect(platform: Platform, loaded: Result<PlatformConfig, ConfigError>) -> (r: Result<
        Client,
        ConfigError,
    >)
        ensures
            match loaded {
                Err(error) => r == Err::<Client, ConfigError>(error),
                Ok(config) => if config.platform() == platform {
                    r == Ok::<Client, ConfigError>(client_of(config))
                } else {
                    r matches Err(ConfigError::UnknownKey { platform: p, key }) && p
                        == config.platform() && key@ == first_credential(platform)
                },
            },
    {
        let config = match loaded {
            Ok(config) => config,
            Err(error) => {
                return Err(error);
            },
        };
        match platform {
            Platform::Twitter => match TwitterClient::new(config) {
                Ok(client) => Ok(Client::Twitter(client)),
                Err(error) => Err(error),
            },
            Platform::Mastodon => match MastodonClient::new(config) {
                Ok(client) => Ok(Client::Mastodon(client)),
                Err(error) => Err(error),
            },
            Platform::Bluesky => match BlueskyClient::new(config) {
                Ok(client) => Ok(Client::Bluesky(client)),
                Err(error) => Err(error),
            },
        }
    }

    /// The first request of a post attempt.
    pub fn begin(&self, message: &str) -> (request: HttpRequest)
        ensures
            begins_with(*self, message@, request@),
    {
        match self {
            Client::Twitter(client) => client.begin(message),
            Client::Mastodon(client) => client.begin(message),
            Client::Bluesky(client) => client.begin(message),
        }
    }

    /// What follows the answer to request number `round` of the attempt, the
    /// first being number 0.
    pub fn proceed(&self, message: &str, round: usize, reply: HttpReply) -> (step: PostStep)
        ensures
            proceeds_with(*self, message@, round, reply, step@),
    {
        match self {
            Client::Twitter(client) => client.proceed(message, round, reply),
            Client::Mastodon(client) => client.proceed(message, round, reply),
            Client::Bluesky(client) => client.proceed(message, round, reply),
        }
    }
}

/// The first step of an attempt on `platform`: the client's first request, or,
/// where no client can be made, the end of the attempt with nothing sent.
pub fn start_attempt(
    platform: Platform,
    loaded: Result<PlatformConfig, ConfigError>,
    message: &str,
) -> (r: Result<(Client, HttpRequest), Failure>)
    ensures
        match loaded {
            Err(error) => r == Err::<(Client, HttpRequest), Failure>(
                Failure::Configuration(error),
            ),
            Ok(config) => if config.platform() == platform {
                r matches Ok(started) && started.0 == client_of(config) && begins_with(
                    started.0,
                    message@,
                    started.1@,
                )
            } else {
                r matches Err(
                    Failure::Configuration(ConfigError::UnknownKey { platform: p, key }),
                ) && p == config.platform() && key@ == first_credential(platform)
            },
        },
{
    match Client::connect(platform, loaded) {
        Ok(client) => {
            let request = client.begin(message);
            Ok((client, request))
        },
        Err(error) => Err(Failure::Configuration(error)),
    }
}

/// The state of a dispatch: its target, how many platforms were attempted, and
/// the failures so far.
#[derive(Debug)]
pub struct Dispatcher {
    target: Target,
    attempted: usize,
    failures: Vec<(Platform, Failure)>,
}

/// The mathematical value of a [`Dispatcher`].
pub ghost struct DispatchView {
    pub target: Target,
    pub attempted: int,
    pub failures: Seq<(Platform, Failure)>,
}

impl DispatchView {
    /// A dispatch to `target` before any attempt.
    pub open spec fn start(target: Target) -> DispatchView {
        DispatchView { target, attempted: 0, failures: Seq::empty() }
    }

    /// The platform to attempt next, if any is left.
    pub open spec fn next(self) -> Option<Platform> {
        if 0 <= self.attempted < planned(self.target).len() {
            Some(planned(self.target)[self.attempted])
        } else {
            None
        }
    }

    /// The dispatch after the attempt on the next platform ended with `result`.
    /// Where no platform is left, nothing changes.
    pub open spec fn record(self, result: Result<(), Failure>) -> DispatchView {
        match self.next() {
            None => self,
            Some(platform) => DispatchView {
                target: self.target,
                attempted: self.attempted + 1,
                failures: match result {
                    Ok(_) => self.failures,
                    Err(failure) => self.failures.push((platform, failure)),
                },
            },
        }
    }
}

impl View for Dispatcher {
    type V = DispatchView;

    closed spec fn view(&self) -> DispatchView {
        DispatchView {
            target: self.target,
            attempted: self.attempted as int,
            failures: self.failures@,
        }
    }
}

impl Dispatcher {
    /// A dispatch to `target`, with nothing attempted yet.
    pub fn new(target: Target) -> (dispatcher: Dispatcher)
        ensures
            dispatcher@ == DispatchView::start(target),
    {
        Dispatcher { target, attempted: 0, failures: Vec::new() }
    }

    /// The platform to attempt next, or `None` when all were attempted.
    pub fn next(&self) -> (platform: Option<Platform>)
        ensures
            platform == self@.next(),
    {
        match self.target {
            Target::One(platform) => if self.attempted == 0 {
                Some(platform)
            } else {
                None
            },
            Target::All => if self.attempted == 0 {
                Some(Platform::Twitter)
            } else if self.attempted == 1 {
                Some(Platform::Mastodon)
            } else if self.attempted == 2 {
                Some(Platform::Bluesky)
            } else {
                None
            },
        }
    }

    /// Records how the attempt on the next platform ended. A failure is kept
    /// with the platform's name; the dispatch goes on to the platform after it
    /// either way.
    pub fn record(&mut self, result: Result<(), Failure>)
        ensures
            final(self)@ == old(self)@.record(result),
    {
        match self.next() {
            None => {},
            Some(platform) => {
                self.attempted = self.attempted + 1;
                match result {
                    Ok(_) => {},
                    Err(failure) => {
                        self.failures.push((platform, failure));
                    },
                }
            },
        }
    }

    /// The report of the dispatch: success when no attempt failed; in
    /// single-platform mode the failure as it is; in all-platforms mode the
    /// lines of all failures, in the order of the attempts.
    pub fn finish(self) -> (r: Result<(), DispatchError>)
        ensures
            self@.failures.len() == 0 ==> r is Ok,
            self@.failures.len() > 0 ==> match self@.target {
                Target::One(_) => match self@.failures[0].1 {
                    Failure::Configuration(error) => r == Err::<(), DispatchError>(
                        DispatchError::Configuration(error),
                    ),
                    Failure::Post(cause) => r == Err::<(), DispatchError>(
                        DispatchError::Post(cause),
                    ),
                },
                Target::All => r matches Err(DispatchError::Collected(lines)) && lines@
                    == collected_text(self@.failures),
            },
    {
        let mut failures = self.failures;
        if failures.len() == 0 {
            return Ok(());
        }
        match self.target {
            Target::One(_) => {
                let first = failures.remove(0);
                match first.1 {
                    Failure::Configuration(error) => Err(DispatchError::Configuration(error)),
                    Failure::Post(cause) => Err(DispatchError::Post(cause)),
                }
            },
            Target::All => {
                let mut lines = String::new();
                let n: usize = failures.len();
                let mut i: usize = 0;
                while i < n
                    invariant
                        n == failures@.len(),
                        i <= n,
                        lines@ == collected_text(failures@.subrange(0, i as int)),
                    decreases n - i,
                {
                    let ghost before = failures@.subrange(0, i as int);
                    let ghost after = failures@.subrange(0, i + 1);
                    proof {
                        assert(after.drop_last() =~= before);
                        assert(after.last() == failures@[i as int]);
                    }
                    if i > 0 {
                        lines.append("\n");
                    }
                    lines.append(failures[i].0.label());
                    lines.append(" error: ");
                    let cause = failures[i].1.message();
                    lines.append(cause.as_str());
                    proof {
                        assert(lines@ =~= collected_text(after));
                    }
                    i = i + 1;
                }
                proof {
                    assert(failures@.subrange(0, n as int) =~= failures@);
                }
                Err(DispatchError::Collected(lines))
            },
        }
    }
}

/// In all-platforms mode the three platforms are attempted in the order
/// Twitter, Mastodon, Bluesky, whatever became of the attempts before, and the
/// dispatch succeeds exactly when no attempt failed.
pub proof fn lemma_all_platforms_attempted(
    first: Result<(), Failure>,
    second: Result<(), Failure>,
    third: Result<(), Failure>,
)
    ensures
        ({
            let start = DispatchView::start(Target::All);
            let after_first = start.record(first);
            let after_second = after_first.record(second);
            let after_third = after_second.record(third);
            &&& start.next() == Some(Platform::Twitter)
            &&& after_first.next() == Some(Platform::Mastodon)
            &&& after_second.next() == Some(Platform::Bluesky)
            &&& after_third.next() is None
            &&& after_third.failures.len() == 0 <==> first is Ok && second is Ok && third is Ok
            &&& forall|k: int|
                0 <= k < after_third.failures.len() ==> {
                    let entry = #[trigger] after_third.failures[k];
                    ||| entry.0 == Platform::Twitter && first == Err::<(), Failure>(entry.1)
                    ||| entry.0 == Platform::Mastodon && second == Err::<(), Failure>(entry.1)
                    ||| entry.0 == Platform::Bluesky && third == Err::<(), Failure>(entry.1)
                }
        }),
{
}

/// In single-platform mode only that platform is attempted, once.
pub proof fn lemma_one_platform_attempted(platform: Platform, result: Result<(), Failure>)
    ensures
        DispatchView::start(Target::One(platform)).next() == Some(platform),
        DispatchView::start(Target::One(platform)).record(result).next() is None,
{
}

} // verus!
