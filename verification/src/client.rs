//! The settings of a Discord HTTP client, the checks made before it is built, and the requests
//! that it sends.

use crate::decimal::decimal;
use crate::decimal::trim;
use crate::decimal::trim_str;
use crate::snowflake::Snowflake;
use std::time::Duration;
use vstd::prelude::*;
use vstd::string::StringExecFns;

verus! {

/// `reqwest::Client`, an HTTP client with its connection pool.
#[verifier::external_type_specification]
#[verifier::external_body]
pub struct ExClient(reqwest::Client);

/// `reqwest::ClientBuilder`, the settings of a `reqwest::Client` that is yet to be built.
#[verifier::external_type_specification]
#[verifier::external_body]
pub struct ExClientBuilder(reqwest::ClientBuilder);

/// `reqwest::Error`, what reqwest reports when a client or a request fails.
#[verifier::external_type_specification]
#[verifier::external_body]
pub struct ExReqwestError(reqwest::Error);

/// `Duration::clone`: `Duration` is `Copy`, so its clone is the same duration.
pub assume_specification[ <Duration as Clone>::clone ](d: &Duration) -> (r: Duration)
    ensures
        r == *d,
;

/// `reqwest::Client::clone`: the clone shares the connection pool and its settings.
pub assume_specification[ <reqwest::Client as Clone>::clone ](c: &reqwest::Client) -> (r:
    reqwest::Client)
    ensures
        client_user_agent(r) == client_user_agent(*c),
        client_timeout(r) == client_timeout(*c),
;

/// How long a request may take by default, in seconds.
pub const DEFAULT_TIMEOUT_SECS: u64 = 30;

/// The address that requests go to by default.
pub const DEFAULT_BASE_URL: &'static str = "https://discord.com/api/v9";

/// The user agent that requests carry by default.
pub const USER_AGENT: &'static str = "Nitronanite/1.0";

/// The duration that `Duration::from_secs` makes of `secs` seconds.
pub uninterp spec fn duration_from_secs(secs: u64) -> Duration;

/// `std::time::Duration::from_secs`, which never fails; the contract names its result.
#[verifier::external_body]
fn duration_of_secs(secs: u64) -> (d: Duration)
    ensures
        d == duration_from_secs(secs),
{
    Duration::from_secs(secs)
}

/// The user agent that the clients built from `builder` send with every request: the
/// `User-Agent` entry of its default headers, `None` where it has none.
pub uninterp spec fn builder_user_agent(builder: reqwest::ClientBuilder) -> Option<Seq<char>>;

/// Whether `builder` has recorded an error, which makes its `build` fail.
pub uninterp spec fn builder_failed(builder: reqwest::ClientBuilder) -> bool;

/// Whether `c` may stand in an HTTP header value as `http::HeaderValue` takes one: a tab, or no
/// control character (every byte at least 0x20 and not 0x7f).
pub open spec fn is_header_value_char(c: char) -> bool {
    c == '\t' || (c as u32 >= 0x20 && c as u32 != 0x7f)
}

/// Whether the text `s` is a valid HTTP header value.
pub open spec fn is_header_value(s: Seq<char>) -> bool {
    forall|i: int| 0 <= i < s.len() ==> is_header_value_char(#[trigger] s[i])
}

/// The total timeout of every request of the clients built from `builder`, `None` where there
/// is none.
pub uninterp spec fn builder_timeout(builder: reqwest::ClientBuilder) -> Option<Duration>;

/// The user agent that `client` sends with every request: the `User-Agent` entry of its default
/// headers, `None` where it has none.
pub uninterp spec fn client_user_agent(client: reqwest::Client) -> Option<Seq<char>>;

/// The total timeout of every request of `client`, `None` where there is none.
pub uninterp spec fn client_timeout(client: reqwest::Client) -> Option<Duration>;

/// `reqwest::Client::builder`, which is `ClientBuilder::new`: its default headers hold only
/// `Accept: */*`, its timeout is `None`, and it has recorded no error.
#[verifier::external_body]
fn reqwest_client_builder() -> (r: reqwest::ClientBuilder)
    ensures
        builder_user_agent(r) is None,
        builder_timeout(r) is None,
        !builder_failed(r),
{
    reqwest::Client::builder()
}

/// `reqwest::ClientBuilder::user_agent`: it converts the text with `HeaderValue::try_from`.
/// Where the text is a valid header value, it puts it into the `User-Agent` entry of the default
/// headers; where it is not, it leaves the headers as they were and records an error that makes
/// `build` fail. The timeout is left as it was.
#[verifier::external_body]
fn reqwest_with_user_agent(builder: reqwest::ClientBuilder, user_agent: String) -> (r:
    reqwest::ClientBuilder)
    ensures
        is_header_value(user_agent@) ==> builder_user_agent(r) == Some(user_agent@)
            && builder_failed(r) == builder_failed(builder),
        !is_header_value(user_agent@) ==> builder_user_agent(r) == builder_user_agent(builder)
            && builder_failed(r),
        builder_timeout(r) == builder_timeout(builder),
{
    builder.user_agent(user_agent)
}

/// `reqwest::ClientBuilder::timeout`: it sets the total timeout and leaves the headers and any
/// recorded error as they were.
#[verifier::external_body]
fn reqwest_with_timeout(builder: reqwest::ClientBuilder, timeout: Duration) -> (r:
    reqwest::ClientBuilder)
    ensures
        builder_timeout(r) == Some(timeout),
        builder_user_agent(r) == builder_user_agent(builder),
        builder_failed(r) == builder_failed(builder),
{
    builder.timeout(timeout)
}

/// `reqwest::ClientBuilder::build`. It fails with the error that the builder recorded, where
/// there is one; otherwise whether it succeeds depends on the system (its TLS back end and
/// resolver among others), so nothing is claimed of that. A client that it builds takes its
/// default headers and its total timeout from the builder.
#[verifier::external_body]
fn reqwest_build(builder: reqwest::ClientBuilder) -> (r: Result<reqwest::Client, reqwest::Error>)
    ensures
        builder_failed(builder) ==> r is Err,
        r matches Ok(client) ==> client_user_agent(client) == builder_user_agent(builder)
            && client_timeout(client) == builder_timeout(builder),
{
    builder.build()
}

/// Whether `s` holds nothing but white space.
pub open spec fn is_blank(s: Seq<char>) -> bool {
    trim(s).len() == 0
}

/// The text of an optional string.
pub open spec fn opt_view(o: Option<String>) -> Option<Seq<char>> {
    match o {
        Some(s) => Some(s@),
        None => None,
    }
}

/// What a [`HttpBuilder`] holds.
pub ghost struct HttpBuilderView {
    pub token: Option<Seq<char>>,
    pub user_agent: Option<Seq<char>>,
    pub timeout: Duration,
    pub base_url: Seq<char>,
}

/// The settings that a new builder starts from.
pub open spec fn default_builder() -> HttpBuilderView {
    HttpBuilderView {
        token: None,
        user_agent: None,
        timeout: duration_from_secs(DEFAULT_TIMEOUT_SECS),
        base_url: DEFAULT_BASE_URL@,
    }
}

/// Whether [`HttpBuilder::build`] accepts the settings `b`: a token that is not blank, and a user
/// agent that is not blank where one is given.
pub open spec fn build_accepts(b: HttpBuilderView) -> bool {
    &&& b.token matches Some(t) && !is_blank(t)
    &&& b.user_agent matches Some(u) ==> !is_blank(u)
}

/// The settings of a [`Http`] client, before it is built.
#[derive(Debug, Clone)]
pub struct HttpBuilder {
    token: Option<String>,
    user_agent: Option<String>,
    timeout: Duration,
    base_url: String,
}

impl View for HttpBuilder {
    type V = HttpBuilderView;

    closed spec fn view(&self) -> HttpBuilderView {
        HttpBuilderView {
            token: opt_view(self.token),
            user_agent: opt_view(self.user_agent),
            timeout: self.timeout,
            base_url: self.base_url@,
        }
    }
}

/// Why a [`Http`] client could not be built.
#[derive(Debug)]
pub enum ClientBuildError {
    MissingToken,
    EmptyToken,
    MissingUserAgent,
    EmptyUserAgent,
    RequestClient(reqwest::Error),
}

impl Default for HttpBuilder {
    fn default() -> (r: Self)
        ensures
            r@ == default_builder(),
    {
        HttpBuilder {
            token: None,
            user_agent: None,
            timeout: duration_of_secs(DEFAULT_TIMEOUT_SECS),
            base_url: String::from_str(DEFAULT_BASE_URL),
        }
    }
}

impl HttpBuilder {
    /// A builder with no token, no user agent, a timeout of thirty seconds and Discord's API
    /// address.
    pub fn new() -> (r: Self)
        ensures
            r@ == default_builder(),
    {
        Self::default()
    }

    /// Sets the token that requests are authorised with.
    pub fn token(self, token: &str) -> (r: Self)
        ensures
            r@ == (HttpBuilderView { token: Some(token@), ..self@ }),
    {
        let mut builder = self;
        builder.token = Some(String::from_str(token));
        builder
    }

    /// Sets the user agent that requests carry.
    pub fn user_agent(self, user_agent: &str) -> (r: Self)
        ensures
            r@ == (HttpBuilderView { user_agent: Some(user_agent@), ..self@ }),
    {
        let mut builder = self;
        builder.user_agent = Some(String::from_str(user_agent));
        builder
    }

    /// Sets how long a request may take.
    pub fn timeout(self, timeout: Duration) -> (r: Self)
        ensures
            r@ == (HttpBuilderView { timeout, ..self@ }),
    {
        let mut builder = self;
        builder.timeout = timeout;
        builder
    }

    /// Sets the address that requests go to.
    pub fn base_url(self, base_url: &str) -> (r: Self)
        ensures
            r@ == (HttpBuilderView { base_url: base_url@, ..self@ }),
    {
        let mut builder = self;
        builder.base_url = String::from_str(base_url);
        builder
    }

    /// Checks the settings that [`HttpBuilder::build`] hands to reqwest: a token that is not
    /// blank, and a user agent that is not blank where one is set ([`USER_AGENT`] where none is).
    pub fn settings(self) -> (r: Result<ClientSettings, ClientBuildError>)
        ensures
            self@.token is None ==> r matches Err(ClientBuildError::MissingToken),
            self@.token matches Some(t) && is_blank(t) ==> r matches Err(
                ClientBuildError::EmptyToken,
            ),
            (self@.token matches Some(t) && !is_blank(t)) && (self@.user_agent matches Some(u)
                && is_blank(u)) ==> r matches Err(ClientBuildError::EmptyUserAgent),
            build_accepts(self@) ==> (r matches Ok(settings) && settings@ == (ClientSettingsView {
                token: self@.token->0,
                user_agent: user_agent_or_default(self@),
                timeout: self@.timeout,
                base_url: self@.base_url,
            })),
            (self@.token matches Some(t) && !is_blank(t)) && (self@.user_agent is None || !is_blank(
                self@.user_agent->0,
            )) ==> r is Ok,
            r matches Ok(settings) ==> settings@.token == self@.token->0 && settings@.timeout
                == self@.timeout && settings@.base_url == self@.base_url,
            r matches Ok(settings) ==> (self@.user_agent matches Some(u) ==> settings@.user_agent
                == u),
            r matches Ok(settings) ==> (self@.user_agent is None ==> settings@.user_agent
                == USER_AGENT@),
    {
        let HttpBuilder { token, user_agent, timeout, base_url } = self;
        let token = match token {
            Some(token) => {
                if trim_str(token.as_str()).is_empty() {
                    return Err(ClientBuildError::EmptyToken);
                }
                token
            },
            None => {
                return Err(ClientBuildError::MissingToken);
            },
        };
        let user_agent = match user_agent {
            Some(user_agent) => {
                if trim_str(user_agent.as_str()).is_empty() {
                    return Err(ClientBuildError::EmptyUserAgent);
                }
                user_agent
            },
            None => String::from_str(USER_AGENT),
        };
        Ok(ClientSettings { token, user_agent, timeout, base_url })
    }

    /// Checks the settings and builds the client, with the user agent and the timeout that
    /// [`HttpBuilder::settings`] gives.
    pub fn build(self) -> (r: Result<Http, ClientBuildError>)
        ensures
            self@.token is None ==> r matches Err(ClientBuildError::MissingToken),
            self@.token matches Some(t) && is_blank(t) ==> r matches Err(
                ClientBuildError::EmptyToken,
            ),
            (self@.token matches Some(t) && !is_blank(t)) && (self@.user_agent matches Some(u)
                && is_blank(u)) ==> r matches Err(ClientBuildError::EmptyUserAgent),
            build_accepts(self@) ==> match r {
                Ok(http) => http@.token == self@.token->0 && http@.base_url == self@.base_url
                    && is_header_value(user_agent_or_default(self@)) && client_user_agent(
                    http@.client,
                ) == Some(user_agent_or_default(self@)) && client_timeout(http@.client) == Some(
                    self@.timeout,
                ),
                Err(error) => error is RequestClient,
            },
            build_accepts(self@) && !is_header_value(user_agent_or_default(self@)) ==> r matches Err(
                ClientBuildError::RequestClient(_),
            ),
    {
        match self.settings() {
            Ok(settings) => {
                let builder = reqwest_builder_for(&settings);
                Http::from_client(reqwest_build(builder), settings)
            },
            Err(error) => Err(error),
        }
    }
}

/// What a [`ClientSettings`] holds.
pub ghost struct ClientSettingsView {
    pub token: Seq<char>,
    pub user_agent: Seq<char>,
    pub timeout: Duration,
    pub base_url: Seq<char>,
}

/// The checked settings of a client: the token, the user agent and the timeout that reqwest is
/// given, and the address that requests go to. Only [`HttpBuilder::settings`] makes them.
pub struct ClientSettings {
    token: String,
    user_agent: String,
    timeout: Duration,
    base_url: String,
}

impl View for ClientSettings {
    type V = ClientSettingsView;

    closed spec fn view(&self) -> ClientSettingsView {
        ClientSettingsView {
            token: self.token@,
            user_agent: self.user_agent@,
            timeout: self.timeout,
            base_url: self.base_url@,
        }
    }
}

/// The reqwest builder that checked `settings` configure: their user agent, where it is a valid
/// header value (otherwise a recorded error that makes the build fail), and their timeout.
pub fn reqwest_builder_for(settings: &ClientSettings) -> (b: reqwest::ClientBuilder)
    ensures
        is_header_value(settings@.user_agent) ==> builder_user_agent(b) == Some(
            settings@.user_agent,
        ) && !builder_failed(b),
        !is_header_value(settings@.user_agent) ==> builder_failed(b),
        builder_timeout(b) == Some(settings@.timeout),
{
    let builder = reqwest_client_builder();
    let builder = reqwest_with_user_agent(builder, settings.user_agent.clone());
    reqwest_with_timeout(builder, settings.timeout)
}

impl ClientSettings {
    /// The token, not blank.
    pub fn token(&self) -> (r: &str)
        ensures
            r@ == self@.token,
    {
        self.token.as_str()
    }

    /// The user agent, not blank.
    pub fn user_agent(&self) -> (r: &str)
        ensures
            r@ == self@.user_agent,
    {
        self.user_agent.as_str()
    }

    /// The total timeout of a request.
    pub fn timeout(&self) -> (r: Duration)
        ensures
            r == self@.timeout,
    {
        self.timeout
    }

    /// The address that requests go to.
    pub fn base_url(&self) -> (r: &str)
        ensures
            r@ == self@.base_url,
    {
        self.base_url.as_str()
    }
}

/// The user agent that requests carry: the one set, or [`USER_AGENT`].
pub open spec fn user_agent_or_default(b: HttpBuilderView) -> Seq<char> {
    match b.user_agent {
        Some(u) => u,
        None => USER_AGENT@,
    }
}

/// What a [`Http`] client holds.
pub ghost struct HttpView {
    pub client: reqwest::Client,
    pub token: Seq<char>,
    pub base_url: Seq<char>,
}

/// A Discord HTTP client.
#[derive(Debug, Clone)]
pub struct Http {
    client: reqwest::Client,
    token: String,
    base_url: String,
}

impl View for Http {
    type V = HttpView;

    closed spec fn view(&self) -> HttpView {
        HttpView { client: self.client, token: self.token@, base_url: self.base_url@ }
    }
}

/// The address of the messages of the channel `channel_id`, below `base_url`.
pub open spec fn channel_messages_url(base_url: Seq<char>, channel_id: u64) -> Seq<char> {
    base_url + "/channels/"@ + decimal(channel_id as nat) + "/messages"@
}

/// A request for the messages of a channel: where it goes, the `Authorization` header that it
/// carries, and the `limit` query parameter that it carries where there is one.
pub struct ChannelMessagesRequest {
    pub url: String,
    pub authorization: String,
    pub limit: Option<u8>,
}

/// Whether an HTTP status code is a success, as `http::StatusCode::is_success` says: from 200
/// to 299.
pub fn is_success_status(status: u16) -> (r: bool)
    ensures
        r == (200 <= status && status < 300),
{
    200 <= status && status < 300
}

/// What to do with the reply to a request for messages.
#[derive(PartialEq, Eq, Structural, Debug, Clone, Copy)]
pub enum MessagesReply {
    /// Read the body and report it with the status as an error.
    StatusError,
    /// Decode the body as the list of messages.
    DecodeMessages,
}

/// What to do with a reply of HTTP status `status`: decode the messages of a success, report
/// the body of anything else.
pub fn messages_reply(status: u16) -> (r: MessagesReply)
    ensures
        r == (if 200 <= status && status < 300 {
            MessagesReply::DecodeMessages
        } else {
            MessagesReply::StatusError
        }),
{
    if is_success_status(status) {
        MessagesReply::DecodeMessages
    } else {
        MessagesReply::StatusError
    }
}

impl Http {
    /// A builder with the default settings.
    pub fn builder() -> (r: HttpBuilder)
        ensures
            r@ == default_builder(),
    {
        HttpBuilder::new()
    }

    /// The client made of what building the connection pool for checked `settings` gave: the
    /// pool with the token and the address of `settings`, or reqwest's error.
    pub fn from_client(client: Result<reqwest::Client, reqwest::Error>, settings: ClientSettings)
        -> (r: Result<Http, ClientBuildError>)
        ensures
            match client {
                Ok(pool) => r matches Ok(http) && http@ == (HttpView {
                    client: pool,
                    token: settings@.token,
                    base_url: settings@.base_url,
                }),
                Err(error) => r == Err::<Http, ClientBuildError>(
                    ClientBuildError::RequestClient(error),
                ),
            },
    {
        match client {
            Ok(client) => Ok(Http { client, token: settings.token, base_url: settings.base_url }),
            Err(error) => Err(ClientBuildError::RequestClient(error)),
        }
    }

    /// The connection pool that requests go through.
    pub fn client(&self) -> (r: &reqwest::Client)
        ensures
            *r == self@.client,
    {
        &self.client
    }

    /// The token that requests are authorised with.
    pub fn token(&self) -> (r: &str)
        ensures
            r@ == self@.token,
    {
        self.token.as_str()
    }

    /// The address that requests go to.
    pub fn base_url(&self) -> (r: &str)
        ensures
            r@ == self@.base_url,
    {
        self.base_url.as_str()
    }

    /// The request that fetches the messages of the channel `channel_id`, at most `limit` of
    /// them where a limit is given.
    pub fn channel_messages_request(&self, channel_id: Snowflake, limit: Option<u8>) -> (r:
        ChannelMessagesRequest)
        ensures
            r.url@ == channel_messages_url(self@.base_url, channel_id.raw),
            r.url@ == self@.base_url + "/channels/"@ + decimal(channel_id.raw as nat)
                + "/messages"@,
            r.authorization@ == self@.token,
            r.limit == limit,
    {
        let mut url = self.base_url.clone();
        url.append("/channels/");
        let id = channel_id.to_id_string();
        url.append(id.as_str());
        url.append("/messages");
        ChannelMessagesRequest { url, authorization: self.token.clone(), limit }
    }
}

/// The client is built from every token that is not blank, and every user agent that is unset
/// or not blank, with no other condition on either.
pub proof fn lemma_build_accepts_exactly(b: HttpBuilderView)
    ensures
        build_accepts(b) <==> (b.token is Some && !is_blank(b.token->0) && (b.user_agent is None
            || !is_blank(b.user_agent->0))),
{
}

/// A user agent that is set is the one that requests carry; [`USER_AGENT`] only stands in for
/// one that is not set.
pub proof fn lemma_user_agent_kept(b: HttpBuilderView)
    ensures
        b.user_agent matches Some(u) ==> user_agent_or_default(b) == u,
        b.user_agent is None ==> user_agent_or_default(b) == USER_AGENT@,
{
}

/// The address of a channel's messages starts with the base address, then `/channels/`, then
/// the channel's identifier in base ten without leading zeros, and ends with `/messages`.
pub proof fn lemma_messages_url_shape(base_url: Seq<char>, channel_id: u64)
    ensures
        channel_messages_url(base_url, channel_id) == base_url + "/channels/"@ + decimal(
            channel_id as nat,
        ) + "/messages"@,
        channel_messages_url(base_url, channel_id).subrange(0, base_url.len() as int)
            == base_url,
        channel_messages_url(base_url, channel_id).subrange(
            channel_messages_url(base_url, channel_id).len() - "/messages"@.len(),
            channel_messages_url(base_url, channel_id).len() as int,
        ) == "/messages"@,
{
    let url = channel_messages_url(base_url, channel_id);
    let head = base_url + "/channels/"@ + decimal(channel_id as nat);
    assert(url == head + "/messages"@);
    assert(url.subrange(0, base_url.len() as int) =~= base_url);
    assert(url.subrange(url.len() - "/messages"@.len(), url.len() as int) =~= "/messages"@);
}

} // verus!
