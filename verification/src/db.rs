//! The configuration of the sink client, the statement that creates the
//! sink table, and the claim of a single key in the shared store.
//!
//! Nothing here talks to a server: the client is configured, and what is
//! asked of the store and what it answered are plain values. Sending is the
//! caller's business.

use crate::store::{CLAIM_TTL_SECS, CLAIM_VALUE};
use clickhouse::Client;
use vstd::prelude::*;

verus! {

/// Environment variable: the sink URL.
pub const ENV_SINK_URL: &'static str = "click_house_url";

/// Environment variable: the sink user.
pub const ENV_SINK_USER: &'static str = "click_house_user";

/// Environment variable: the sink password.
pub const ENV_SINK_PASSWORD: &'static str = "click_house_password";

/// Environment variable: the URL of the shared store.
pub const ENV_STORE_URL: &'static str = "redis_url";

/// The sink URL used when none is configured.
pub const DEFAULT_SINK_URL: &'static str = "http://localhost:8123";

/// The sink database that events are appended to.
pub const SINK_DATABASE: &'static str = "alloy_billing";

/// The statement that creates the sink table if it is missing.
pub const CREATE_TABLE_SQL: &'static str =
    "CREATE TABLE IF NOT EXISTS usage_events (\n    event_id UUID,\n    customer_id String,\n    event_type String,\n    amount UInt64,\n    idempotency_key String,\n    timestamp Int64\n)\nENGINE = MergeTree()\nPRIMARY KEY (customer_id, timestamp)\nORDER BY (customer_id, timestamp);";

/// `clickhouse::Client`, carried as an opaque value.
#[verifier::external_type_specification]
#[verifier::external_body]
pub struct ExClient(Client);

/// The URL a sink client sends its requests to.
pub uninterp spec fn client_url(client: Client) -> Seq<char>;

/// The default database of a sink client, if one is set.
pub uninterp spec fn client_database(client: Client) -> Option<Seq<char>>;

/// The user and the password of a sink client, each if set; `None` for a
/// client that authenticates with an access token instead.
pub uninterp spec fn client_login(client: Client) -> Option<(Option<Seq<char>>, Option<Seq<char>>)>;

/// The settings a sink client passes with every query, by name.
pub uninterp spec fn client_settings(client: Client) -> Map<Seq<char>, Seq<char>>;

/// The user of a sink client, if it has one.
pub open spec fn client_user(client: Client) -> Option<Seq<char>> {
    match client_login(client) {
        Some(login) => login.0,
        None => None,
    }
}

/// The password of a sink client, if it has one.
pub open spec fn client_password(client: Client) -> Option<Seq<char>> {
    match client_login(client) {
        Some(login) => login.1,
        None => None,
    }
}

/// A client as it is before anything is configured: an empty URL, no
/// database, neither user nor password, and no settings.
pub open spec fn is_unconfigured(client: Client) -> bool {
    &&& client_url(client).len() == 0
    &&& client_database(client) is None
    &&& client_login(client) is Some
    &&& client_user(client) is None
    &&& client_password(client) is None
    &&& client_settings(client) =~= Map::<Seq<char>, Seq<char>>::empty()
}

/// `Client::default`: a client with nothing configured.
#[verifier::external_body]
fn default_client() -> (client: Client)
    ensures
        is_unconfigured(client),
{
    Client::default()
}

/// `Client::with_url`: the same client with its URL replaced. Login and
/// settings stay; the database may change, since a URL can name one.
#[verifier::external_body]
fn with_url(client: Client, url: String) -> (out: Client)
    ensures
        client_url(out) == url@,
        client_login(out) == client_login(client),
        client_settings(out) == client_settings(client),
{
    client.with_url(url)
}

/// `Client::with_user`: the same client with its user replaced. The call
/// panics on a client that authenticates with an access token.
#[verifier::external_body]
fn with_user(client: Client, user: String) -> (out: Client)
    requires
        client_login(client) is Some,
    ensures
        client_login(out) == Some((Some(user@), client_password(client))),
        client_url(out) == client_url(client),
        client_database(out) == client_database(client),
        client_settings(out) == client_settings(client),
{
    client.with_user(user)
}

/// `Client::with_password`: the same client with its password replaced. The
/// call panics on a client that authenticates with an access token.
#[verifier::external_body]
fn with_password(client: Client, password: String) -> (out: Client)
    requires
        client_login(client) is Some,
    ensures
        client_login(out) == Some((client_user(client), Some(password@))),
        client_url(out) == client_url(client),
        client_database(out) == client_database(client),
        client_settings(out) == client_settings(client),
{
    client.with_password(password)
}

/// `Client::with_database`: the same client with its default database
/// replaced.
#[verifier::external_body]
fn with_database(client: Client, database: &str) -> (out: Client)
    ensures
        client_database(out) == Some(database@),
        client_url(out) == client_url(client),
        client_login(out) == client_login(client),
        client_settings(out) == client_settings(client),
{
    client.with_database(database)
}

/// `Client::with_setting`: the same client with one setting added, or
/// replaced if it was set before.
#[verifier::external_body]
fn with_setting(client: Client, name: &str, value: &str) -> (out: Client)
    ensures
        client_settings(out) == client_settings(client).insert(name@, value@),
        client_url(out) == client_url(client),
        client_database(out) == client_database(client),
        client_login(out) == client_login(client),
{
    client.with_setting(name, value)
}

/// The URL the sink client is given: the configured one, or
/// [`DEFAULT_SINK_URL`] when none is configured.
pub open spec fn sink_url(configured: Option<String>) -> Seq<char> {
    match configured {
        Some(url) => url@,
        None => DEFAULT_SINK_URL@,
    }
}

/// The settings that make the sink take inserts asynchronously and answer
/// without waiting for them.
pub open spec fn async_insert_settings() -> Map<Seq<char>, Seq<char>> {
    Map::<Seq<char>, Seq<char>>::empty().insert("async_insert"@, "1"@).insert(
        "wait_for_async_insert"@,
        "0"@,
    )
}

/// The sink client for the given connection settings: the configured URL or
/// the default one, the given credentials, the database
/// [`SINK_DATABASE`], and asynchronous inserts.
pub fn create_client(url: Option<String>, user: String, password: String) -> (client: Client)
    ensures
        client_url(client) == sink_url(url),
        client_login(client) == Some((Some(user@), Some(password@))),
        client_database(client) == Some(SINK_DATABASE@),
        client_settings(client) == async_insert_settings(),
{
    let target = match url {
        Some(configured) => configured,
        None => DEFAULT_SINK_URL.to_owned(),
    };
    let client = default_client();
    let client = with_url(client, target);
    let client = with_user(client, user);
    let client = with_password(client, password);
    let client = with_database(client, SINK_DATABASE);
    let client = with_setting(client, "async_insert", "1");
    with_setting(client, "wait_for_async_insert", "0")
}

/// How one key is claimed in the shared store.
#[derive(Clone, Copy, Debug, PartialEq, Eq, Structural)]
pub struct ClaimOptions {
    /// The value written under the key.
    pub value: u64,
    /// Whether the write is refused for a key that the store already holds.
    pub only_if_absent: bool,
    /// Seconds after which the written key expires.
    pub expiry_secs: u64,
}

/// What the shared store answered to a claim of one key.
#[derive(Clone, Copy, Debug, PartialEq, Eq, Structural)]
pub enum ClaimReply {
    /// The store did not hold the key and has written it.
    Written,
    /// The store held the key already and has left it as it was.
    Held,
    /// The request failed; nothing is known of the key.
    Failed,
}

/// What an answer to a claim means. No answer is a failed request; an
/// answer without a value is the store's refusal to overwrite a key it
/// holds; an answer with a value confirms the write.
pub open spec fn reply_of(answer: Option<Option<String>>) -> ClaimReply {
    match answer {
        None => ClaimReply::Failed,
        Some(None) => ClaimReply::Held,
        Some(Some(_)) => ClaimReply::Written,
    }
}

/// The options of the single-key duplicate check: write [`CLAIM_VALUE`]
/// under the key only if the store does not hold it, and let it expire
/// after [`CLAIM_TTL_SECS`].
pub fn duplicate_check_options() -> (options: ClaimOptions)
    ensures
        options == (ClaimOptions {
            value: CLAIM_VALUE,
            only_if_absent: true,
            expiry_secs: CLAIM_TTL_SECS,
        }),
{
    ClaimOptions { value: CLAIM_VALUE, only_if_absent: true, expiry_secs: CLAIM_TTL_SECS }
}

/// Reads the store's answer to a claim of one key: `None` for a request
/// that failed, otherwise the store's reply, which has a value exactly when
/// the key was written.
pub fn read_claim_reply(answer: &Option<Option<String>>) -> (reply: ClaimReply)
    ensures
        reply == reply_of(*answer),
{
    match answer {
        None => ClaimReply::Failed,
        Some(None) => ClaimReply::Held,
        Some(Some(_)) => ClaimReply::Written,
    }
}

/// Whether a claimed key is a duplicate: only when the store held it
/// already. A key that was written is new, and after a failed request the
/// key counts as unseen, so that an outage of the store drops no event.
pub fn is_duplicate(reply: ClaimReply) -> (duplicate: bool)
    ensures
        duplicate == (reply == ClaimReply::Held),
{
    match reply {
        ClaimReply::Held => true,
        ClaimReply::Written => false,
        ClaimReply::Failed => false,
    }
}

} // verus!
