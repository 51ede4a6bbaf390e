//! From a request's `dashboard` parameter to the response that carries the
//! embedding link.

use crate::claims::{UnsignedToken, TOKEN_LIFETIME_SECS};
use crate::clock::unix_seconds;
use crate::config::{Config, ConfigView};
use crate::decimal::{decimal, lemma_parse_decimal, parse_u32, parse_u32_spec};
use crate::error::EmbedError;
use crate::response::{EmbedResponse, ResponseView};
use crate::signing::{is_compact_token, sign_claims, signed_token};
use vstd::prelude::*;
use vstd::string::StringExecFns;

verus! {

/// The auxiliary parameter that every token is issued with.
pub const PARAMS_ID: u32 = 1;

/// The dashboard that a request asks for, given its `dashboard` query
/// parameter (`None` if the request has none).
pub open spec fn requested_dashboard(param: Option<&str>) -> Result<u32, EmbedError> {
    match param {
        None => Err(EmbedError::MissingParameter),
        Some(text) => match parse_u32_spec(text@) {
            Some(dashboard) => Ok(dashboard),
            None => Err(EmbedError::InvalidParameter),
        },
    }
}

/// The link that embeds what `token` gives access to, served by `host`.
pub open spec fn embed_url_spec(host: Seq<char>, token: Seq<char>) -> Seq<char> {
    "https://"@ + host + "/embed/dashboard/"@ + token + "#bordered=true&titled=true"@
}

/// The link for `claims` under the configuration `config`: the token for the
/// claims, signed with the configured key, on the configured host.
pub open spec fn link(claims: UnsignedToken, config: ConfigView) -> Seq<char> {
    embed_url_spec(config.host, signed_token(claims, config.key))
}

/// What comes of signing `claims` under `config`: `SigningError` under an
/// empty key, the link under any other.
pub open spec fn link_result(claims: UnsignedToken, config: ConfigView) -> Result<
    Seq<char>,
    EmbedError,
> {
    if config.key.len() == 0 {
        Err(EmbedError::SigningError)
    } else {
        Ok(link(claims, config))
    }
}

/// What comes of a request with the parameter `dashboard` under `config`
/// when the clock reads `reading` (`None` for a clock set before the epoch).
///
/// The parameter is judged first, then the clock, then the key:
/// `MissingParameter` or `InvalidParameter` for a request that names no
/// dashboard; else `ClockError` if the reading gives no expiry; else
/// `SigningError` under an empty key; else the link for the claims of that
/// dashboard and parameter `PARAMS_ID`, issued at the reading.
pub open spec fn outcome(dashboard: Option<&str>, config: ConfigView, reading: Option<u64>) -> Result<
    Seq<char>,
    EmbedError,
> {
    match requested_dashboard(dashboard) {
        Err(e) => Err(e),
        Ok(d) => match UnsignedToken::for_reading(PARAMS_ID, d, reading) {
            Err(e) => Err(e),
            Ok(claims) => link_result(claims, config),
        },
    }
}

/// A result with its text taken as plain characters.
pub open spec fn as_text(r: Result<String, EmbedError>) -> Result<Seq<char>, EmbedError> {
    match r {
        Ok(url) => Ok(url@),
        Err(e) => Err(e),
    }
}

/// The response for an outcome: 200 with the link as its body, or the error
/// response of the failure.
pub open spec fn response_for(outcome: Result<Seq<char>, EmbedError>) -> ResponseView {
    match outcome {
        Ok(url) => ResponseView::ok(url),
        Err(e) => ResponseView::error(e),
    }
}

/// `url` is an embedding link on `host`: the fixed frame around a text that
/// has the form of a compact token.
pub open spec fn is_embed_link(host: Seq<char>, url: Seq<char>) -> bool {
    exists|token: Seq<char>| is_compact_token(token) && url == #[trigger] embed_url_spec(host, token)
}

/// Reads the dashboard number from the `dashboard` query parameter.
///
/// Fails with `MissingParameter` if there is no such parameter, and with
/// `InvalidParameter` if its text is not an unsigned 32-bit decimal number.
pub fn parse_dashboard(param: Option<&str>) -> (r: Result<u32, EmbedError>)
    ensures
        r == requested_dashboard(param),
{
    match param {
        None => Err(EmbedError::MissingParameter),
        Some(text) => match parse_u32(text) {
            Some(dashboard) => Ok(dashboard),
            None => Err(EmbedError::InvalidParameter),
        },
    }
}

/// Builds the embedding link from the host and a signed token.
pub fn embed_url(host: &str, token: &str) -> (url: String)
    ensures
        url@ == embed_url_spec(host@, token@),
{
    let mut url = String::from_str("https://");
    url.append(host);
    url.append("/embed/dashboard/");
    url.append(token);
    url.append("#bordered=true&titled=true");
    url
}

/// Signs `claims` with the configured key and builds the link.
///
/// Fails with `SigningError` if, and only if, the key is empty.
pub fn link_for(claims: &UnsignedToken, config: &Config) -> (r: Result<String, EmbedError>)
    ensures
        as_text(r) == link_result(*claims, config@),
        r is Ok <==> config@.key.len() > 0,
        r matches Ok(url) ==> is_embed_link(config@.host, url@),
{
    match sign_claims(claims, config.key()) {
        Ok(token) => Ok(embed_url(config.host(), token.as_str())),
        Err(e) => Err(e),
    }
}

/// Issues the link for one request, given what the clock read: `dashboard`
/// is the first value of the request's `dashboard` query parameter, if it has
/// one, and `reading` the seconds since the epoch, `None` for a clock set
/// before it.
///
/// The result is `outcome` of the three: the link if the parameter is a
/// number, the reading leaves room for the expiry and the key is not empty;
/// otherwise the error of the first of these that fails.
pub fn issue_link_at(dashboard: Option<&str>, config: &Config, reading: Option<u64>) -> (r: Result<
    String,
    EmbedError,
>)
    ensures
        as_text(r) == outcome(dashboard, config@, reading),
        r matches Ok(url) ==> is_embed_link(config@.host, url@),
{
    let d = match parse_dashboard(dashboard) {
        Ok(d) => d,
        Err(e) => {
            return Err(e);
        },
    };
    match UnsignedToken::from_reading(PARAMS_ID, d, reading) {
        Ok(claims) => link_for(&claims, config),
        Err(e) => Err(e),
    }
}

/// The response for an outcome: status 200, `text/html` and the link as the
/// body, or the status and fixed text of the failure.
pub fn respond(outcome: Result<String, EmbedError>) -> (r: EmbedResponse)
    ensures
        r@ == response_for(as_text(outcome)),
        r@.status == 200 <==> outcome is Ok,
        outcome matches Err(e) ==> r@.status == (if e.is_client_error() {
            400u16
        } else {
            500u16
        }),
{
    match outcome {
        Ok(url) => EmbedResponse::ok(url),
        Err(e) => EmbedResponse::error(e),
    }
}

/// Handles one request and always answers: it reads the clock once and
/// answers with the response for what `issue_link_at` returns.
///
/// So the answer is the response for `outcome` of the request, the
/// configuration and some reading of the clock. A request without the
/// parameter, or with one that is no number, gets a 400 with a fixed text; a
/// 200 carries an embedding link on the configured host and is never sent
/// under an empty key.
pub fn function_handler(dashboard: Option<&str>, config: &Config) -> (r: EmbedResponse)
    ensures
        exists|reading: Option<u64>|
            r@ == response_for(#[trigger] outcome(dashboard, config@, reading)),
        requested_dashboard(dashboard) matches Err(e) ==> r@ == ResponseView::error(e) && r@.status
            == 400,
        r@.status == 200 ==> config@.key.len() > 0 && is_embed_link(config@.host, r@.body),
{
    let reading = unix_seconds();
    let r = respond(issue_link_at(dashboard, config, reading));
    assert(r@ == response_for(outcome(dashboard, config@, reading)));
    r
}

/// A request whose parameter is the decimal numeral of `d` asks for
/// dashboard `d`, for every 32-bit `d`.
pub proof fn lemma_numeral_requests_dashboard(text: &str, d: u32)
    requires
        text@ == decimal(d as nat),
    ensures
        requested_dashboard(Some(text)) == Ok::<u32, EmbedError>(d),
{
    lemma_parse_decimal(d);
}

/// A request for `dashboard=<d>`, under a key that is not empty, at an
/// instant that leaves room for the expiry, is answered with status 200,
/// `text/html` and the link for the claims that name dashboard `d` and
/// parameter 1 and expire `TOKEN_LIFETIME_SECS` after that instant.
pub proof fn lemma_valid_request_gets_its_link(text: &str, d: u32, config: ConfigView, now: u64)
    requires
        text@ == decimal(d as nat),
        config.key.len() > 0,
        now + TOKEN_LIFETIME_SECS <= u64::MAX,
    ensures
        ({
            let claims = UnsignedToken::at(PARAMS_ID, d, now);
            let answer = response_for(outcome(Some(text), config, Some(now)));
            &&& claims.resource.dashboard == d
            &&& claims.params.id == 1
            &&& claims.exp == now + TOKEN_LIFETIME_SECS
            &&& outcome(Some(text), config, Some(now)) == Ok::<Seq<char>, EmbedError>(
                link(claims, config),
            )
            &&& answer.status == 200
            &&& answer.content_type == "text/html"@
            &&& answer.body == link(claims, config)
        }),
{
    lemma_numeral_requests_dashboard(text, d);
}

/// A request that names no dashboard, or names it with text that is no
/// number, is never answered with a link: whatever the configuration and the
/// clock, the answer is the 400 response with the fixed text of the failure.
pub proof fn lemma_bad_request_gets_no_link(
    dashboard: Option<&str>,
    config: ConfigView,
    reading: Option<u64>,
)
    requires
        requested_dashboard(dashboard) is Err,
    ensures
        ({
            let result = outcome(dashboard, config, reading);
            &&& result is Err
            &&& result->Err_0.is_client_error()
            &&& response_for(result).status == 400
            &&& response_for(result).body == result->Err_0.text()
            &&& dashboard is None ==> result->Err_0 == EmbedError::MissingParameter
            &&& dashboard is Some ==> result->Err_0 == EmbedError::InvalidParameter
        }),
{
}

/// Under an empty key no request is answered with a link, whatever it asks
/// for and whatever the clock reads.
pub proof fn lemma_empty_key_gets_no_link(
    dashboard: Option<&str>,
    config: ConfigView,
    reading: Option<u64>,
)
    requires
        config.key.len() == 0,
    ensures
        outcome(dashboard, config, reading) is Err,
        response_for(outcome(dashboard, config, reading)).status != 200,
{
}

/// Two requests with the same parameter, under the same configuration, at
/// the same reading of the clock get the same result: both the link, and
/// then the same text, or both the same error.
pub proof fn lemma_requests_are_deterministic(
    dashboard: Option<&str>,
    config: ConfigView,
    reading: Option<u64>,
    first: Result<String, EmbedError>,
    second: Result<String, EmbedError>,
)
    requires
        as_text(first) == outcome(dashboard, config, reading),
        as_text(second) == outcome(dashboard, config, reading),
    ensures
        first is Ok <==> second is Ok,
        first is Ok ==> first->Ok_0@ == second->Ok_0@,
        first is Err ==> first->Err_0 == second->Err_0,
        response_for(as_text(first)) == response_for(as_text(second)),
{
}

} // verus!
