//! The claims of an embedding token and their JSON text.

use crate::clock::unix_seconds;
use crate::decimal::{
    append_decimal, decimal, is_digit, is_numeral, lemma_decimal_is_numeral, lemma_decimal_value,
};
use crate::error::EmbedError;
use vstd::prelude::*;
use vstd::string::*;

verus! {

/// How long a token stays valid after it is issued, in seconds.
pub const TOKEN_LIFETIME_SECS: u64 = 600;

/// What a token gives access to.
#[derive(Clone, Copy, Debug, PartialEq, Eq, Structural)]
pub struct Resource {
    /// The number of the dashboard to embed.
    pub dashboard: u32,
}

/// The parameters that the embedded dashboard is locked to.
#[derive(Clone, Copy, Debug, PartialEq, Eq, Structural)]
pub struct Params {
    /// An auxiliary identifier.
    pub id: u32,
}

/// The claims of a token before it is signed.
#[derive(Clone, Copy, Debug, PartialEq, Eq, Structural)]
pub struct UnsignedToken {
    /// What the token gives access to.
    pub resource: Resource,
    /// The parameters that the dashboard is locked to.
    pub params: Params,
    /// The instant at which the token expires, in seconds since the Unix epoch.
    pub exp: u64,
}

/// The JSON text of the claims `c`, as it is signed and sent: the members
/// `resource`, `params` and `exp` in that order, no blanks, each number as
/// its shortest decimal numeral.
pub open spec fn claims_json(c: UnsignedToken) -> Seq<char> {
    "{\"resource\":{\"dashboard\":"@ + decimal(c.resource.dashboard as nat)
        + "},\"params\":{\"id\":"@ + decimal(c.params.id as nat) + "},\"exp\":"@ + decimal(
        c.exp as nat,
    ) + "}"@
}

impl UnsignedToken {
    /// The claims for dashboard `dashboard` and parameter `id`, issued at
    /// `now` seconds since the epoch: they expire `TOKEN_LIFETIME_SECS` later.
    pub open spec fn at(id: u32, dashboard: u32, now: u64) -> UnsignedToken
        recommends
            now + TOKEN_LIFETIME_SECS <= u64::MAX,
    {
        UnsignedToken {
            resource: Resource { dashboard },
            params: Params { id },
            exp: (now + TOKEN_LIFETIME_SECS) as u64,
        }
    }

    /// What comes of issuing claims when the clock reads `reading` (`None`
    /// for a clock set before the epoch): the claims issued at that instant,
    /// or `ClockError` if there is no instant or the expiry does not fit in
    /// 64 bits.
    pub open spec fn for_reading(id: u32, dashboard: u32, reading: Option<u64>) -> Result<
        UnsignedToken,
        EmbedError,
    > {
        match reading {
            Some(now) if now + TOKEN_LIFETIME_SECS <= u64::MAX => Ok(
                UnsignedToken::at(id, dashboard, now),
            ),
            _ => Err(EmbedError::ClockError),
        }
    }

    /// Builds the claims for a token issued at `now` seconds since the epoch.
    ///
    /// Fails with `ClockError` if, and only if, the expiry does not fit in
    /// 64 bits.
    pub fn issued_at(id: u32, dashboard: u32, now: u64) -> (r: Result<UnsignedToken, EmbedError>)
        ensures
            r == UnsignedToken::for_reading(id, dashboard, Some(now)),
            r is Ok <==> now + TOKEN_LIFETIME_SECS <= u64::MAX,
    {
        match now.checked_add(TOKEN_LIFETIME_SECS) {
            Some(exp) => Ok(
                UnsignedToken { resource: Resource { dashboard }, params: Params { id }, exp },
            ),
            None => Err(EmbedError::ClockError),
        }
    }

    /// Builds the claims for a token from a reading of the clock, `None`
    /// standing for a clock set before the epoch.
    pub fn from_reading(id: u32, dashboard: u32, reading: Option<u64>) -> (r: Result<
        UnsignedToken,
        EmbedError,
    >)
        ensures
            r == UnsignedToken::for_reading(id, dashboard, reading),
    {
        match reading {
            Some(now) => UnsignedToken::issued_at(id, dashboard, now),
            None => Err(EmbedError::ClockError),
        }
    }

    /// Builds the claims for a token issued now, by the system clock.
    ///
    /// The result is that of `from_reading` for what the clock read: claims
    /// that expire `TOKEN_LIFETIME_SECS` after some instant, or `ClockError`.
    pub fn new(id: u32, dashboard: u32) -> (r: Result<UnsignedToken, EmbedError>)
        ensures
            exists|reading: Option<u64>| r == #[trigger] UnsignedToken::for_reading(
                id,
                dashboard,
                reading,
            ),
            r matches Ok(t) ==> t.resource.dashboard == dashboard && t.params.id == id && t.exp
                >= TOKEN_LIFETIME_SECS,
            r matches Err(e) ==> e == EmbedError::ClockError,
    {
        UnsignedToken::from_reading(id, dashboard, unix_seconds())
    }

    /// The JSON text of these claims.
    pub fn to_json(&self) -> (json: String)
        ensures
            json@ == claims_json(*self),
    {
        let mut json = String::from_str("{\"resource\":{\"dashboard\":");
        append_decimal(&mut json, self.resource.dashboard as u64);
        json.append("},\"params\":{\"id\":");
        append_decimal(&mut json, self.params.id as u64);
        json.append("},\"exp\":");
        append_decimal(&mut json, self.exp);
        json.append("}");
        json
    }
}

/// `s` is not empty and starts with a character that is no digit.
spec fn starts_with_no_digit(s: Seq<char>) -> bool {
    s.len() > 0 && !is_digit(s[0])
}

/// If a numeral followed by something that starts with no digit equals
/// another numeral followed by something that starts with no digit, the
/// numerals are equal and so are the rests.
proof fn lemma_numeral_then_rest(x: Seq<char>, t: Seq<char>, y: Seq<char>, u: Seq<char>)
    requires
        is_numeral(x),
        is_numeral(y),
        starts_with_no_digit(t),
        starts_with_no_digit(u),
        x + t == y + u,
    ensures
        x == y,
        t == u,
{
    // Where the shorter numeral ends, its rest starts with no digit; the
    // longer numeral would have a digit there.
    if x.len() < y.len() {
        assert((y + u)[x.len() as int] == y[x.len() as int]);
        assert((x + t)[x.len() as int] == t[0]);
    }
    if y.len() < x.len() {
        assert((x + t)[y.len() as int] == x[y.len() as int]);
        assert((y + u)[y.len() as int] == u[0]);
    }
    assert(x.len() == y.len());
    assert(x =~= (x + t).subrange(0, x.len() as int));
    assert(y =~= (y + u).subrange(0, y.len() as int));
    assert(t =~= (x + t).subrange(x.len() as int, (x + t).len() as int));
    assert(u =~= (y + u).subrange(y.len() as int, (y + u).len() as int));
}

/// Texts that are equal and start alike end alike.
proof fn lemma_cancel_prefix(p: Seq<char>, s: Seq<char>, t: Seq<char>)
    requires
        p + s == p + t,
    ensures
        s == t,
{
    assert(s =~= (p + s).subrange(p.len() as int, (p + s).len() as int));
    assert(t =~= (p + t).subrange(p.len() as int, (p + t).len() as int));
}

/// Three numerals set in fixed text, each followed by text that starts with
/// no digit, can be read back from the whole: equal wholes have equal
/// numerals.
proof fn lemma_framed_numerals(
    lead: Seq<char>,
    then: Seq<char>,
    next: Seq<char>,
    foot: Seq<char>,
    x: (Seq<char>, Seq<char>, Seq<char>),
    y: (Seq<char>, Seq<char>, Seq<char>),
)
    requires
        starts_with_no_digit(then),
        starts_with_no_digit(next),
        starts_with_no_digit(foot),
        is_numeral(x.0) && is_numeral(x.1) && is_numeral(x.2),
        is_numeral(y.0) && is_numeral(y.1) && is_numeral(y.2),
        lead + x.0 + then + x.1 + next + x.2 + foot == lead + y.0 + then + y.1 + next + y.2 + foot,
    ensures
        x == y,
{
    // Peel both texts from the left: fixed text, then a numeral, in turn.
    let x_after_1 = next + (x.2 + foot);
    let y_after_1 = next + (y.2 + foot);
    let x_after_0 = then + (x.1 + x_after_1);
    let y_after_0 = then + (y.1 + y_after_1);
    assert(lead + x.0 + then + x.1 + next + x.2 + foot =~= lead + (x.0 + x_after_0));
    assert(lead + y.0 + then + y.1 + next + y.2 + foot =~= lead + (y.0 + y_after_0));
    lemma_cancel_prefix(lead, x.0 + x_after_0, y.0 + y_after_0);
    lemma_numeral_then_rest(x.0, x_after_0, y.0, y_after_0);
    lemma_cancel_prefix(then, x.1 + x_after_1, y.1 + y_after_1);
    lemma_numeral_then_rest(x.1, x_after_1, y.1, y_after_1);
    lemma_cancel_prefix(next, x.2 + foot, y.2 + foot);
    lemma_numeral_then_rest(x.2, foot, y.2, foot);
}

/// Each fixed text that follows a number in the claims' JSON starts with a
/// closing brace.
proof fn lemma_numbers_end_at_a_brace()
    ensures
        starts_with_no_digit("},\"params\":{\"id\":"@),
        starts_with_no_digit("},\"exp\":"@),
        starts_with_no_digit("}"@),
{
    reveal_strlit("},\"params\":{\"id\":");
    reveal_strlit("},\"exp\":");
    reveal_strlit("}");
}

/// The payload determines the claims: two sets of claims with the same JSON
/// text are the same claims. So whoever decodes a token's payload reads the
/// dashboard, the parameter and the expiry that the token was issued for, and
/// no others.
pub proof fn lemma_claims_json_injective(a: UnsignedToken, b: UnsignedToken)
    requires
        claims_json(a) == claims_json(b),
    ensures
        a == b,
{
    lemma_numbers_end_at_a_brace();
    lemma_decimal_is_numeral(a.resource.dashboard as nat);
    lemma_decimal_is_numeral(a.params.id as nat);
    lemma_decimal_is_numeral(a.exp as nat);
    lemma_decimal_is_numeral(b.resource.dashboard as nat);
    lemma_decimal_is_numeral(b.params.id as nat);
    lemma_decimal_is_numeral(b.exp as nat);
    lemma_framed_numerals(
        "{\"resource\":{\"dashboard\":"@,
        "},\"params\":{\"id\":"@,
        "},\"exp\":"@,
        "}"@,
        (
            decimal(a.resource.dashboard as nat),
            decimal(a.params.id as nat),
            decimal(a.exp as nat),
        ),
        (
            decimal(b.resource.dashboard as nat),
            decimal(b.params.id as nat),
            decimal(b.exp as nat),
        ),
    );
    lemma_decimal_value(a.resource.dashboard as nat);
    lemma_decimal_value(b.resource.dashboard as nat);
    lemma_decimal_value(a.params.id as nat);
    lemma_decimal_value(b.params.id as nat);
    lemma_decimal_value(a.exp as nat);
    lemma_decimal_value(b.exp as nat);
}

} // verus!
