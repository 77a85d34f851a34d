//! Access tokens: reading the `Authorization` header, the claims of a new
//! token, and the decisions of the request validator.

use vstd::prelude::*;
use crate::error::{CustomError, BAD_REQUEST};
use crate::model::{Claim, RealWorldToken};
use crate::text::same_text;

verus! {

/// Why an `Authorization` header could not be read.
#[derive(Clone, Copy, Debug, PartialEq, Eq)]
pub enum AuthHeaderError {
    /// There is no `Authorization` header.
    Missing,
    /// The header has no scheme before its first space.
    MissingScheme,
    /// The header has no token after its scheme.
    InvalidValue,
}

/// The text answered (with 400 Bad Request) for each header error.
pub open spec fn spec_header_error_message(e: AuthHeaderError) -> Seq<char> {
    match e {
        AuthHeaderError::Missing => "Authentication required!"@,
        AuthHeaderError::MissingScheme => "Missing authorization scheme"@,
        AuthHeaderError::InvalidValue => "Invalid header value"@,
    }
}

impl AuthHeaderError {
    /// The status code answered for a header error: 400 Bad Request.
    pub fn status_code(&self) -> (r: u16)
        ensures
            r == BAD_REQUEST,
    {
        BAD_REQUEST
    }

    /// The text answered (with 400 Bad Request) for this error.
    pub fn message(&self) -> (r: String)
        ensures
            r@ == spec_header_error_message(*self),
    {
        match self {
            AuthHeaderError::Missing => String::from_str("Authentication required!"),
            AuthHeaderError::MissingScheme => String::from_str("Missing authorization scheme"),
            AuthHeaderError::InvalidValue => String::from_str("Invalid header value"),
        }
    }
}

/// Index of the first space in `s`, or `s.len()` where there is none.
pub open spec fn space_at(s: Seq<char>) -> nat
    decreases s.len(),
{
    if s.len() == 0 {
        0
    } else if s[0] == ' ' {
        0
    } else {
        1 + space_at(s.drop_first())
    }
}

/// Reads an `Authorization` header as `<scheme> <token>`, splitting at the
/// first space (`splitn(2, ' ')`): the scheme and the token must both be
/// non-empty; the token is everything after the first space.
pub open spec fn spec_parse_authorization(header: Option<Seq<char>>) -> Result<
    (Seq<char>, Seq<char>),
    AuthHeaderError,
> {
    match header {
        None => Err(AuthHeaderError::Missing),
        Some(h) => {
            let k: int = space_at(h) as int;
            if k == 0 {
                Err(AuthHeaderError::MissingScheme)
            } else if k + 1 >= h.len() {
                Err(AuthHeaderError::InvalidValue)
            } else {
                Ok((h.take(k), h.skip(k + 1)))
            }
        },
    }
}

proof fn lemma_space_at(s: Seq<char>, i: int)
    requires
        0 <= i <= s.len(),
        forall|k: int| 0 <= k < i ==> #[trigger] s[k] != ' ',
    ensures
        space_at(s) == i + space_at(s.skip(i)),
    decreases i,
{
    if i == 0 {
        assert(s.skip(0) =~= s);
    } else {
        let t = s.drop_first();
        assert forall|k: int| 0 <= k < i - 1 implies #[trigger] t[k] != ' ' by {
            assert(t[k] == s[k + 1]);
        }
        lemma_space_at(t, i - 1);
        assert(t.skip(i - 1) =~= s.skip(i));
    }
}

/// The index of the first space of `s`, or its length where it has none.
fn find_space(s: &str) -> (r: usize)
    ensures
        r == space_at(s@),
        r <= s@.len(),
{
    let n: usize = s.unicode_len();
    let mut i: usize = 0;
    loop
        invariant
            n == s@.len(),
            i <= n,
            forall|k: int| 0 <= k < i ==> #[trigger] s@[k] != ' ',
        ensures
            i <= n,
            forall|k: int| 0 <= k < i ==> #[trigger] s@[k] != ' ',
            i == n || s@[i as int] == ' ',
        decreases n - i,
    {
        if i == n {
            break;
        }
        if s.get_char(i) == ' ' {
            break;
        }
        i = i + 1;
    }
    proof {
        lemma_space_at(s@, i as int);
    }
    i
}

impl RealWorldToken {
    /// Reads the `Authorization` header, if any, as `<scheme> <token>`.
    pub fn from_authorization(header: Option<&str>) -> (r: Result<RealWorldToken, AuthHeaderError>)
        ensures
            match (r, spec_parse_authorization(
                match header {
                    Some(h) => Some(h@),
                    None => None,
                },
            )) {
                (Ok(t), Ok((scheme, token))) => t.scheme@ == scheme && t.token@ == token,
                (Err(e), Err(f)) => e == f,
                _ => false,
            },
    {
        match header {
            None => Err(AuthHeaderError::Missing),
            Some(h) => {
                let n: usize = h.unicode_len();
                let k: usize = find_space(h);
                if k == 0 {
                    Err(AuthHeaderError::MissingScheme)
                } else if n - k <= 1 {
                    Err(AuthHeaderError::InvalidValue)
                } else {
                    let scheme = h.substring_char(0, k);
                    let token = h.substring_char(k + 1, n);
                    proof {
                        assert(scheme@ =~= h@.take(k as int));
                        assert(token@ =~= h@.skip(k + 1));
                    }
                    Ok(RealWorldToken { scheme: String::from_str(scheme), token: String::from_str(token) })
                }
            },
        }
    }
}

/// A header made of a scheme, one space and a token reads back as that scheme
/// and that token, provided the scheme is non-empty and has no space and the
/// token is non-empty.
pub proof fn lemma_authorization_round_trip(scheme: Seq<char>, token: Seq<char>)
    requires
        scheme.len() > 0,
        token.len() > 0,
        !scheme.contains(' '),
    ensures
        spec_parse_authorization(Some(scheme + seq![' '] + token)) == Ok::<
            (Seq<char>, Seq<char>),
            AuthHeaderError,
        >((scheme, token)),
{
    let h = scheme + seq![' '] + token;
    assert forall|k: int| 0 <= k < scheme.len() implies #[trigger] h[k] != ' ' by {
        assert(h[k] == scheme[k]);
        if h[k] == ' ' {
            assert(scheme.contains(' '));
        }
    }
    lemma_space_at(h, scheme.len() as int);
    assert(h.skip(scheme.len() as int)[0] == ' ');
    assert(h.take(scheme.len() as int) =~= scheme);
    assert(h.skip(scheme.len() + 1int) =~= token);
}

/// Seconds a token stays valid: seven days.
pub const TOKEN_LIFETIME_SECS: u64 = 604800;

/// `e` is an `UnauthorizedError` with this realm and message.
pub open spec fn is_unauthorized(e: CustomError, realm: Seq<char>, message: Seq<char>) -> bool {
    match e {
        CustomError::UnauthorizedError { realm: r, message: m } => r@ == realm && m@ == message,
        _ => false,
    }
}

/// `c` expires one token lifetime after `now`.
pub open spec fn issued_at(c: Claim, now: int) -> bool {
    c.exp == now + TOKEN_LIFETIME_SECS
}

/// The claims of a token issued at `now` (seconds since the Unix epoch): they
/// expire seven days later.
pub fn claims_at(now: u64, issuer: &str, id: u32, email: &str) -> (r: Claim)
    requires
        now + TOKEN_LIFETIME_SECS <= usize::MAX,
    ensures
        r.exp == now + TOKEN_LIFETIME_SECS,
        r.iss@ == issuer@,
        r.id == id,
        r.email@ == email@,
{
    Claim {
        exp: (now + TOKEN_LIFETIME_SECS) as usize,
        iss: String::from_str(issuer),
        id,
        email: String::from_str(email),
    }
}

/// Reads the clock with `fastdate::DateTime::now().unix_timestamp()`: the
/// seconds since the Unix epoch, shifted by the local time-zone offset that
/// fastdate adds to the system time. Nothing is promised of the reading.
#[verifier::external_body]
fn unix_now() -> (r: i64) {
    fastdate::DateTime::now().unix_timestamp()
}

/// A clock reading from which a token's expiry can be computed: the expiry,
/// seven days after the reading, is neither negative nor too large for `usize`.
pub open spec fn reading_in_range(now: int) -> bool {
    0 <= now + TOKEN_LIFETIME_SECS <= usize::MAX
}

/// What `claims_for_reading` answers for the clock reading `now`: claims for
/// `issuer`, `id` and `email` that expire seven days after `now` where the
/// reading is in range, and nothing otherwise.
pub open spec fn claims_outcome(
    r: Option<Claim>,
    now: int,
    issuer: Seq<char>,
    id: u32,
    email: Seq<char>,
) -> bool {
    &&& (r is Some <==> reading_in_range(now))
    &&& r matches Some(c) ==> c.iss@ == issuer && c.id == id && c.email@ == email && issued_at(
        c,
        now,
    )
}

/// The claims of a token issued at the clock reading `now` (seconds, as the
/// clock gives it); `None` where the expiry seven days later would be
/// negative or too large for `usize`.
pub fn claims_for_reading(now: i64, issuer: &str, id: u32, email: &str) -> (r: Option<Claim>)
    ensures
        claims_outcome(r, now as int, issuer@, id, email@),
{
    if now < -604800i64 {
        return None;
    }
    let exp: u64 = if now >= 0 {
        now as u64 + TOKEN_LIFETIME_SECS
    } else {
        (now + 604800i64) as u64
    };
    if exp > usize::MAX as u64 {
        return None;
    }
    Some(
        Claim {
            exp: exp as usize,
            iss: String::from_str(issuer),
            id,
            email: String::from_str(email),
        },
    )
}

/// The claims of a token issued now to user `id` with address `email`; they
/// expire seven days from the clock's reading. `None` only where that expiry
/// would be negative or too large for `usize`.
pub fn token_claims(issuer: &str, id: u32, email: &str) -> (r: Option<Claim>)
    ensures
        exists|now: int|
            i64::MIN <= now <= i64::MAX && #[trigger] claims_outcome(r, now, issuer@, id, email@),
        r matches Some(c) ==> c.iss@ == issuer@ && c.id == id && c.email@ == email@ && exists|
            now: int,
        | #[trigger] issued_at(c, now),
{
    let now: i64 = unix_now();
    let r = claims_for_reading(now, issuer, id, email);
    proof {
        assert(claims_outcome(r, now as int, issuer@, id, email@));
        if r is Some {
            assert(issued_at(r->0, now as int));
        }
    }
    r
}

/// The outcome of checking a token's signature and issuer: the decoded
/// claims, or, where decoding failed with `message`, an unauthorized error
/// for the realm `host` carrying that message.
pub fn token_validation(host: &str, decoded: Result<Claim, String>) -> (r: Result<Claim, CustomError>)
    ensures
        match decoded {
            Ok(c) => r == Ok::<Claim, CustomError>(c),
            Err(m) => r matches Err(e) && is_unauthorized(e, host@, m@),
        },
{
    match decoded {
        Ok(c) => Ok(c),
        Err(m) => Err(CustomError::UnauthorizedError { realm: String::from_str(host), message: m }),
    }
}

/// First decision of the request validator: the credentials taken from the
/// `Authorization` header. A header that could not be read (its message in
/// `credentials`) or a scheme other than `Token` is refused as unauthorized
/// for `origin`; otherwise the token is handed on for validation.
pub fn check_credentials(origin: &str, credentials: Result<RealWorldToken, String>) -> (r: Result<
    String,
    CustomError,
>)
    ensures
        match credentials {
            Err(m) => r matches Err(e) && is_unauthorized(e, origin@, m@),
            Ok(t) => if t.scheme@ == "Token"@ {
                r matches Ok(token) && token@ == t.token@
            } else {
                r matches Err(e) && is_unauthorized(e, origin@, "Invalid header value"@)
            },
        },
{
    match credentials {
        Err(m) => Err(CustomError::UnauthorizedError { realm: String::from_str(origin), message: m }),
        Ok(t) => {
            let expected = String::from_str("Token");
            if same_text(t.scheme.as_str(), expected.as_str()) {
                Ok(t.token)
            } else {
                Err(
                    CustomError::UnauthorizedError {
                        realm: String::from_str(origin),
                        message: String::from_str("Invalid header value"),
                    },
                )
            }
        },
    }
}

/// What the validator answers, at time `now`, for the outcome of validating a
/// token's signature and issuer.
pub open spec fn spec_authorize(
    origin: Seq<char>,
    validated: Result<Claim, CustomError>,
    now: int,
    r: Result<(), CustomError>,
) -> bool {
    match validated {
        Err(e) => r == Err::<(), CustomError>(e),
        Ok(c) => if now < c.exp {
            r is Ok
        } else {
            r matches Err(e) && is_unauthorized(e, origin, "Token expired"@)
        },
    }
}

/// Second decision of the request validator, at time `now`: a validation
/// failure is answered as it is; valid claims are accepted while `now` is
/// before their expiry and refused as `Token expired` after.
pub fn authorize_claims(origin: &str, validated: Result<Claim, CustomError>, now: usize) -> (r:
    Result<(), CustomError>)
    ensures
        spec_authorize(origin@, validated, now as int, r),
{
    match validated {
        Err(e) => Err(e),
        Ok(c) => {
            if now < c.exp {
                Ok(())
            } else {
                Err(
                    CustomError::UnauthorizedError {
                        realm: String::from_str(origin),
                        message: String::from_str("Token expired"),
                    },
                )
            }
        },
    }
}

/// The second decision of the request validator at the clock's current
/// reading (taken as `usize`, as the validator does).
pub fn check_claims_now(origin: &str, validated: Result<Claim, CustomError>) -> (r: Result<
    (),
    CustomError,
>)
    ensures
        exists|now: int| 0 <= now <= usize::MAX && spec_authorize(origin@, validated, now, r),
{
    let now: usize = unix_now() as usize;
    authorize_claims(origin, validated, now)
}

/// A token issued at `issued` (claims from `claims_at`) passes the expiry
/// check exactly while the time is before `issued` plus seven days.
pub proof fn lemma_fresh_token_lifetime(
    origin: Seq<char>,
    claims: Claim,
    issued: int,
    now: int,
    r: Result<(), CustomError>,
)
    requires
        issued_at(claims, issued),
        spec_authorize(origin, Ok(claims), now, r),
    ensures
        r is Ok <==> now < issued + TOKEN_LIFETIME_SECS,
{
}

} // verus!
