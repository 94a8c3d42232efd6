//! Verified identity assertions: the claims carried by an access token,
//! the role check the middleware performs, and the bearer-token extraction
//! from an authorization header. Encoding and decoding the token itself is
//! the token collaborator's job outside this library; everything decided
//! about its content is decided here.

use vstd::prelude::*;

verus! {

/// How long an issued token stays valid, in seconds.
pub const TOKEN_TTL_SECONDS: i64 = 86400;

/// The role a verified identity carries.
#[derive(Clone, Copy, Debug, PartialEq, Eq, Structural)]
pub enum Role {
    User,
    Admin,
}

impl Role {
    /// The name of the role as it travels inside a token.
    pub fn as_str(&self) -> (r: &'static str)
        ensures
            *self == Role::User ==> r@ == "user"@,
            *self == Role::Admin ==> r@ == "admin"@,
    {
        match self {
            Role::User => "user",
            Role::Admin => "admin",
        }
    }
}

/// What an access token asserts: the subject's account id, its role, and
/// the window during which the assertion holds.
#[derive(Clone, Copy, Debug, PartialEq, Eq, Structural)]
pub struct Claims {
    /// The authenticated account's id; booking ownership is decided
    /// against this, never against a client-supplied field.
    pub sub: i32,
    pub role: Role,
    /// Expiration time, seconds since the Unix epoch.
    pub exp: i64,
    /// Issuance time, seconds since the Unix epoch.
    pub iat: i64,
}

/// The claims for a fresh token issued at `now`.
pub fn make_claims(user_id: i32, role: Role, now: i64) -> (r: Claims)
    requires
        now <= i64::MAX - TOKEN_TTL_SECONDS,
    ensures
        r == (Claims { sub: user_id, role, exp: (now + TOKEN_TTL_SECONDS) as i64, iat: now }),
{
    Claims { sub: user_id, role, exp: now + TOKEN_TTL_SECONDS, iat: now }
}

/// The claims for a fresh token issued now, by the wall clock. `None`
/// only when the clock stands so late that the expiry would not fit.
pub fn issue_claims(user_id: i32, role: Role) -> (r: Option<Claims>)
    ensures
        r matches Some(c) ==> c.sub == user_id && c.role == role && c.iat <= i64::MAX
            - TOKEN_TTL_SECONDS && c.exp == c.iat + TOKEN_TTL_SECONDS,
{
    let now = crate::clock::unix_now();
    if now <= i64::MAX - TOKEN_TTL_SECONDS {
        Some(make_claims(user_id, role, now))
    } else {
        None
    }
}

/// Whether the claims are still fresh at `now`, allowing the clock
/// `leeway` seconds of skew.
pub fn claims_accepted_at(claims: &Claims, now: i64, leeway: i64) -> (r: bool)
    requires
        0 <= leeway,
        i64::MIN + leeway <= now,
    ensures
        r == (claims.exp > now - leeway),
{
    claims.exp > now - leeway
}

/// Whether the claims carry the role a route demands.
pub fn authorize(claims: &Claims, required: Role) -> (r: bool)
    ensures
        r == (claims.role == required),
{
    claims.role == required
}

/// The middleware's verdict on a request.
#[derive(Clone, Copy, Debug, PartialEq, Eq, Structural)]
pub enum AuthOutcome {
    /// The token is present, decodes, and carries the demanded role.
    Authorized,
    /// No bearer token came with the request.
    MissingToken,
    /// The token did not decode or is expired.
    InvalidToken,
    /// The token is sound but carries the wrong role.
    WrongRole,
}

impl AuthOutcome {
    /// The HTTP status code the middleware answers with: absent or broken
    /// credentials 401, insufficient ones 403, and no code for a request
    /// that passes.
    pub fn http_status(&self) -> (r: Option<u16>)
        ensures
            *self == AuthOutcome::Authorized ==> r is None,
            *self == AuthOutcome::MissingToken ==> r == Some(401u16),
            *self == AuthOutcome::InvalidToken ==> r == Some(401u16),
            *self == AuthOutcome::WrongRole ==> r == Some(403u16),
    {
        match self {
            AuthOutcome::Authorized => None,
            AuthOutcome::MissingToken => Some(401),
            AuthOutcome::InvalidToken => Some(401),
            AuthOutcome::WrongRole => Some(403),
        }
    }
}

/// The middleware's decision, given whether a bearer token was present,
/// what the token collaborator made of it, and the role the route demands.
pub fn authorize_request(token_present: bool, decoded: Option<Claims>, required: Role) -> (r:
    AuthOutcome)
    ensures
        !token_present ==> r == AuthOutcome::MissingToken,
        token_present && decoded is None ==> r == AuthOutcome::InvalidToken,
        token_present && (decoded matches Some(c) && c.role != required) ==> r
            == AuthOutcome::WrongRole,
        token_present && (decoded matches Some(c) && c.role == required) ==> r
            == AuthOutcome::Authorized,
{
    if !token_present {
        AuthOutcome::MissingToken
    } else {
        match decoded {
            None => AuthOutcome::InvalidToken,
            Some(c) => {
                if authorize(&c, required) {
                    AuthOutcome::Authorized
                } else {
                    AuthOutcome::WrongRole
                }
            },
        }
    }
}

/// The bytes of the `Bearer ` scheme prefix of an authorization header,
/// spelling `B e a r e r space`.
pub open spec fn bearer_prefix() -> Seq<u8> {
    seq![66u8, 101u8, 97u8, 114u8, 101u8, 114u8, 32u8]
}

/// The header opens with the `Bearer ` scheme.
pub open spec fn is_bearer(header: Seq<u8>) -> bool {
    header.len() >= 7 && header.subrange(0, 7) == bearer_prefix()
}

/// Pulls the token out of an authorization header: everything after the
/// `Bearer ` scheme prefix, or nothing when the scheme is absent.
#[verifier::loop_isolation(false)]
pub fn extract_bearer_token(header: &[u8]) -> (r: Option<Vec<u8>>)
    ensures
        match r {
            Some(t) => is_bearer(header@) && t@ == header@.skip(7),
            None => !is_bearer(header@),
        },
{
    if header.len() < 7 {
        proof {
            assert(!is_bearer(header@));
        }
        return None;
    }
    if !(header[0] == 66 && header[1] == 101 && header[2] == 97 && header[3] == 114
        && header[4] == 101 && header[5] == 114 && header[6] == 32) {
        proof {
            assert(header@.subrange(0, 7) != bearer_prefix());
        }
        return None;
    }
    proof {
        assert(header@.subrange(0, 7) =~= bearer_prefix());
    }
    let mut token: Vec<u8> = Vec::new();
    let mut i: usize = 7;
    proof {
        assert(token@ =~= header@.subrange(7, 7));
    }
    while i < header.len()
        invariant
            7 <= i <= header@.len(),
            token@ == header@.subrange(7, i as int),
        decreases header@.len() - i,
    {
        token.push(header[i]);
        proof {
            assert(token@ =~= header@.subrange(7, i as int + 1));
        }
        i = i + 1;
    }
    proof {
        assert(header@.subrange(7, header@.len() as int) =~= header@.skip(7));
    }
    Some(token)
}

/// `c` is the code of a decimal digit.
pub open spec fn is_digit(c: u8) -> bool {
    48 <= c <= 57
}

/// Every byte of `s` is a decimal digit.
pub open spec fn all_digits(s: Seq<u8>) -> bool {
    forall|i: int| 0 <= i < s.len() ==> is_digit(#[trigger] s[i])
}

/// The number a string of decimal digits denotes.
pub open spec fn digits_value(s: Seq<u8>) -> int
    decreases s.len(),
{
    if s.len() == 0 {
        0
    } else {
        10 * digits_value(s.drop_last()) + (s.last() - 48)
    }
}

/// Ten to the `n`th.
pub open spec fn ten_pow(n: nat) -> int
    decreases n,
{
    if n == 0 {
        1
    } else {
        10 * ten_pow((n - 1) as nat)
    }
}

proof fn lemma_ten_pow_pos(n: nat)
    ensures
        ten_pow(n) >= 1,
    decreases n,
{
    if n > 0 {
        lemma_ten_pow_pos((n - 1) as nat);
    }
}

proof fn lemma_ten_pow_mono(a: nat, b: nat)
    requires
        a <= b,
    ensures
        ten_pow(a) <= ten_pow(b),
    decreases b,
{
    if a < b {
        lemma_ten_pow_mono(a, (b - 1) as nat);
        lemma_ten_pow_pos((b - 1) as nat);
    }
}

/// A well-formed token subject: plain decimal digits, at most ten of
/// them, denoting an id that fits `i32`.
pub open spec fn valid_subject(s: Seq<u8>) -> bool {
    &&& 1 <= s.len() <= 10
    &&& all_digits(s)
    &&& digits_value(s) <= i32::MAX
}

/// Reads an account id out of a token's subject field. The subject must
/// be plain decimal digits denoting an id that fits; anything else is
/// refused rather than guessed at.
#[verifier::loop_isolation(false)]
pub fn parse_subject(bytes: &[u8]) -> (r: Option<i32>)
    ensures
        match r {
            Some(v) => valid_subject(bytes@) && v == digits_value(bytes@),
            None => !valid_subject(bytes@),
        },
{
    let n = bytes.len();
    if n < 1 || n > 10 {
        return None;
    }
    let mut value: i64 = 0;
    let mut i: usize = 0;
    proof {
        assert(bytes@.take(0) =~= Seq::<u8>::empty());
    }
    while i < n
        invariant
            i <= n,
            all_digits(bytes@.take(i as int)),
            value == digits_value(bytes@.take(i as int)),
            0 <= value < ten_pow(i as nat),
        decreases n - i,
    {
        let c = bytes[i];
        if !(48 <= c && c <= 57) {
            return None;
        }
        proof {
            lemma_ten_pow_mono(i as nat, 9);
            assert(ten_pow(9) == 1000000000) by {
                reveal_with_fuel(ten_pow, 11);
            }
            assert(bytes@.take(i as int + 1).drop_last() =~= bytes@.take(i as int));
        }
        value = value * 10 + ((c - 48) as i64);
        i = i + 1;
    }
    proof {
        assert(bytes@.take(n as int) =~= bytes@);
    }
    if value <= i32::MAX as i64 {
        Some(value as i32)
    } else {
        None
    }
}

/// The bytes of the role names as they travel inside a token: `user` and
/// `admin`.
pub open spec fn user_role_bytes() -> Seq<u8> {
    seq![117u8, 115u8, 101u8, 114u8]
}

pub open spec fn admin_role_bytes() -> Seq<u8> {
    seq![97u8, 100u8, 109u8, 105u8, 110u8]
}

/// Reads a role out of its token name; unknown role names are refused at
/// this boundary rather than carried through the system.
pub fn parse_role(bytes: &[u8]) -> (r: Option<Role>)
    ensures
        r == Some(Role::User) <==> bytes@ == user_role_bytes(),
        r == Some(Role::Admin) <==> bytes@ == admin_role_bytes(),
        r is None <==> bytes@ != user_role_bytes() && bytes@ != admin_role_bytes(),
{
    if bytes.len() == 4 && bytes[0] == 117 && bytes[1] == 115 && bytes[2] == 101 && bytes[3]
        == 114 {
        proof {
            assert(bytes@ =~= user_role_bytes());
        }
        Some(Role::User)
    } else if bytes.len() == 5 && bytes[0] == 97 && bytes[1] == 100 && bytes[2] == 109 && bytes[3]
        == 105 && bytes[4] == 110 {
        proof {
            assert(bytes@ =~= admin_role_bytes());
        }
        Some(Role::Admin)
    } else {
        None
    }
}

/// What a successful login answers with: the account id, the issued token,
/// the granted role's name, and how long the token stays valid.
#[derive(Debug)]
pub struct LoginResponse {
    pub user_id: i32,
    pub token: String,
    pub role: String,
    pub expires_in: i64,
}

} // verus!
