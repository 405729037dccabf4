use itsdangerous::{default_builder, Signer};
use vstd::prelude::*;
use crate::random::random_u32;
use crate::user::{User, new_user, fresh_user};

verus! {

/// What `itsdangerous` gives for signing `value` under `secret` with its
/// default signer (SHA-1 HMAC, key derived from the secret, '.' as
/// separator): a deterministic function of the two strings.
pub uninterp spec fn signed_token(secret: Seq<char>, value: Seq<char>) -> Seq<char>;

/// What `itsdangerous`'s default signer under `secret` gives back when it
/// checks `token`: the signed value, or nothing for a bad signature.
pub uninterp spec fn unsigned_value(secret: Seq<char>, token: Seq<char>) -> Option<Seq<char>>;

/// Calls `itsdangerous::default_builder(secret).build().sign(value)`.
/// The contract names the result, and states the one fact that the crate's
/// source and documentation give of it: unsigning it under the same secret
/// gives `value` back (`sign` writes `value`, '.', and a url-safe base64
/// signature that holds no '.'; `unsign` splits at the last '.' and checks
/// the signature of what precedes it).
#[verifier::external_body]
fn sign_value(secret_key: &str, value: &str) -> (token: String)
    ensures
        token@ == signed_token(secret_key@, value@),
        unsigned_value(secret_key@, token@) == Some(value@),
{
    default_builder(secret_key.to_string()).build().sign(value)
}

/// Calls `itsdangerous::default_builder(secret).build().unsign(token)`,
/// turning a `BadSignature` error into `None`. The contract ties the result
/// to the name `unsigned_value`, and states what the source shows of an
/// accepted token: it is exactly the signed form of the value it gives
/// back (`unsign` splits at the last '.', and the signature part must
/// decode, with no padding and no stray trailing bits, to exactly the
/// signature of the part before it, so it is that signature's encoding).
/// It says nothing more of which tokens are good.
#[verifier::external_body]
fn unsign_token(secret_key: &str, token: &str) -> (value: Option<String>)
    ensures
        match value {
            Some(v) => unsigned_value(secret_key@, token@) == Some(v@) && token@ == signed_token(
                secret_key@,
                v@,
            ),
            None => unsigned_value(secret_key@, token@) is None,
        },
{
    match default_builder(secret_key.to_string()).build().unsign(token) {
        Ok(v) => Some(v.to_string()),
        Err(_) => None,
    }
}

/// The decimal digit `d` as a character.
pub open spec fn digit_char(d: nat) -> char {
    (d + 48) as char
}

/// The decimal representation of `n`, without leading zeros.
pub open spec fn decimal(n: nat) -> Seq<char>
    decreases n,
{
    if n < 10 {
        seq![digit_char(n)]
    } else {
        decimal(n / 10) + seq![digit_char(n % 10)]
    }
}

/// The number that a string of decimal digits denotes.
pub open spec fn digits_value(s: Seq<char>) -> int
    decreases s.len(),
{
    if s.len() == 0 {
        0
    } else {
        digits_value(s.drop_last()) * 10 + (s.last() as int - 48)
    }
}

/// Reading back the decimal representation of `n` gives `n`: distinct ids
/// have distinct representations.
pub proof fn decimal_reads_back(n: nat)
    ensures
        digits_value(decimal(n)) == n,
        decimal(n).len() > 0,
    decreases n,
{
    if n >= 10 {
        decimal_reads_back(n / 10);
        assert(decimal(n).drop_last() =~= decimal(n / 10));
        assert(decimal(n).last() == digit_char(n % 10));
        assert(digit_char(n % 10) as int == n % 10 + 48);
        assert(digits_value(decimal(n)) == digits_value(decimal(n / 10)) * 10 + n % 10);
    } else {
        assert(digit_char(n) as int == n + 48);
        assert(decimal(n).drop_last() =~= Seq::<char>::empty());
        assert(digits_value(Seq::<char>::empty()) == 0);
        assert(digits_value(decimal(n)) == n);
    }
}

/// Distinct player ids are written differently, so no token can stand
/// for two players.
pub proof fn distinct_ids_distinct_decimals(a: nat, b: nat)
    requires
        a != b,
    ensures
        decimal(a) != decimal(b),
{
    decimal_reads_back(a);
    decimal_reads_back(b);
}

fn digit_str(d: u32) -> (s: &'static str)
    requires
        d < 10,
    ensures
        s@ == seq![digit_char(d as nat)],
{
    proof {
        reveal_strlit("0");
        reveal_strlit("1");
        reveal_strlit("2");
        reveal_strlit("3");
        reveal_strlit("4");
        reveal_strlit("5");
        reveal_strlit("6");
        reveal_strlit("7");
        reveal_strlit("8");
        reveal_strlit("9");
    }
    if d == 0 {
        "0"
    } else if d == 1 {
        "1"
    } else if d == 2 {
        "2"
    } else if d == 3 {
        "3"
    } else if d == 4 {
        "4"
    } else if d == 5 {
        "5"
    } else if d == 6 {
        "6"
    } else if d == 7 {
        "7"
    } else if d == 8 {
        "8"
    } else {
        "9"
    }
}

/// Writes `n` in decimal, as the player id appears in tokens and keys.
pub fn decimal_string(n: u32) -> (s: String)
    ensures
        s@ == decimal(n as nat),
    decreases n,
{
    if n < 10 {
        digit_str(n).to_owned()
    } else {
        let mut s = decimal_string(n / 10);
        s.append(digit_str(n % 10));
        s
    }
}

/// The storage key of the player with the given id.
pub open spec fn key_of(user_id: Seq<char>) -> Seq<char> {
    "users."@ + user_id
}

/// The storage key under which the player with the given id is kept.
pub fn user_key(user_id: &str) -> (key: String)
    ensures
        key@ == key_of(user_id@),
{
    let mut key = "users.".to_owned();
    key.append(user_id);
    key
}

/// Why a request was not authenticated; it is answered with
/// `401 Unauthorized` and the text of `AuthError::message`.
#[derive(PartialEq, Eq, Structural, Clone, Copy, Debug)]
pub enum AuthError {
    NoAuthentication,
    InvalidAuth,
}

/// The text that the server sends for each authentication failure.
pub open spec fn auth_text(e: AuthError) -> Seq<char> {
    match e {
        AuthError::NoAuthentication => "No authentication provided"@,
        AuthError::InvalidAuth => "Invalid auth"@,
    }
}

impl AuthError {
    /// The text sent to the client for this failure.
    pub fn message(&self) -> (m: &'static str)
        ensures
            m@ == auth_text(*self),
    {
        match self {
            AuthError::NoAuthentication => "No authentication provided",
            AuthError::InvalidAuth => "Invalid auth",
        }
    }
}

/// The outcome of authenticating a request that carries the given
/// `authentication` header (or none) against the server's secret: the
/// player id that the token signs, or why it is refused.
pub open spec fn auth_outcome(authentication: Option<Seq<char>>, secret: Seq<char>) -> Result<Seq<char>, AuthError> {
    match authentication {
        None => Err(AuthError::NoAuthentication),
        Some(token) => match unsigned_value(secret, token) {
            Some(id) => Ok(id),
            None => Err(AuthError::InvalidAuth),
        },
    }
}

/// A result with its string taken by its view.
pub open spec fn result_view(r: Result<String, AuthError>) -> Result<Seq<char>, AuthError> {
    match r {
        Ok(s) => Ok(s@),
        Err(e) => Err(e),
    }
}

/// An optional string taken by its view.
pub open spec fn option_view(o: Option<&str>) -> Option<Seq<char>> {
    match o {
        Some(s) => Some(s@),
        None => None,
    }
}

/// Decides on what the signer gave back for a presented token: the signed
/// player id, or `InvalidAuth` for a bad signature.
pub fn check_unsigned(unsigned: Option<String>) -> (r: Result<String, AuthError>)
    ensures
        match unsigned {
            Some(v) => r matches Ok(w) && w@ == v@,
            None => r == Err::<String, AuthError>(AuthError::InvalidAuth),
        },
{
    match unsigned {
        Some(v) => Ok(v),
        None => Err(AuthError::InvalidAuth),
    }
}

/// Authenticates a request by its `authentication` header: a token that
/// the server's secret signs yields the player id inside it. A request is
/// authenticated as `s` only if its header is the signed form of `s`.
pub fn require_authentication(authentication: Option<&str>, secret_key: &str) -> (r: Result<String, AuthError>)
    ensures
        result_view(r) == auth_outcome(option_view(authentication), secret_key@),
        r matches Ok(s) ==> option_view(authentication) == Some(signed_token(secret_key@, s@)),
{
    match authentication {
        None => Err(AuthError::NoAuthentication),
        Some(token) => check_unsigned(unsign_token(secret_key, token)),
    }
}

/// Signs `value` with the server's secret. Presented as a request's
/// authentication, the result authenticates as `value`, whatever `value`
/// holds.
pub fn sign_token(secret_key: &str, value: &str) -> (token: String)
    ensures
        token@ == signed_token(secret_key@, value@),
        auth_outcome(Some(token@), secret_key@) == Ok::<Seq<char>, AuthError>(value@),
{
    sign_value(secret_key, value)
}

/// Issues the token that a player presents from then on: the player id in
/// decimal, signed with the server's secret. The token authenticates as
/// that id.
pub fn issue_token(secret_key: &str, id: u32) -> (token: String)
    ensures
        token@ == signed_token(secret_key@, decimal(id as nat)),
        auth_outcome(Some(token@), secret_key@) == Ok::<Seq<char>, AuthError>(decimal(id as nat)),
{
    let id_string = decimal_string(id);
    sign_token(secret_key, id_string.as_str())
}

/// Registers a player with the given id: the fresh player, and the token
/// that authenticates as that player.
pub fn register_account(id: u32, username: String, created_at: u32, secret_key: &str) -> (res: (User, String))
    ensures
        fresh_user(res.0, id, username@, created_at),
        res.1@ == signed_token(secret_key@, decimal(id as nat)),
        auth_outcome(Some(res.1@), secret_key@) == Ok::<Seq<char>, AuthError>(decimal(id as nat)),
{
    let user = new_user(id, username, created_at);
    let token = issue_token(secret_key, id);
    (user, token)
}

/// Creates an account under a random id: the fresh player, and the token
/// that authenticates as that player.
pub fn create_account(username: String, created_at: u32, secret_key: &str) -> (res: (User, String))
    ensures
        fresh_user(res.0, res.0.id, username@, created_at),
        res.1@ == signed_token(secret_key@, decimal(res.0.id as nat)),
        auth_outcome(Some(res.1@), secret_key@) == Ok::<Seq<char>, AuthError>(decimal(res.0.id as nat)),
{
    let id = random_u32();
    register_account(id, username, created_at, secret_key)
}

} // verus!
