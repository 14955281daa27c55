//! Authentication of requests (JWT bearer tokens, API keys, HTTP basic
//! credentials) and role/scope authorization.
//!
//! Signing and checking JWTs needs serialization of `Claims`, which the
//! embedding application performs; this module decides everything around it.
use vstd::prelude::*;

use base64::Engine;

use crate::config::{strings, AuthConfig};
use crate::error::GatewayError;
use crate::table::{get_first, keys_distinct, lemma_first_value_is_map, named, to_map};
use crate::text::{debug_quoted, str_debug, ascii_lower, eq_ignore_ascii_case, is_prefix, split_once, split_once_spec, starts_with, suffix_from};

verus! {

/// JWT claims.
#[derive(Debug, Clone)]
pub struct Claims {
    /// Subject (user id).
    pub sub: String,
    /// Expiration time, in seconds since the epoch.
    pub exp: usize,
    /// Issue time, in seconds since the epoch.
    pub iat: usize,
    pub iss: String,
    pub aud: String,
    pub roles: Vec<String>,
    pub scopes: Vec<String>,
}

/// The user a request was authenticated as.
#[derive(Debug, Clone)]
pub struct AuthenticatedUser {
    pub user_id: String,
    pub roles: Vec<String>,
    pub scopes: Vec<String>,
}

/// The headers of a request, in order: each name with its value as text,
/// or `None` where the value is not visible ASCII.
#[derive(Debug, Clone)]
pub struct RequestHeaders {
    pub entries: Vec<(String, Option<String>)>,
}

/// The value of the first header named `name` (names compared without
/// ASCII case), looking from position `i` on.
pub open spec fn header_from(h: Seq<(String, Option<String>)>, name: Seq<char>, i: int) -> Option<
    Option<String>,
>
    decreases h.len() - i,
{
    if i < 0 || i >= h.len() {
        None
    } else if ascii_lower(h[i].0@) == ascii_lower(name) {
        Some(h[i].1)
    } else {
        header_from(h, name, i + 1)
    }
}

/// The text of the first header named `name`, when it is text.
pub open spec fn header_text(h: Seq<(String, Option<String>)>, name: Seq<char>) -> Option<Seq<char>> {
    match header_from(h, name, 0) {
        Some(Some(v)) => Some(v@),
        _ => None,
    }
}

impl RequestHeaders {
    /// The text of the first header named `name`, when it is text.
    pub fn get_text(&self, name: &str) -> (r: Option<String>)
        ensures
            match header_text(self.entries@, name@) {
                Some(v) => r matches Some(s) && s@ == v,
                None => r is None,
            },
    {
        let mut i: usize = 0;
        while i < self.entries.len()
            invariant
                i <= self.entries@.len(),
                header_from(self.entries@, name@, 0) == header_from(self.entries@, name@, i as int),
            decreases self.entries@.len() - i,
        {
            if eq_ignore_ascii_case(self.entries[i].0.as_str(), name) {
                return match &self.entries[i].1 {
                    Some(v) => Some(v.clone()),
                    None => None,
                };
            }
            i = i + 1;
        }
        None
    }
}

/// What one authentication step concluded: nothing (the next step is
/// tried), a user, or a refusal with its message.
pub ghost enum AuthVerdict {
    Pass,
    User { id: Seq<char>, roles: Seq<Seq<char>>, scopes: Seq<Seq<char>> },
    Refused(Seq<char>),
}

/// The token of an `Authorization: Bearer ...` header.
pub open spec fn bearer_token(h: Seq<(String, Option<String>)>) -> Option<Seq<char>> {
    match header_text(h, "authorization"@) {
        Some(v) => if is_prefix("Bearer "@, v) {
            Some(v.subrange(7, v.len() as int))
        } else {
            None
        },
        None => None,
    }
}

/// Whether a bearer token must be checked: authentication is on, a JWT
/// secret is configured and the request carries a bearer token.
pub open spec fn jwt_token_needed(cfg: AuthConfig, h: Seq<(String, Option<String>)>) -> bool {
    cfg.enabled && cfg.jwt_secret is Some && bearer_token(h) is Some
}

/// The JWT step, given what decoding the bearer token gave.
pub open spec fn jwt_verdict(
    cfg: AuthConfig,
    h: Seq<(String, Option<String>)>,
    jwt: Option<Result<Claims, String>>,
) -> AuthVerdict {
    if jwt_token_needed(cfg, h) {
        match jwt {
            Some(Ok(c)) => AuthVerdict::User { id: c.sub@, roles: strings(c.roles@), scopes: strings(c.scopes@) },
            Some(Err(m)) => AuthVerdict::Refused("Invalid JWT token: "@ + m@),
            None => AuthVerdict::Pass,
        }
    } else {
        AuthVerdict::Pass
    }
}

/// The API-key step: any non-empty key in the configured header is
/// accepted.
pub open spec fn api_key_verdict(cfg: AuthConfig, h: Seq<(String, Option<String>)>) -> AuthVerdict {
    match cfg.api_key_header {
        Some(name) => match header_text(h, name@) {
            Some(k) => if k.len() > 0 {
                AuthVerdict::User {
                    id: "api_key_"@ + k,
                    roles: seq!["api_user"@],
                    scopes: seq!["read"@, "write"@],
                }
            } else {
                AuthVerdict::Refused("Invalid API key"@)
            },
            None => AuthVerdict::Pass,
        },
        None => AuthVerdict::Pass,
    }
}

/// What base64 (standard alphabet, padded) decoding of `encoded` gives.
pub uninterp spec fn base64_standard_decode(encoded: Seq<char>) -> Option<Seq<u8>>;

/// The user whose `user:password` credentials `encoded` holds, when the
/// password is the one configured for that user name.
pub open spec fn basic_user(encoded: Seq<char>, users: Seq<(String, String)>) -> Option<Seq<char>> {
    match base64_standard_decode(encoded) {
        Some(bytes) => if vstd::utf8::valid_utf8(bytes) {
            match split_once_spec(vstd::utf8::decode_utf8(bytes), ':') {
                Some((u, p)) => if to_map(named(users)).contains_key(u) && to_map(named(users))[u]@ == p {
                    Some(u)
                } else {
                    None
                },
                None => None,
            }
        } else {
            None
        },
        None => None,
    }
}

/// The basic-authentication step.
pub open spec fn basic_verdict(cfg: AuthConfig, h: Seq<(String, Option<String>)>) -> AuthVerdict {
    match cfg.basic_auth_users {
        Some(users) => match header_text(h, "authorization"@) {
            Some(v) => if is_prefix("Basic "@, v) {
                match basic_user(v.subrange(6, v.len() as int), users@) {
                    Some(u) => AuthVerdict::User { id: u, roles: seq!["basic_user"@], scopes: seq!["read"@] },
                    None => AuthVerdict::Refused("Invalid basic authentication credentials"@),
                }
            } else {
                AuthVerdict::Pass
            },
            None => AuthVerdict::Pass,
        },
        None => AuthVerdict::Pass,
    }
}

/// The outcome of authenticating a request: nothing when authentication is
/// off; else the first of the JWT, API-key and basic steps that concludes,
/// and a refusal when none does.
pub open spec fn auth_verdict(
    cfg: AuthConfig,
    h: Seq<(String, Option<String>)>,
    jwt: Option<Result<Claims, String>>,
) -> AuthVerdict {
    if !cfg.enabled {
        AuthVerdict::Pass
    } else if !(jwt_verdict(cfg, h, jwt) is Pass) {
        jwt_verdict(cfg, h, jwt)
    } else if !(api_key_verdict(cfg, h) is Pass) {
        api_key_verdict(cfg, h)
    } else if !(basic_verdict(cfg, h) is Pass) {
        basic_verdict(cfg, h)
    } else {
        AuthVerdict::Refused("No valid authentication provided"@)
    }
}

/// `r` is the result that reports verdict `v`.
pub open spec fn reports(r: Result<Option<AuthenticatedUser>, GatewayError>, v: AuthVerdict) -> bool {
    match v {
        AuthVerdict::Pass => r matches Ok(None),
        AuthVerdict::User { id, roles, scopes } => r matches Ok(Some(u)) && u.user_id@ == id && strings(
            u.roles@,
        ) == roles && strings(u.scopes@) == scopes,
        AuthVerdict::Refused(m) => r matches Err(GatewayError::Authentication(s)) && s@ == m,
    }
}

/// `base64::engine::general_purpose::STANDARD.decode`: the bytes that
/// `encoded` stands for, or `None` when it is not valid padded base64.
#[verifier::external_body]
fn decode_base64(encoded: &str) -> (r: Option<Vec<u8>>)
    ensures
        match base64_standard_decode(encoded@) {
            Some(b) => r matches Some(v) && v@ == b,
            None => r is None,
        },
{
    base64::engine::general_purpose::STANDARD.decode(encoded).ok()
}

/// `String::from_utf8`: the text that `bytes` encode, when they are valid
/// UTF-8.
#[verifier::external_body]
fn utf8_text(bytes: Vec<u8>) -> (r: Option<String>)
    ensures
        match r {
            Some(s) => vstd::utf8::valid_utf8(bytes@) && s@ == vstd::utf8::decode_utf8(bytes@),
            None => !vstd::utf8::valid_utf8(bytes@),
        },
{
    String::from_utf8(bytes).ok()
}

fn one_string(a: &str) -> (r: Vec<String>)
    ensures
        strings(r@) == seq![a@],
{
    let mut v: Vec<String> = Vec::new();
    v.push(String::from_str(a));
    assert(strings(v@) =~= seq![a@]);
    v
}

fn two_strings(a: &str, b: &str) -> (r: Vec<String>)
    ensures
        strings(r@) == seq![a@, b@],
{
    let mut v: Vec<String> = Vec::new();
    v.push(String::from_str(a));
    v.push(String::from_str(b));
    assert(strings(v@) =~= seq![a@, b@]);
    v
}

/// Authentication of requests against an authentication configuration.
pub struct AuthMiddleware {
    config: AuthConfig,
}

impl AuthMiddleware {
    /// The configured basic-authentication users form a map.
    #[verifier::type_invariant]
    spec fn inv(&self) -> bool {
        self.config.wf()
    }

    pub closed spec fn config_view(&self) -> AuthConfig {
        self.config
    }

    /// An authenticator for `config`.
    pub fn new(config: AuthConfig) -> (r: Result<Self, GatewayError>)
        requires
            config.wf(),
        ensures
            r matches Ok(m) && m.config_view() == config,
    {
        Ok(AuthMiddleware { config })
    }

    pub fn config(&self) -> (r: &AuthConfig)
        ensures
            *r == self.config_view(),
    {
        &self.config
    }

    /// The bearer token that must be decoded before `authenticate`, when one
    /// must.
    pub fn jwt_token(&self, headers: &RequestHeaders) -> (r: Option<String>)
        ensures
            r is Some <==> jwt_token_needed(self.config_view(), headers.entries@),
            r matches Some(t) ==> bearer_token(headers.entries@) == Some(t@),
    {
        if !self.config.enabled || self.config.jwt_secret.is_none() {
            return None;
        }
        match headers.get_text("authorization") {
            Some(v) => {
                if starts_with(v.as_str(), "Bearer ") {
                    proof {
                        reveal_strlit("Bearer ");
                    }
                    Some(suffix_from(v.as_str(), 7))
                } else {
                    None
                }
            },
            None => None,
        }
    }

    /// Authenticates a request. `jwt` is what decoding and checking the
    /// bearer token (see `jwt_token`) gave: the claims, or the reason it was
    /// refused; it is `None` exactly when no token had to be checked.
    pub fn authenticate(&self, headers: &RequestHeaders, jwt: Option<Result<Claims, String>>) -> (r: Result<
        Option<AuthenticatedUser>,
        GatewayError,
    >)
        requires
            (jwt is Some) == jwt_token_needed(self.config_view(), headers.entries@),
        ensures
            reports(r, auth_verdict(self.config_view(), headers.entries@, jwt)),
    {
        if !self.config.enabled {
            return Ok(None);
        }
        match jwt {
            Some(Ok(claims)) => {
                return Ok(
                    Some(
                        AuthenticatedUser {
                            user_id: claims.sub,
                            roles: claims.roles,
                            scopes: claims.scopes,
                        },
                    ),
                );
            },
            Some(Err(m)) => {
                let msg = String::from_str("Invalid JWT token: ").concat(m.as_str());
                return Err(GatewayError::Authentication(msg));
            },
            None => {},
        }
        match self.authenticate_api_key(headers) {
            Ok(None) => {},
            other => {
                return other;
            },
        }
        match self.authenticate_basic(headers) {
            Ok(None) => {},
            other => {
                return other;
            },
        }
        Err(GatewayError::Authentication(String::from_str("No valid authentication provided")))
    }

    fn authenticate_api_key(&self, headers: &RequestHeaders) -> (r: Result<
        Option<AuthenticatedUser>,
        GatewayError,
    >)
        ensures
            reports(r, api_key_verdict(self.config_view(), headers.entries@)),
    {
        match &self.config.api_key_header {
            Some(name) => match headers.get_text(name.as_str()) {
                Some(key) => {
                    if !key.as_str().is_empty() {
                        let id = String::from_str("api_key_").concat(key.as_str());
                        let u = AuthenticatedUser {
                            user_id: id,
                            roles: one_string("api_user"),
                            scopes: two_strings("read", "write"),
                        };
                        Ok(Some(u))
                    } else {
                        Err(GatewayError::Authentication(String::from_str("Invalid API key")))
                    }
                },
                None => Ok(None),
            },
            None => Ok(None),
        }
    }

    fn check_basic(encoded: &str, users: &Vec<(String, String)>) -> (r: Option<String>)
        requires
            keys_distinct(named(users@)),
        ensures
            match basic_user(encoded@, users@) {
                Some(u) => r matches Some(s) && s@ == u,
                None => r is None,
            },
    {
        let bytes = match decode_base64(encoded) {
            Some(b) => b,
            None => {
                return None;
            },
        };
        let text = match utf8_text(bytes) {
            Some(t) => t,
            None => {
                return None;
            },
        };
        let (name, password) = match split_once(text.as_str(), ':') {
            Some(pair) => pair,
            None => {
                return None;
            },
        };
        proof {
            lemma_first_value_is_map(named(users@), name@);
        }
        match get_first(users, name.as_str()) {
            Some(stored) => {
                if crate::table::str_eq(stored.as_str(), password.as_str()) {
                    Some(name)
                } else {
                    None
                }
            },
            None => None,
        }
    }

    fn authenticate_basic(&self, headers: &RequestHeaders) -> (r: Result<
        Option<AuthenticatedUser>,
        GatewayError,
    >)
        ensures
            reports(r, basic_verdict(self.config_view(), headers.entries@)),
    {
        proof {
            use_type_invariant(self);
        }
        match &self.config.basic_auth_users {
            Some(users) => match headers.get_text("authorization") {
                Some(v) => {
                    if starts_with(v.as_str(), "Basic ") {
                        proof {
                            reveal_strlit("Basic ");
                        }
                        let encoded = suffix_from(v.as_str(), 6);
                        match Self::check_basic(encoded.as_str(), users) {
                            Some(name) => {
                                let u = AuthenticatedUser {
                                    user_id: name,
                                    roles: one_string("basic_user"),
                                    scopes: one_string("read"),
                                };
                                Ok(Some(u))
                            },
                            None => Err(
                                GatewayError::Authentication(
                                    String::from_str("Invalid basic authentication credentials"),
                                ),
                            ),
                        }
                    } else {
                        Ok(None)
                    }
                },
                None => Ok(None),
            },
            None => Ok(None),
        }
    }
}

/// The quoted items, separated by `, `.
pub open spec fn debug_items(items: Seq<Seq<char>>) -> Seq<char>
    decreases items.len(),
{
    if items.len() == 0 {
        Seq::empty()
    } else if items.len() == 1 {
        str_debug(items[0])
    } else {
        debug_items(items.drop_last()) + ", "@ + str_debug(items.last())
    }
}

/// A list of strings as `{:?}` prints it: `["a", "b"]`.
pub open spec fn debug_list(items: Seq<Seq<char>>) -> Seq<char> {
    "["@ + debug_items(items) + "]"@
}

fn debug_list_of(items: &[String]) -> (r: String)
    ensures
        r@ == debug_list(strings(items@)),
{
    let mut acc = String::new();
    let mut i: usize = 0;
    while i < items.len()
        invariant
            i <= items@.len(),
            acc@ == debug_items(strings(items@.subrange(0, i as int))),
        decreases items@.len() - i,
    {
        let q = debug_quoted(items[i].as_str());
        proof {
            let next = strings(items@.subrange(0, i + 1));
            assert(next.drop_last() =~= strings(items@.subrange(0, i as int)));
            assert(next.last() == items@[i as int]@);
        }
        if i == 0 {
            acc = q;
        } else {
            acc = acc.concat(", ").concat(q.as_str());
        }
        i = i + 1;
    }
    assert(items@.subrange(0, items@.len() as int) =~= items@);
    String::from_str("[").concat(acc.as_str()).concat("]")
}

/// Whether `items` holds `x`.
fn holds(items: &Vec<String>, x: &str) -> (r: bool)
    ensures
        r == strings(items@).contains(x@),
{
    let mut i: usize = 0;
    while i < items.len()
        invariant
            i <= items@.len(),
            forall|j: int| 0 <= j < i ==> items@[j]@ != x@,
        decreases items@.len() - i,
    {
        if crate::table::str_eq(items[i].as_str(), x) {
            assert(strings(items@)[i as int] == x@);
            return true;
        }
        i = i + 1;
    }
    assert forall|j: int| 0 <= j < strings(items@).len() implies strings(items@)[j] != x@ by {
        assert(strings(items@)[j] == items@[j]@);
    }
    false
}

/// Whether `have` holds at least one of `want`.
pub open spec fn holds_any(have: Seq<String>, want: Seq<String>) -> bool {
    exists|i: int| 0 <= i < want.len() && strings(have).contains(#[trigger] want[i]@)
}

fn holds_any_of(have: &Vec<String>, want: &[String]) -> (r: bool)
    ensures
        r == holds_any(have@, want@),
{
    let mut i: usize = 0;
    while i < want.len()
        invariant
            i <= want@.len(),
            forall|j: int| 0 <= j < i ==> !strings(have@).contains(#[trigger] want@[j]@),
        decreases want@.len() - i,
    {
        if holds(have, want[i].as_str()) {
            return true;
        }
        i = i + 1;
    }
    false
}

/// The first requirement a user misses: when roles are required, one of
/// them; then, when scopes are required, one of them.
pub open spec fn authorization_problem(
    user: AuthenticatedUser,
    roles: Seq<String>,
    scopes: Seq<String>,
) -> Option<Seq<char>> {
    if roles.len() > 0 && !holds_any(user.roles@, roles) {
        Some(
            "User "@ + user.user_id@ + " does not have required role. Required: "@ + debug_list(
                strings(roles),
            ) + ", Has: "@ + debug_list(strings(user.roles@)),
        )
    } else if scopes.len() > 0 && !holds_any(user.scopes@, scopes) {
        Some(
            "User "@ + user.user_id@ + " does not have required scope. Required: "@ + debug_list(
                strings(scopes),
            ) + ", Has: "@ + debug_list(strings(user.scopes@)),
        )
    } else {
        None
    }
}

/// The JWT lifetime in seconds: the configured one, an hour by default.
pub open spec fn jwt_lifetime(cfg: AuthConfig) -> u64 {
    match cfg.jwt_expiration {
        Some(e) => e,
        None => 3600,
    }
}

/// The issuer (or audience) named in tokens: the configured one,
/// `mcp-gateway` by default.
pub open spec fn name_or_gateway(s: Option<String>) -> Seq<char> {
    match s {
        Some(x) => x@,
        None => "mcp-gateway"@,
    }
}

fn string_or_gateway(s: &Option<String>) -> (r: String)
    ensures
        r@ == name_or_gateway(*s),
{
    match s {
        Some(x) => x.clone(),
        None => String::from_str("mcp-gateway"),
    }
}

impl AuthMiddleware {
    /// Whether the user holds `required_role`.
    pub fn has_role(user: &AuthenticatedUser, required_role: &str) -> (r: bool)
        ensures
            r == strings(user.roles@).contains(required_role@),
    {
        holds(&user.roles, required_role)
    }

    /// Whether the user holds `required_scope`.
    pub fn has_scope(user: &AuthenticatedUser, required_scope: &str) -> (r: bool)
        ensures
            r == strings(user.scopes@).contains(required_scope@),
    {
        holds(&user.scopes, required_scope)
    }

    /// Authorizes a user: when roles are required the user must hold one of
    /// them, and when scopes are required, one of them.
    pub fn authorize(
        &self,
        user: &AuthenticatedUser,
        required_roles: &[String],
        required_scopes: &[String],
    ) -> (r: Result<(), GatewayError>)
        ensures
            match authorization_problem(*user, required_roles@, required_scopes@) {
                None => r is Ok,
                Some(m) => r matches Err(GatewayError::Authorization(s)) && s@ == m,
            },
    {
        if required_roles.len() > 0 && !holds_any_of(&user.roles, required_roles) {
            let msg = String::from_str("User ").concat(user.user_id.as_str()).concat(
                " does not have required role. Required: ",
            ).concat(debug_list_of(required_roles).as_str()).concat(", Has: ").concat(
                debug_list_of(user.roles.as_slice()).as_str(),
            );
            return Err(GatewayError::Authorization(msg));
        }
        if required_scopes.len() > 0 && !holds_any_of(&user.scopes, required_scopes) {
            let msg = String::from_str("User ").concat(user.user_id.as_str()).concat(
                " does not have required scope. Required: ",
            ).concat(debug_list_of(required_scopes).as_str()).concat(", Has: ").concat(
                debug_list_of(user.scopes.as_slice()).as_str(),
            );
            return Err(GatewayError::Authorization(msg));
        }
        Ok(())
    }

    /// The claims of a token for a user, issued at `now` (seconds since the
    /// epoch). Signing them is left to the caller.
    pub fn jwt_claims(&self, user_id: &str, roles: Vec<String>, scopes: Vec<String>, now: usize) -> (r:
        Result<Claims, GatewayError>)
        requires
            self.config_view().jwt_secret is Some ==> now + (jwt_lifetime(self.config_view()) as usize)
                <= usize::MAX,
        ensures
            self.config_view().jwt_secret is None ==> (r matches Err(GatewayError::Authentication(m))
                && m@ == "JWT secret not configured"@),
            self.config_view().jwt_secret is Some ==> (r matches Ok(c) && {
                &&& c.sub@ == user_id@
                &&& c.iat == now
                &&& c.exp == now + (jwt_lifetime(self.config_view()) as usize)
                &&& c.iss@ == name_or_gateway(self.config_view().jwt_issuer)
                &&& c.aud@ == name_or_gateway(self.config_view().jwt_audience)
                &&& c.roles@ == roles@
                &&& c.scopes@ == scopes@
            }),
    {
        if self.config.jwt_secret.is_none() {
            return Err(GatewayError::Authentication(String::from_str("JWT secret not configured")));
        }
        let lifetime: u64 = match self.config.jwt_expiration {
            Some(e) => e,
            None => 3600,
        };
        let exp = now + (lifetime as usize);
        Ok(
            Claims {
                sub: String::from_str(user_id),
                exp,
                iat: now,
                iss: string_or_gateway(&self.config.jwt_issuer),
                aud: string_or_gateway(&self.config.jwt_audience),
                roles,
                scopes,
            },
        )
    }
}

/// The status that refuses a request which needs an authenticated user:
/// `None` when it may go on, else 401.
pub fn require_auth_status(user: Option<&AuthenticatedUser>) -> (r: Option<u16>)
    ensures
        r == (if user is Some { None } else { Some(401u16) }),
{
    match user {
        Some(_) => None,
        None => Some(401),
    }
}

/// The status that refuses a request which needs a role: `None` when the
/// user holds it, 403 when the user does not, 401 without a user.
pub fn require_role_status(user: Option<&AuthenticatedUser>, required_role: &str) -> (r: Option<u16>)
    ensures
        r == match user {
            None => Some(401u16),
            Some(u) => if strings(u.roles@).contains(required_role@) {
                None
            } else {
                Some(403u16)
            },
        },
{
    match user {
        None => Some(401),
        Some(u) => if AuthMiddleware::has_role(u, required_role) {
            None
        } else {
            Some(403)
        },
    }
}

/// The status that refuses a request which needs a scope: `None` when the
/// user holds it, 403 when the user does not, 401 without a user.
pub fn require_scope_status(user: Option<&AuthenticatedUser>, required_scope: &str) -> (r: Option<u16>)
    ensures
        r == match user {
            None => Some(401u16),
            Some(u) => if strings(u.scopes@).contains(required_scope@) {
                None
            } else {
                Some(403u16)
            },
        },
{
    match user {
        None => Some(401),
        Some(u) => if AuthMiddleware::has_scope(u, required_scope) {
            None
        } else {
            Some(403)
        },
    }
}

/// With authentication off, every request passes, anonymously.
pub proof fn law_disabled_authentication_admits_all(
    cfg: AuthConfig,
    h: Seq<(String, Option<String>)>,
    jwt: Option<Result<Claims, String>>,
)
    requires
        !cfg.enabled,
    ensures
        auth_verdict(cfg, h, jwt) is Pass,
{
}

/// With authentication on, no request passes anonymously: it is
/// authenticated as a user or refused.
pub proof fn law_enabled_authentication_decides(
    cfg: AuthConfig,
    h: Seq<(String, Option<String>)>,
    jwt: Option<Result<Claims, String>>,
)
    requires
        cfg.enabled,
    ensures
        !(auth_verdict(cfg, h, jwt) is Pass),
{
}

/// Nothing required, nothing missing.
pub proof fn law_no_requirements_authorize(user: AuthenticatedUser)
    ensures
        authorization_problem(user, Seq::empty(), Seq::empty()) is None,
{
}

/// A user holding one of the required roles and one of the required scopes
/// is authorized.
pub proof fn law_held_requirements_authorize(
    user: AuthenticatedUser,
    roles: Seq<String>,
    scopes: Seq<String>,
    i: int,
    j: int,
)
    requires
        0 <= i < roles.len(),
        0 <= j < scopes.len(),
        strings(user.roles@).contains(roles[i]@),
        strings(user.scopes@).contains(scopes[j]@),
    ensures
        authorization_problem(user, roles, scopes) is None,
{
    assert(holds_any(user.roles@, roles));
    assert(holds_any(user.scopes@, scopes));
}

} // verus!
