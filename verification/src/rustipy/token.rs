use vstd::prelude::*;
use crate::text::{int_decimal, push_char, push_i64_decimal};

verus! {

/// The client credentials read from the credentials file.
#[derive(Debug, Clone)]
pub struct Secrets {
    pub client_id: String,
    pub client_secret: String,
}

/// The body of the token endpoint's answer.
#[derive(Debug, Clone)]
pub struct AccessTokenResponse {
    pub access_token: String,
    pub token_type: String,
    pub expires_in: i64,
}

/// An access token as it is kept in the token cache.
#[derive(Debug, Clone)]
pub struct AccessToken {
    pub access_token: String,
    pub token_type: String,
    pub redirect_uri: String,
    pub expires_in: i64,
    pub expires_at: Option<i64>,
}

/// The latest clock reading that `utc_now_timestamp` can return.
pub open spec fn clock_limit() -> int {
    10_000_000_000_000
}

/// The current time as seconds since the Unix epoch (chrono's
/// `Utc::now().timestamp()`). `Utc::now` fails rather than return a time
/// before the epoch or past chrono's last representable year (262142), so
/// the reading lies between 0 and `clock_limit()`. Which time it is, is not
/// stated: it is the machine's clock.
#[verifier::external_body]
fn utc_now_timestamp() -> (t: i64)
    ensures
        0 <= t < clock_limit(),
{
    chrono::Utc::now().timestamp()
}

/// The form body that asks the token endpoint for a client-credentials
/// token.
pub fn token_request_body(creds: &Secrets) -> (body: String)
    ensures
        body@ == "grant_type=client_credentials&client_id="@ + creds.client_id@
            + "&client_secret="@ + creds.client_secret@,
{
    let mut body = String::from_str("grant_type=client_credentials&client_id=");
    body.append(creds.client_id.as_str());
    body.append("&client_secret=");
    body.append(creds.client_secret.as_str());
    body
}

/// At `now` a token expiring at `expires_at` has expired.
pub open spec fn stale_at(expires_at: int, now: int) -> bool {
    now > expires_at
}

/// There is an expiry time and `now` is past it.
pub open spec fn past_at(expires_at: Option<i64>, now: int) -> bool {
    expires_at matches Some(e) && now > e
}

impl AccessToken {
    /// An empty token for `http://localhost` with no expiry time.
    pub fn default() -> (t: AccessToken)
        ensures
            t.access_token@ == Seq::<char>::empty(),
            t.token_type@ == Seq::<char>::empty(),
            t.redirect_uri@ == "http://localhost"@,
            t.expires_in == 0,
            t.expires_at is None,
    {
        AccessToken {
            access_token: String::new(),
            token_type: String::new(),
            redirect_uri: String::from_str("http://localhost"),
            expires_in: 0i64,
            expires_at: None,
        }
    }

    /// The token that a token endpoint answer describes, not yet stamped
    /// with an expiry time.
    pub fn new(auth: AccessTokenResponse) -> (t: AccessToken)
        ensures
            t.access_token@ == auth.access_token@,
            t.token_type@ == auth.token_type@,
            t.expires_in == auth.expires_in,
            t.redirect_uri@ == "http://localhost"@,
            t.expires_at is None,
    {
        let base = AccessToken::default();
        AccessToken {
            access_token: auth.access_token,
            token_type: auth.token_type,
            expires_in: auth.expires_in,
            redirect_uri: base.redirect_uri,
            expires_at: base.expires_at,
        }
    }

    /// Replaces the token string.
    pub fn set_access_token(&mut self, at: String) -> (r: &mut Self)
        ensures
            r.access_token@ == at@,
            r.token_type == old(self).token_type,
            r.redirect_uri == old(self).redirect_uri,
            r.expires_in == old(self).expires_in,
            r.expires_at == old(self).expires_at,
            *final(self) == *final(r),
    {
        self.access_token = at;
        self
    }

    /// Replaces the token type.
    pub fn set_token_type(&mut self, tt: String) -> (r: &mut Self)
        ensures
            r.token_type@ == tt@,
            r.access_token == old(self).access_token,
            r.redirect_uri == old(self).redirect_uri,
            r.expires_in == old(self).expires_in,
            r.expires_at == old(self).expires_at,
            *final(self) == *final(r),
    {
        self.token_type = tt;
        self
    }

    /// Replaces the redirect URI.
    pub fn set_redirect_uri(&mut self, ru: String) -> (r: &mut Self)
        ensures
            r.redirect_uri@ == ru@,
            r.access_token == old(self).access_token,
            r.token_type == old(self).token_type,
            r.expires_in == old(self).expires_in,
            r.expires_at == old(self).expires_at,
            *final(self) == *final(r),
    {
        self.redirect_uri = ru;
        self
    }

    /// Stamps the token as issued at time `now`: it expires `expires_in`
    /// seconds later.
    pub fn set_expires_at_from(&mut self, now: i64) -> (r: &mut Self)
        requires
            i64::MIN <= now + old(self).expires_in <= i64::MAX,
        ensures
            r.expires_at == Some((now + old(self).expires_in) as i64),
            r.access_token == old(self).access_token,
            r.token_type == old(self).token_type,
            r.redirect_uri == old(self).redirect_uri,
            r.expires_in == old(self).expires_in,
            *final(self) == *final(r),
    {
        self.expires_at = Some(now + self.expires_in);
        self
    }

    /// Stamps the token as issued now, by the clock.
    pub fn set_expires_at(&mut self) -> (r: &mut Self)
        requires
            old(self).expires_in <= i64::MAX - clock_limit(),
        ensures
            r.expires_at matches Some(e) && 0 <= e - old(self).expires_in < clock_limit(),
            r.access_token == old(self).access_token,
            r.token_type == old(self).token_type,
            r.redirect_uri == old(self).redirect_uri,
            r.expires_in == old(self).expires_in,
            *final(self) == *final(r),
    {
        let now = utc_now_timestamp();
        self.set_expires_at_from(now)
    }

    /// Whether the cached token has expired at time `now`: false while its
    /// expiry time is not past, true once it is.
    pub fn check_if_expired_at(&self, now: i64) -> (b: bool)
        requires
            self.expires_at is Some,
        ensures
            b == stale_at(self.expires_at.unwrap() as int, now as int),
    {
        match self.expires_at {
            Some(e) => now > e,
            None => false,
        }
    }

    /// `check_if_expired_at`, read against the clock.
    pub fn check_if_expired(&self) -> (b: bool)
        requires
            self.expires_at is Some,
        ensures
            exists|now: int| 0 <= now < clock_limit()
                && b == #[trigger] stale_at(self.expires_at.unwrap() as int, now),
    {
        let now = utc_now_timestamp();
        self.check_if_expired_at(now)
    }

    /// Whether the token has an expiry time and `now` is past it.
    pub fn expired_at(&self, now: i64) -> (b: bool)
        ensures
            b == past_at(self.expires_at, now as int),
    {
        match self.expires_at {
            Some(e) => now > e,
            None => false,
        }
    }

    /// `expired_at`, read against the clock.
    pub fn expired(&self) -> (b: bool)
        ensures
            exists|now: int| 0 <= now < clock_limit() && b == #[trigger] past_at(self.expires_at, now),
    {
        let now = utc_now_timestamp();
        self.expired_at(now)
    }

    /// The token string.
    pub fn get_access_token_string(&self) -> (s: String)
        ensures
            s@ == self.access_token@,
    {
        self.access_token.clone()
    }

    /// The redirect URI.
    pub fn get_redirect_uri(&self) -> (s: String)
        ensures
            s@ == self.redirect_uri@,
    {
        self.redirect_uri.clone()
    }

    /// The token as its `Display` writes it: token, type and lifetime,
    /// each followed by a space.
    pub fn to_display_string(&self) -> (s: String)
        ensures
            s@ == self.access_token@ + seq![' '] + self.token_type@ + seq![' ']
                + int_decimal(self.expires_in as int) + seq![' '],
    {
        let mut s = self.access_token.clone();
        push_char(&mut s, ' ');
        s.append(self.token_type.as_str());
        push_char(&mut s, ' ');
        push_i64_decimal(&mut s, self.expires_in);
        push_char(&mut s, ' ');
        assert(s@ =~= self.access_token@ + seq![' '] + self.token_type@ + seq![' ']
                + int_decimal(self.expires_in as int) + seq![' ']);
        s
    }
}

/// A token newly issued at time `now` from the endpoint's answer.
pub fn token_from_response_at(auth: AccessTokenResponse, now: i64) -> (t: AccessToken)
    requires
        i64::MIN <= now + auth.expires_in <= i64::MAX,
    ensures
        t.access_token@ == auth.access_token@,
        t.token_type@ == auth.token_type@,
        t.expires_in == auth.expires_in,
        t.redirect_uri@ == "http://localhost"@,
        t.expires_at == Some((now + auth.expires_in) as i64),
{
    let mut t = AccessToken::new(auth);
    t.set_expires_at_from(now);
    t
}

/// A token newly issued now, by the clock, from the endpoint's answer.
pub fn token_from_response(auth: AccessTokenResponse) -> (t: AccessToken)
    requires
        auth.expires_in <= i64::MAX - clock_limit(),
    ensures
        t.access_token@ == auth.access_token@,
        t.token_type@ == auth.token_type@,
        t.expires_in == auth.expires_in,
        t.redirect_uri@ == "http://localhost"@,
        t.expires_at matches Some(e) && 0 <= e - auth.expires_in < clock_limit(),
{
    let mut t = AccessToken::new(auth);
    t.set_expires_at();
    t
}

/// What was found where the token cache is kept.
#[derive(Debug)]
pub enum CacheFile {
    /// There is no cache file.
    Missing,
    /// The file holds no token that could be read.
    Unreadable,
    /// The file holds this token.
    Parsed(AccessToken),
}

/// What to do to obtain a token from there.
#[derive(Debug)]
pub enum CacheStep {
    /// The cached token is still good: use it.
    Reuse(AccessToken),
    /// Request a new token and write it over the cache.
    Renew,
    /// Create the cache file's directories, then request a new token and
    /// write it to the cache.
    CreateAndRenew,
}

/// The step that `cache_step_at` takes at time `now`.
pub open spec fn cache_step_spec(file: CacheFile, now: int, step: CacheStep) -> bool {
    match file {
        CacheFile::Missing => step is CreateAndRenew,
        CacheFile::Unreadable => step is Renew,
        CacheFile::Parsed(t) => if stale_at(t.expires_at.unwrap() as int, now) {
            step is Renew
        } else {
            step == CacheStep::Reuse(t)
        },
    }
}

/// Decides how to obtain a token at time `now` from the cache file's state:
/// a cached token is reused unless `check_if_expired_at` finds it expired.
pub fn cache_step_at(file: CacheFile, now: i64) -> (step: CacheStep)
    requires
        file matches CacheFile::Parsed(t) ==> t.expires_at is Some,
    ensures
        cache_step_spec(file, now as int, step),
{
    match file {
        CacheFile::Missing => CacheStep::CreateAndRenew,
        CacheFile::Unreadable => CacheStep::Renew,
        CacheFile::Parsed(t) => {
            if t.check_if_expired_at(now) {
                CacheStep::Renew
            } else {
                CacheStep::Reuse(t)
            }
        },
    }
}

/// `cache_step_at`, read against the clock.
pub fn cache_step(file: CacheFile) -> (step: CacheStep)
    requires
        file matches CacheFile::Parsed(t) ==> t.expires_at is Some,
    ensures
        exists|now: int| 0 <= now < clock_limit() && #[trigger] cache_step_spec(file, now, step),
{
    let now = utc_now_timestamp();
    cache_step_at(file, now)
}

/// A token issued at `issued` is reused from the cache at `now` exactly
/// until its lifetime is over; after that it is renewed.
pub proof fn law_issued_token_reuse(t: AccessToken, issued: int, now: int, step: CacheStep)
    requires
        t.expires_at == Some((issued + t.expires_in) as i64),
        i64::MIN <= issued + t.expires_in <= i64::MAX,
        cache_step_spec(CacheFile::Parsed(t), now, step),
    ensures
        step == CacheStep::Reuse(t) <==> now <= issued + t.expires_in,
        step is Renew <==> now > issued + t.expires_in,
{
}

/// The cache's expiry test and `expired_at` agree on every token that has
/// an expiry time: the cache renews exactly the expired tokens.
pub proof fn law_cache_expiry_is_expiry(t: AccessToken, now: int)
    requires
        t.expires_at is Some,
    ensures
        stale_at(t.expires_at.unwrap() as int, now) <==> past_at(t.expires_at, now),
{
}

} // verus!
