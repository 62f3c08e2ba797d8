//! OAuth credential held for the alarm vendor's API, and the decisions of
//! the credential cache that keeps it fresh.
use vstd::prelude::*;

verus! {

/// Seconds before the nominal expiry at which a credential already counts
/// as expired, so that requests in flight do not race the deadline.
pub const EXPIRY_BUFFER_SECS: u64 = 30;

/// A credential expiring at `expires_at` is expired at time `now` when
/// `now + 30 >= expires_at` (all in seconds since the Unix epoch).
pub open spec fn credential_expired(expires_at: u64, now: u64) -> bool {
    now as int + EXPIRY_BUFFER_SECS as int >= expires_at as int
}

/// Answer of the vendor's token refresh endpoint.
pub struct RefreshOAuthTokenResponse {
    pub oat: String,
    pub oat_expire: u64,
}

/// Answer of the vendor's login endpoint: the credential itself.
pub struct LoginViaUserCredentialsResponse {
    pub user_index: i64,
    pub user_id: String,
    pub oat: String,
    pub oat_expire: u64,
    pub ort: String,
}

impl Clone for RefreshOAuthTokenResponse {
    fn clone(&self) -> (r: Self)
        ensures
            r == *self,
    {
        RefreshOAuthTokenResponse { oat: self.oat.clone(), oat_expire: self.oat_expire }
    }
}

impl Clone for LoginViaUserCredentialsResponse {
    fn clone(&self) -> (r: Self)
        ensures
            r == *self,
    {
        LoginViaUserCredentialsResponse {
            user_index: self.user_index,
            user_id: self.user_id.clone(),
            oat: self.oat.clone(),
            oat_expire: self.oat_expire,
            ort: self.ort.clone(),
        }
    }
}

/// Relies on std::time::SystemTime::now: the wall clock in whole seconds
/// since the Unix epoch (0 for a clock set before it). Nothing is promised
/// of the value.
#[verifier::external_body]
fn unix_time_secs() -> (r: u64) {
    match std::time::SystemTime::now().duration_since(std::time::UNIX_EPOCH) {
        Ok(d) => d.as_secs(),
        Err(_) => 0,
    }
}

impl LoginViaUserCredentialsResponse {
    /// Whether the credential counts as expired at time `now`.
    pub fn is_expired_at(&self, now: u64) -> (r: bool)
        ensures
            r == credential_expired(self.oat_expire, now),
    {
        if self.oat_expire <= EXPIRY_BUFFER_SECS {
            true
        } else {
            now >= self.oat_expire - EXPIRY_BUFFER_SECS
        }
    }

    /// Whether the credential counts as expired now, by the wall clock.
    pub fn is_expired(&self) -> (r: bool)
        ensures
            exists|now: u64| r == credential_expired(self.oat_expire, now),
    {
        let now = unix_time_secs();
        let r = self.is_expired_at(now);
        assert(r == credential_expired(self.oat_expire, now));
        r
    }

    /// Takes the new access token and its expiry from a refresh answer;
    /// the refresh token and the user stay.
    pub fn update_from_refresh_response(&mut self, refresh_response: &RefreshOAuthTokenResponse)
        ensures
            final(self).oat == refresh_response.oat,
            final(self).oat_expire == refresh_response.oat_expire,
            final(self).ort == old(self).ort,
            final(self).user_id == old(self).user_id,
            final(self).user_index == old(self).user_index,
    {
        self.oat = refresh_response.oat.clone();
        self.oat_expire = refresh_response.oat_expire;
    }
}

/// What the credential cache asks of its caller next.
pub enum CredentialStep {
    /// The credential to use; nothing more to do.
    Ready(LoginViaUserCredentialsResponse),
    /// Call the refresh endpoint with this refresh token, then
    /// `finish_refresh`.
    Refresh(String),
    /// Log in with username and password, then `finish_login` on success.
    Login,
}

/// The credential cache: at most one stored credential, replaced only by a
/// successful login and updated in place only by a successful refresh.
/// The network calls are the caller's; this type decides which comes next.
pub struct CredentialCache {
    stored: Option<LoginViaUserCredentialsResponse>,
}

impl CredentialCache {
    pub closed spec fn stored(&self) -> Option<LoginViaUserCredentialsResponse> {
        self.stored
    }

    /// An empty cache: the first request logs in.
    pub fn new() -> (r: Self)
        ensures
            r.stored() is None,
    {
        CredentialCache { stored: None }
    }

    /// The first decision of a credential request at time `now`: the stored
    /// credential while it is unexpired, else a refresh with its refresh
    /// token, else (nothing stored) a login.
    pub fn begin(&self, now: u64) -> (r: CredentialStep)
        ensures
            match self.stored() {
                Some(c) => if !credential_expired(c.oat_expire, now) {
                    r == CredentialStep::Ready(c)
                } else {
                    r == CredentialStep::Refresh(c.ort)
                },
                None => r == CredentialStep::Login,
            },
    {
        match &self.stored {
            Some(c) => {
                if !c.is_expired_at(now) {
                    CredentialStep::Ready(c.clone())
                } else {
                    CredentialStep::Refresh(c.ort.clone())
                }
            },
            None => CredentialStep::Login,
        }
    }

    /// Takes the outcome of a refresh (`None` when it failed). On success the
    /// stored credential takes the new access token and is returned; a
    /// failed refresh, or one with nothing stored, falls back to a login.
    pub fn finish_refresh(&mut self, outcome: Option<RefreshOAuthTokenResponse>) -> (r:
        CredentialStep)
        ensures
            match (outcome, old(self).stored()) {
                (Some(resp), Some(c)) => {
                    let updated = LoginViaUserCredentialsResponse {
                        oat: resp.oat,
                        oat_expire: resp.oat_expire,
                        ..c
                    };
                    &&& final(self).stored() == Some(updated)
                    &&& r == CredentialStep::Ready(updated)
                },
                _ => {
                    &&& final(self).stored() == old(self).stored()
                    &&& r == CredentialStep::Login
                },
            },
    {
        match outcome {
            Some(resp) => {
                match &mut self.stored {
                    Some(c) => {
                        c.update_from_refresh_response(&resp);
                        CredentialStep::Ready(c.clone())
                    },
                    None => CredentialStep::Login,
                }
            },
            None => CredentialStep::Login,
        }
    }

    /// Stores the credential of a successful login, replacing any other,
    /// and returns it.
    pub fn finish_login(&mut self, login: LoginViaUserCredentialsResponse) -> (r:
        LoginViaUserCredentialsResponse)
        ensures
            final(self).stored() == Some(login),
            r == login,
    {
        let r = login.clone();
        self.stored = Some(login);
        r
    }
}

/// A credential expiring 29 seconds from now is already expired; one
/// expiring 31 seconds from now is not.
pub proof fn lemma_expiry_buffer(now: u64)
    requires
        now as int + 31 <= u64::MAX as int,
    ensures
        credential_expired((now + 29) as u64, now),
        !credential_expired((now + 31) as u64, now),
{
}

} // verus!
