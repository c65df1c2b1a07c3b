//! Access tokens and client credentials.
//!
//! Fetching a token is network work done by the caller; this module holds
//! what is decided around it: whether a cached token is still good, how the
//! bookkeeping of a renewed token looks, and which scopes are asked for.
use vstd::prelude::*;
use vstd::string::StringExecFns;

use crate::text::joined;

verus! {

/// An access token as the token endpoint returns it.
#[derive(Clone, Debug)]
pub struct DomoToken {
    pub access_token: String,
    pub token_type: String,
    /// Lifetime in seconds.
    pub expires_in: u64,
    pub scope: String,
    pub customer: String,
    pub env: String,
    pub user_id: u32,
    pub role: String,
    pub jti: String,
    pub domain: String,
}

impl DomoToken {
    /// A token with every text empty and every number zero.
    pub fn default() -> (r: DomoToken)
        ensures
            r.access_token@ == Seq::<char>::empty(),
            r.token_type@ == Seq::<char>::empty(),
            r.expires_in == 0,
            r.scope@ == Seq::<char>::empty(),
            r.customer@ == Seq::<char>::empty(),
            r.env@ == Seq::<char>::empty(),
            r.user_id == 0,
            r.role@ == Seq::<char>::empty(),
            r.jti@ == Seq::<char>::empty(),
            r.domain@ == Seq::<char>::empty(),
    {
        DomoToken {
            access_token: String::new(),
            token_type: String::new(),
            expires_in: 0,
            scope: String::new(),
            customer: String::new(),
            env: String::new(),
            user_id: 0,
            role: String::new(),
            jti: String::new(),
            domain: String::new(),
        }
    }

    pub fn access_token(self, access_token: &str) -> (r: DomoToken)
        ensures
            r == (DomoToken { access_token: r.access_token, ..self }),
            r.access_token@ == access_token@,
    {
        DomoToken { access_token: String::from_str(access_token), ..self }
    }

    pub fn token_type(self, token_type: &str) -> (r: DomoToken)
        ensures
            r == (DomoToken { token_type: r.token_type, ..self }),
            r.token_type@ == token_type@,
    {
        DomoToken { token_type: String::from_str(token_type), ..self }
    }

    pub fn expires_in(self, expires_in: u64) -> (r: DomoToken)
        ensures
            r == (DomoToken { expires_in, ..self }),
    {
        DomoToken { expires_in, ..self }
    }

    pub fn scope(self, scope: &str) -> (r: DomoToken)
        ensures
            r == (DomoToken { scope: r.scope, ..self }),
            r.scope@ == scope@,
    {
        DomoToken { scope: String::from_str(scope), ..self }
    }
}

/// A cached token with its bookkeeping. Times are seconds on a monotonic
/// clock chosen by the caller.
#[derive(Clone, Debug)]
pub struct DomoAuth {
    pub token: DomoToken,
    pub time_acquired: u64,
    /// How many times the token was renewed before this one.
    pub token_refresh_count: usize,
    /// How many times this token was handed out from the cache.
    pub token_use_count: usize,
}

/// Seconds from `since` to `now`; zero if the clock reads earlier.
pub open spec fn elapsed(since: u64, now: u64) -> nat {
    if now >= since {
        (now - since) as nat
    } else {
        0
    }
}

/// A token must be fetched when none is cached or when more than its
/// lifetime has passed since it was acquired.
pub open spec fn must_refresh(cached: Option<DomoAuth>, now: u64) -> bool {
    match cached {
        None => true,
        Some(a) => elapsed(a.time_acquired, now) > a.token.expires_in,
    }
}

/// `n + 1`, staying at the largest value once there.
pub open spec fn count_up(n: usize) -> usize {
    if n == usize::MAX {
        n
    } else {
        (n + 1) as usize
    }
}

impl DomoAuth {
    /// Whether a token must be fetched at time `now`.
    pub fn needs_refresh(cached: &Option<DomoAuth>, now: u64) -> (r: bool)
        ensures
            r == must_refresh(*cached, now),
    {
        match cached {
            None => true,
            Some(a) => {
                let elapsed = if now >= a.time_acquired {
                    now - a.time_acquired
                } else {
                    0
                };
                elapsed > a.token.expires_in
            },
        }
    }

    /// The record of `token`, fetched at `now` in place of `previous`: its
    /// refresh count is one more than the previous record's (0 for the first
    /// token), and it has not been used yet.
    pub fn renewed(previous: &Option<DomoAuth>, token: DomoToken, now: u64) -> (r: DomoAuth)
        ensures
            r.token == token,
            r.time_acquired == now,
            r.token_refresh_count == match previous {
                None => 0,
                Some(a) => count_up(a.token_refresh_count),
            },
            r.token_use_count == 0,
    {
        let refresh_count = match previous {
            None => 0,
            Some(a) => a.token_refresh_count.saturating_add(1),
        };
        DomoAuth { token, time_acquired: now, token_refresh_count: refresh_count, token_use_count: 0 }
    }

    /// Hand out the cached access token, counting the use.
    pub fn use_token(&mut self) -> (r: String)
        ensures
            r@ == old(self).token.access_token@,
            *final(self) == (DomoAuth {
                token_use_count: count_up(old(self).token_use_count),
                ..*old(self)
            }),
    {
        self.token_use_count = self.token_use_count.saturating_add(1);
        self.token.access_token.clone()
    }
}

/// The API scopes a client asks for.
#[derive(Clone, Copy, Debug, PartialEq, Eq, Structural)]
pub struct DomoScope {
    pub data: bool,
    pub user: bool,
    pub audit: bool,
    pub dashboard: bool,
}

/// The names of the scopes that are set, in the order data, user, audit,
/// dashboard.
pub open spec fn scope_names(s: DomoScope) -> Seq<Seq<char>> {
    let a = if s.data {
        seq!["data"@]
    } else {
        Seq::empty()
    };
    let b = if s.user {
        a.push("user"@)
    } else {
        a
    };
    let c = if s.audit {
        b.push("audit"@)
    } else {
        b
    };
    if s.dashboard {
        c.push("dashboard"@)
    } else {
        c
    }
}

/// The credentials of a client application, with the token once fetched.
#[derive(Clone, Debug)]
pub struct DomoClientAppCredentials {
    pub client_id: String,
    pub client_secret: String,
    pub token: Option<DomoToken>,
    pub domo_scope: DomoScope,
}

impl DomoClientAppCredentials {
    /// Credentials from configured values: all four scopes when every scope
    /// is enabled, else the data scope alone.
    pub fn from_settings(
        client_id: String,
        client_secret: String,
        data: bool,
        user: bool,
        audit: bool,
        dashboard: bool,
    ) -> (r: DomoClientAppCredentials)
        ensures
            r.client_id == client_id,
            r.client_secret == client_secret,
            r.token is None,
            r.domo_scope == if data && user && audit && dashboard {
                DomoScope { data: true, user: true, audit: true, dashboard: true }
            } else {
                DomoScope { data: true, user: false, audit: false, dashboard: false }
            },
    {
        let domo_scope = if data && user && audit && dashboard {
            DomoScope { data, user, audit, dashboard }
        } else {
            DomoScope { data: true, user: false, audit: false, dashboard: false }
        };
        DomoClientAppCredentials { client_id, client_secret, token: None, domo_scope }
    }

    pub fn client_id(self, client_id: &str) -> (r: DomoClientAppCredentials)
        ensures
            r == (DomoClientAppCredentials { client_id: r.client_id, ..self }),
            r.client_id@ == client_id@,
    {
        DomoClientAppCredentials { client_id: String::from_str(client_id), ..self }
    }

    pub fn client_secret(self, client_secret: &str) -> (r: DomoClientAppCredentials)
        ensures
            r == (DomoClientAppCredentials { client_secret: r.client_secret, ..self }),
            r.client_secret@ == client_secret@,
    {
        DomoClientAppCredentials { client_secret: String::from_str(client_secret), ..self }
    }

    pub fn client_scope(self, domo_scope: DomoScope) -> (r: DomoClientAppCredentials)
        ensures
            r == (DomoClientAppCredentials { domo_scope, ..self }),
    {
        DomoClientAppCredentials { domo_scope, ..self }
    }

    pub fn token_info(self, token: DomoToken) -> (r: DomoClientAppCredentials)
        ensures
            r == (DomoClientAppCredentials { token: Some(token), ..self }),
    {
        DomoClientAppCredentials { token: Some(token), ..self }
    }

    /// Whether both the client id and the secret are set.
    pub fn is_complete(&self) -> (r: bool)
        ensures
            r == (self.client_id@.len() > 0 && self.client_secret@.len() > 0),
    {
        self.client_id.as_str().unicode_len() > 0 && self.client_secret.as_str().unicode_len() > 0
    }

    /// The access token already held, if any; without one, a token must be
    /// fetched with [`Self::scope_param`].
    pub fn get_access_token(&self) -> (r: Option<String>)
        ensures
            r == match self.token {
                Some(t) => Some(t.access_token),
                None => None::<String>,
            },
    {
        match &self.token {
            Some(token) => Some(token.access_token.clone()),
            None => None,
        }
    }

    /// The scope parameter of a token request: the names of the enabled
    /// scopes joined by an encoded space.
    pub fn scope_param(&self) -> (r: String)
        ensures
            r@ == joined(scope_names(self.domo_scope), "%20"@),
    {
        let s = self.domo_scope;
        let mut scopes = String::new();
        let ghost names: Seq<Seq<char>> = Seq::empty();
        proof {
            reveal_strlit("data");
            reveal_strlit("user");
            reveal_strlit("audit");
            reveal_strlit("dashboard");
        }
        if s.data {
            append_name(&mut scopes, "data", Ghost(names));
            proof {
                names = names.push("data"@);
            }
        }
        if s.user {
            append_name(&mut scopes, "user", Ghost(names));
            proof {
                names = names.push("user"@);
            }
        }
        if s.audit {
            append_name(&mut scopes, "audit", Ghost(names));
            proof {
                names = names.push("audit"@);
            }
        }
        if s.dashboard {
            append_name(&mut scopes, "dashboard", Ghost(names));
            proof {
                names = names.push("dashboard"@);
            }
        }
        proof {
            assert(names =~= scope_names(s));
        }
        scopes
    }
}

/// Add one scope name to the scopes written so far.
fn append_name(scopes: &mut String, name: &str, Ghost(names): Ghost<Seq<Seq<char>>>)
    requires
        old(scopes)@ == joined(names, "%20"@),
        name@.len() > 0,
        forall|i: int| 0 <= i < names.len() ==> (#[trigger] names[i]).len() > 0,
    ensures
        final(scopes)@ == joined(names.push(name@), "%20"@),
{
    proof {
        assert(names.push(name@).drop_last() =~= names);
        lemma_joined_empty(names);
    }
    if scopes.as_str().unicode_len() > 0 {
        scopes.append("%20");
    }
    scopes.append(name);
}

proof fn lemma_joined_empty(names: Seq<Seq<char>>)
    requires
        forall|i: int| 0 <= i < names.len() ==> (#[trigger] names[i]).len() > 0,
    ensures
        (joined(names, "%20"@).len() == 0) == (names.len() == 0),
    decreases names.len(),
{
    if names.len() > 1 {
        lemma_joined_empty(names.drop_last());
    }
}

} // verus!
