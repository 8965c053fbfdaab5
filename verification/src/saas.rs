//! The multi-tenant SaaS platform: tenants, their credentials, resource
//! limits and usage, and the claims that tokens carry.
use vstd::prelude::*;
use vstd::string::*;
use vstd::utf8::*;
use crate::strmap::StrMap;
use crate::text::{owned, str_eq};
use crate::httputil::chrono_now_secs;

verus! {

broadcast use vstd::string::group_string_axioms;

/// Resource limits of a tenant.
#[derive(Debug, Clone, Copy, PartialEq, Eq, Structural)]
pub struct ResourceLimits {
    pub max_concurrent_agents: usize,
    pub max_tokens_per_day: u64,
    pub max_storage_bytes: u64,
}

pub open spec fn default_limits() -> ResourceLimits {
    ResourceLimits {
        max_concurrent_agents: 4,
        max_tokens_per_day: 1_000_000,
        max_storage_bytes: 10_737_418_240,
    }
}

impl Default for ResourceLimits {
    /// 4 concurrent agents, a million tokens a day, 10 GB of storage.
    fn default() -> (r: Self)
        ensures
            r == default_limits(),
    {
        ResourceLimits {
            max_concurrent_agents: 4,
            max_tokens_per_day: 1_000_000,
            max_storage_bytes: 10_737_418_240,
        }
    }
}

/// A tenant of the platform.
#[derive(Debug, Clone)]
pub struct Tenant {
    pub id: String,
    pub name: String,
    pub workspace_dir: String,
    pub ollama_endpoint: String,
    pub created_at: u64,
    pub resource_limits: ResourceLimits,
}

/// Claims embedded in a token.
#[derive(Debug, Clone, PartialEq, Eq)]
pub struct TenantClaims {
    pub tenant_id: String,
    pub email: String,
    pub issued_at: u64,
    pub expires_at: u64,
}

/// Dashboard summary for a tenant.
#[derive(Debug, Clone)]
pub struct DashboardSummary {
    pub tenant_id: String,
    pub agent_runs: u64,
    pub token_consumption: u64,
    pub active_members: u64,
    pub billing_status: String,
}

/// Errors of platform operations.
#[derive(Debug, Clone, PartialEq, Eq)]
pub enum SaaSError {
    TenantNotFound,
    ResourceLimitExceeded(String),
    InvalidJwt(String),
    DuplicateEmail,
    AuthenticationFailed,
}

/// The text of an error, as it is displayed.
pub open spec fn error_text(e: SaaSError) -> Seq<char> {
    match e {
        SaaSError::TenantNotFound => "tenant not found"@,
        SaaSError::ResourceLimitExceeded(r) => "resource limit exceeded: "@ + r@,
        SaaSError::InvalidJwt(r) => "invalid JWT: "@ + r@,
        SaaSError::DuplicateEmail => "email already registered"@,
        SaaSError::AuthenticationFailed => "authentication failed"@,
    }
}

impl SaaSError {
    /// The text of the error, as it is displayed.
    pub fn message(&self) -> (s: String)
        ensures
            s@ == error_text(*self),
    {
        match self {
            SaaSError::TenantNotFound => owned("tenant not found"),
            SaaSError::ResourceLimitExceeded(r) => {
                let mut s = owned("resource limit exceeded: ");
                s.append(r.as_str());
                s
            },
            SaaSError::InvalidJwt(r) => {
                let mut s = owned("invalid JWT: ");
                s.append(r.as_str());
                s
            },
            SaaSError::DuplicateEmail => owned("email already registered"),
            SaaSError::AuthenticationFailed => owned("authentication failed"),
        }
    }
}

/// Default token lifetime: 24 hours.
pub const DEFAULT_JWT_EXPIRY_SECS: u64 = 86_400;

/// The credentials of one email address.
#[derive(Debug, Clone)]
pub struct UserRecord {
    pub tenant_id: String,
    pub email: String,
    pub password_hash: String,
}

/// Current usage of a tenant.
#[derive(Debug, Clone, Copy, PartialEq, Eq, Structural)]
pub struct TenantUsage {
    pub concurrent_agents: usize,
    pub tokens_today: u64,
    pub storage_bytes: u64,
    pub agent_runs: u64,
    pub active_members: u64,
}

pub open spec fn zero_usage() -> TenantUsage {
    TenantUsage {
        concurrent_agents: 0,
        tokens_today: 0,
        storage_bytes: 0,
        agent_runs: 0,
        active_members: 0,
    }
}

/// Usage after recording `tokens` and, possibly, an agent run.
pub open spec fn recorded(u: TenantUsage, tokens: u64, agent_run: bool) -> TenantUsage {
    TenantUsage {
        tokens_today: (u.tokens_today + tokens) as u64,
        agent_runs: if agent_run {
            (u.agent_runs + 1) as u64
        } else {
            u.agent_runs
        },
        concurrent_agents: if agent_run {
            (u.concurrent_agents + 1) as usize
        } else {
            u.concurrent_agents
        },
        ..u
    }
}

/// `record_usage` fits the counters.
pub open spec fn can_record(u: TenantUsage, tokens: u64, agent_run: bool) -> bool {
    &&& u.tokens_today + tokens <= u64::MAX
    &&& agent_run ==> u.agent_runs < u64::MAX && u.concurrent_agents < usize::MAX
}

/// The multi-tenant platform.
pub struct SaaSPlatform {
    tenants: StrMap<Tenant>,
    users: StrMap<UserRecord>,
    jwt_secret: String,
    jwt_expiry_secs: u64,
    usage: StrMap<TenantUsage>,
}

impl SaaSPlatform {
    pub closed spec fn tenant_of(&self, id: Seq<char>) -> Option<Tenant> {
        self.tenants.lookup(id)
    }

    pub closed spec fn user_of(&self, email: Seq<char>) -> Option<UserRecord> {
        self.users.lookup(email)
    }

    pub closed spec fn usage_of(&self, id: Seq<char>) -> Option<TenantUsage> {
        self.usage.lookup(id)
    }

    /// The recorded usage, or zero when none was recorded.
    pub open spec fn usage_or_zero(&self, id: Seq<char>) -> TenantUsage {
        match self.usage_of(id) {
            Some(u) => u,
            None => zero_usage(),
        }
    }

    pub closed spec fn secret(&self) -> Seq<char> {
        self.jwt_secret@
    }

    pub closed spec fn expiry(&self) -> u64 {
        self.jwt_expiry_secs
    }

    pub closed spec fn wf(&self) -> bool {
        self.tenants.wf() && self.users.wf() && self.usage.wf()
    }

    /// A platform with no tenants, signing with `jwt_secret`, tokens valid a day.
    pub fn new(jwt_secret: &str) -> (p: SaaSPlatform)
        ensures
            p.wf(),
            p.secret() == jwt_secret@,
            p.expiry() == DEFAULT_JWT_EXPIRY_SECS,
            forall|k: Seq<char>| #[trigger] p.tenant_of(k) is None,
            forall|k: Seq<char>| #[trigger] p.user_of(k) is None,
            forall|k: Seq<char>| #[trigger] p.usage_of(k) is None,
    {
        Self::with_expiry(jwt_secret, DEFAULT_JWT_EXPIRY_SECS)
    }

    /// A platform with no tenants and a custom token lifetime.
    pub fn with_expiry(jwt_secret: &str, jwt_expiry_secs: u64) -> (p: SaaSPlatform)
        ensures
            p.wf(),
            p.secret() == jwt_secret@,
            p.expiry() == jwt_expiry_secs,
            forall|k: Seq<char>| #[trigger] p.tenant_of(k) is None,
            forall|k: Seq<char>| #[trigger] p.user_of(k) is None,
            forall|k: Seq<char>| #[trigger] p.usage_of(k) is None,
    {
        SaaSPlatform {
            tenants: StrMap::new(),
            users: StrMap::new(),
            jwt_secret: owned(jwt_secret),
            jwt_expiry_secs,
            usage: StrMap::new(),
        }
    }

    /// The claims of a token issued now to `email` of `tenant_id`.
    pub open spec fn claims_at(&self, tenant_id: Seq<char>, email: Seq<char>, c: TenantClaims) -> bool {
        &&& c.tenant_id@ == tenant_id
        &&& c.email@ == email
        &&& c.expires_at == c.issued_at.wrapping_add(self.expiry())
    }

    fn claims_for(&self, tenant_id: &str, email: &str, now: u64) -> (c: TenantClaims)
        ensures
            self.claims_at(tenant_id@, email@, c),
            c.issued_at == now,
    {
        TenantClaims {
            tenant_id: owned(tenant_id),
            email: owned(email),
            issued_at: now,
            expires_at: now.wrapping_add(self.jwt_expiry_secs),
        }
    }

    /// Checks an email's password hash; on success, the claims of a fresh
    /// token for it (issued now), which the caller signs.
    pub fn authenticate(&self, email: &str, password_hash: &str) -> (r: Result<TenantClaims, SaaSError>)
        requires
            self.wf(),
        ensures
            match self.user_of(email@) {
                None => r == Err::<TenantClaims, SaaSError>(SaaSError::AuthenticationFailed),
                Some(u) => if u.password_hash@ != password_hash@ {
                    r == Err::<TenantClaims, SaaSError>(SaaSError::AuthenticationFailed)
                } else {
                    r matches Ok(c) && self.claims_at(u.tenant_id@, email@, c)
                },
            },
    {
        let user = match self.users.get(email) {
            Some(u) => u,
            None => return Err(SaaSError::AuthenticationFailed),
        };
        if !str_eq(user.password_hash.as_str(), password_hash) {
            return Err(SaaSError::AuthenticationFailed);
        }
        let now = chrono_now_secs();
        Ok(self.claims_for(user.tenant_id.as_str(), email, now))
    }

    /// Whether the tenant may perform `action` within its limits.
    pub fn check_limits(&self, tenant_id: &str, action: &str) -> (r: Result<(), SaaSError>)
        requires
            self.wf(),
        ensures
            match self.tenant_of(tenant_id@) {
                None => r == Err::<(), SaaSError>(SaaSError::TenantNotFound),
                Some(t) => {
                    let u = self.usage_or_zero(tenant_id@);
                    let l = t.resource_limits;
                    if action@ == "agent_run"@ && u.concurrent_agents >= l.max_concurrent_agents {
                        r matches Err(SaaSError::ResourceLimitExceeded(m)) && m@
                            == "max concurrent agents exceeded"@
                    } else if u.tokens_today >= l.max_tokens_per_day {
                        r matches Err(SaaSError::ResourceLimitExceeded(m)) && m@
                            == "max tokens per day exceeded"@
                    } else if u.storage_bytes >= l.max_storage_bytes {
                        r matches Err(SaaSError::ResourceLimitExceeded(m)) && m@
                            == "max storage exceeded"@
                    } else {
                        r is Ok
                    }
                },
            },
    {
        let tenant = match self.tenants.get(tenant_id) {
            Some(t) => t,
            None => return Err(SaaSError::TenantNotFound),
        };
        let usage = match self.usage.get(tenant_id) {
            Some(u) => *u,
            None => TenantUsage {
                concurrent_agents: 0,
                tokens_today: 0,
                storage_bytes: 0,
                agent_runs: 0,
                active_members: 0,
            },
        };
        let limits = tenant.resource_limits;
        if str_eq(action, "agent_run") && usage.concurrent_agents >= limits.max_concurrent_agents {
            return Err(SaaSError::ResourceLimitExceeded(owned("max concurrent agents exceeded")));
        }
        if usage.tokens_today >= limits.max_tokens_per_day {
            return Err(SaaSError::ResourceLimitExceeded(owned("max tokens per day exceeded")));
        }
        if usage.storage_bytes >= limits.max_storage_bytes {
            return Err(SaaSError::ResourceLimitExceeded(owned("max storage exceeded")));
        }
        Ok(())
    }

    /// The dashboard summary of a tenant.
    pub fn dashboard(&self, tenant_id: &str) -> (r: Result<DashboardSummary, SaaSError>)
        requires
            self.wf(),
        ensures
            self.tenant_of(tenant_id@) is None ==> r == Err::<DashboardSummary, SaaSError>(
                SaaSError::TenantNotFound,
            ),
            self.tenant_of(tenant_id@) is Some ==> (r matches Ok(d) && d.tenant_id@ == tenant_id@
                && d.agent_runs == self.usage_or_zero(tenant_id@).agent_runs && d.token_consumption
                == self.usage_or_zero(tenant_id@).tokens_today && d.active_members
                == self.usage_or_zero(tenant_id@).active_members && d.billing_status@
                == "active"@),
    {
        if !self.tenants.contains(tenant_id) {
            return Err(SaaSError::TenantNotFound);
        }
        let usage = match self.usage.get(tenant_id) {
            Some(u) => *u,
            None => TenantUsage {
                concurrent_agents: 0,
                tokens_today: 0,
                storage_bytes: 0,
                agent_runs: 0,
                active_members: 0,
            },
        };
        Ok(DashboardSummary {
            tenant_id: owned(tenant_id),
            agent_runs: usage.agent_runs,
            token_consumption: usage.tokens_today,
            active_members: usage.active_members,
            billing_status: owned("active"),
        })
    }

    /// Records usage of a tenant.
    pub fn record_usage(&mut self, tenant_id: &str, tokens: u64, agent_run: bool) -> (r: Result<
        (),
        SaaSError,
    >)
        requires
            old(self).wf(),
            old(self).tenant_of(tenant_id@) is Some ==> can_record(
                old(self).usage_or_zero(tenant_id@),
                tokens,
                agent_run,
            ),
        ensures
            final(self).wf(),
            forall|k: Seq<char>| #[trigger] final(self).tenant_of(k) == old(self).tenant_of(k),
            forall|k: Seq<char>| #[trigger] final(self).user_of(k) == old(self).user_of(k),
            final(self).secret() == old(self).secret(),
            final(self).expiry() == old(self).expiry(),
            old(self).tenant_of(tenant_id@) is None ==> r == Err::<(), SaaSError>(
                SaaSError::TenantNotFound,
            ) && forall|k: Seq<char>| #[trigger] final(self).usage_of(k) == old(self).usage_of(k),
            old(self).tenant_of(tenant_id@) is Some ==> r is Ok && forall|k: Seq<char>| #[trigger]
                final(self).usage_of(k) == if k == tenant_id@ {
                    Some(recorded(old(self).usage_or_zero(tenant_id@), tokens, agent_run))
                } else {
                    old(self).usage_of(k)
                },
    {
        if !self.tenants.contains(tenant_id) {
            return Err(SaaSError::TenantNotFound);
        }
        let mut u = match self.usage.get(tenant_id) {
            Some(u) => *u,
            None => TenantUsage {
                concurrent_agents: 0,
                tokens_today: 0,
                storage_bytes: 0,
                agent_runs: 0,
                active_members: 0,
            },
        };
        u.tokens_today = u.tokens_today + tokens;
        if agent_run {
            u.agent_runs = u.agent_runs + 1;
            u.concurrent_agents = u.concurrent_agents + 1;
        }
        self.usage.insert(owned(tenant_id), u);
        Ok(())
    }

    /// Marks an agent run of the tenant as finished.
    pub fn complete_agent_run(&mut self, tenant_id: &str) -> (r: Result<(), SaaSError>)
        requires
            old(self).wf(),
        ensures
            final(self).wf(),
            forall|k: Seq<char>| #[trigger] final(self).tenant_of(k) == old(self).tenant_of(k),
            forall|k: Seq<char>| #[trigger] final(self).user_of(k) == old(self).user_of(k),
            final(self).secret() == old(self).secret(),
            final(self).expiry() == old(self).expiry(),
            old(self).usage_of(tenant_id@) is None ==> r == Err::<(), SaaSError>(
                SaaSError::TenantNotFound,
            ) && forall|k: Seq<char>| #[trigger] final(self).usage_of(k) == old(self).usage_of(k),
            old(self).usage_of(tenant_id@) matches Some(u) ==> r is Ok && forall|k: Seq<char>|
                #[trigger] final(self).usage_of(k) == if k == tenant_id@ {
                    Some(
                        TenantUsage {
                            concurrent_agents: if u.concurrent_agents == 0 {
                                0
                            } else {
                                (u.concurrent_agents - 1) as usize
                            },
                            ..u
                        },
                    )
                } else {
                    old(self).usage_of(k)
                },
    {
        let mut u = match self.usage.get(tenant_id) {
            Some(u) => *u,
            None => return Err(SaaSError::TenantNotFound),
        };
        u.concurrent_agents = if u.concurrent_agents > 0 {
            u.concurrent_agents - 1
        } else {
            0
        };
        self.usage.insert(owned(tenant_id), u);
        Ok(())
    }

    /// Signs up a new tenant for `email`; `email_hash` is the hex digest of
    /// the email, whose first 12 characters name the tenant. Returns the
    /// tenant and the claims of its first token, which the caller signs.
    pub fn signup(&mut self, email: &str, password_hash: &str, email_hash: &str) -> (r: Result<
        (Tenant, TenantClaims),
        SaaSError,
    >)
        requires
            old(self).wf(),
            old(self).user_of(email@) is None ==> email_hash.spec_bytes().len() >= 12
                && is_char_boundary(email_hash.spec_bytes(), 12),
        ensures
            final(self).wf(),
            final(self).secret() == old(self).secret(),
            final(self).expiry() == old(self).expiry(),
            old(self).user_of(email@) is Some ==> r == Err::<(Tenant, TenantClaims), SaaSError>(
                SaaSError::DuplicateEmail,
            ),
            old(self).user_of(email@) is None ==> (r matches Ok((t, c)) && {
                &&& encode_utf8(t.id@) == encode_utf8("tenant-"@) + email_hash.spec_bytes().subrange(
                    0,
                    12,
                )
                &&& t.name@ == email@
                &&& t.workspace_dir@ == "/data/tenants/"@ + t.id@
                &&& t.ollama_endpoint@ == "http://ollama-pool:11434"@
                &&& t.created_at == c.issued_at
                &&& t.resource_limits == default_limits()
                &&& old(self).claims_at(t.id@, email@, c)
                &&& forall|k: Seq<char>| #[trigger]
                    final(self).tenant_of(k) == if k == t.id@ {
                        Some(t)
                    } else {
                        old(self).tenant_of(k)
                    }
                &&& final(self).user_of(email@) matches Some(u) && u.tenant_id@ == t.id@
                    && u.email@ == email@ && u.password_hash@ == password_hash@
                &&& forall|k: Seq<char>|
                    k != email@ ==> #[trigger] final(self).user_of(k) == old(self).user_of(k)
                &&& forall|k: Seq<char>| #[trigger]
                    final(self).usage_of(k) == if k == t.id@ {
                        Some(TenantUsage { active_members: 1, ..zero_usage() })
                    } else {
                        old(self).usage_of(k)
                    }
            }),
    {
        if self.users.contains(email) {
            return Err(SaaSError::DuplicateEmail);
        }
        proof {
            encode_utf8_valid_utf8(email_hash@);
        }
        let (prefix, _) = email_hash.split_at(12);
        let mut tenant_id = owned("tenant-");
        tenant_id.append(prefix);
        proof {
            assert(encode_utf8(tenant_id@) == encode_utf8("tenant-"@) + encode_utf8(prefix@)) by {
                lemma_encode_utf8_concat("tenant-"@, prefix@);
            }
        }
        let now = chrono_now_secs();
        let mut dir = owned("/data/tenants/");
        dir.append(tenant_id.as_str());
        let tenant = Tenant {
            id: tenant_id.clone(),
            name: owned(email),
            workspace_dir: dir,
            ollama_endpoint: owned("http://ollama-pool:11434"),
            created_at: now,
            resource_limits: ResourceLimits::default(),
        };
        let copy = Tenant {
            id: tenant_id.clone(),
            name: tenant.name.clone(),
            workspace_dir: tenant.workspace_dir.clone(),
            ollama_endpoint: tenant.ollama_endpoint.clone(),
            created_at: now,
            resource_limits: tenant.resource_limits,
        };
        self.tenants.insert(tenant_id.clone(), copy);
        self.users.insert(
            owned(email),
            UserRecord {
                tenant_id: tenant_id.clone(),
                email: owned(email),
                password_hash: owned(password_hash),
            },
        );
        self.usage.insert(
            tenant_id.clone(),
            TenantUsage {
                concurrent_agents: 0,
                tokens_today: 0,
                storage_bytes: 0,
                agent_runs: 0,
                active_members: 1,
            },
        );
        let claims = TenantClaims {
            tenant_id: tenant_id.clone(),
            email: owned(email),
            issued_at: now,
            expires_at: now.wrapping_add(self.jwt_expiry_secs),
        };
        Ok((tenant, claims))
    }
}

/// The encoding of a concatenation is the concatenation of the encodings.
pub proof fn lemma_encode_utf8_concat(a: Seq<char>, b: Seq<char>)
    ensures
        encode_utf8(a + b) == encode_utf8(a) + encode_utf8(b),
    decreases a.len(),
{
    if a.len() == 0 {
        assert(a + b =~= b);
        assert(encode_utf8(a) =~= Seq::<u8>::empty());
        assert(Seq::<u8>::empty() + encode_utf8(b) =~= encode_utf8(b));
    } else {
        assert((a + b).drop_first() =~= a.drop_first() + b);
        assert((a + b)[0] == a[0]);
        lemma_encode_utf8_concat(a.drop_first(), b);
        assert(encode_scalar(a[0] as u32) + (encode_utf8(a.drop_first()) + encode_utf8(b))
            =~= (encode_scalar(a[0] as u32) + encode_utf8(a.drop_first())) + encode_utf8(b));
    }
}

} // verus!

verus! {

impl SaaSPlatform {
    /// The verdict on a token's claims at time `now`: an expired token is
    /// refused with "token expired"; an unexpired one of a tenant that no
    /// longer exists with `TenantNotFound`; any other is accepted as it is.
    pub open spec fn claims_checked(&self, claims: TenantClaims, now: u64, r: Result<TenantClaims, SaaSError>) -> bool {
        if now > claims.expires_at {
            r matches Err(SaaSError::InvalidJwt(m)) && m@ == "token expired"@
        } else if self.tenant_of(claims.tenant_id@) is None {
            r == Err::<TenantClaims, SaaSError>(SaaSError::TenantNotFound)
        } else {
            r == Ok::<TenantClaims, SaaSError>(claims)
        }
    }

    /// Checks the claims of a token at time `now`; see `claims_checked`.
    pub fn validate_claims_at(&self, claims: TenantClaims, now: u64) -> (r: Result<TenantClaims, SaaSError>)
        requires
            self.wf(),
        ensures
            self.claims_checked(claims, now, r),
    {
        if now > claims.expires_at {
            return Err(SaaSError::InvalidJwt(owned("token expired")));
        }
        if !self.tenants.contains(claims.tenant_id.as_str()) {
            return Err(SaaSError::TenantNotFound);
        }
        Ok(claims)
    }

    /// The text of the error `check_limits` refuses with, if any.
    pub open spec fn limit_refusal(&self, tenant_id: Seq<char>, action: Seq<char>) -> Option<Seq<char>> {
        match self.tenant_of(tenant_id) {
            None => Some("tenant not found"@),
            Some(t) => {
                let u = self.usage_or_zero(tenant_id);
                let l = t.resource_limits;
                if action == "agent_run"@ && u.concurrent_agents >= l.max_concurrent_agents {
                    Some("resource limit exceeded: "@ + "max concurrent agents exceeded"@)
                } else if u.tokens_today >= l.max_tokens_per_day {
                    Some("resource limit exceeded: "@ + "max tokens per day exceeded"@)
                } else if u.storage_bytes >= l.max_storage_bytes {
                    Some("resource limit exceeded: "@ + "max storage exceeded"@)
                } else {
                    None
                }
            },
        }
    }

    /// The key that signs the platform's tokens.
    pub fn jwt_secret(&self) -> (s: &str)
        ensures
            s@ == self.secret(),
    {
        self.jwt_secret.as_str()
    }

    /// Checks the claims of a token by the system clock: the verdict of
    /// `claims_checked` at the time the clock gives. A token of an existing
    /// tenant that never expires is accepted whatever the time; a token of
    /// an existing tenant is never refused as `TenantNotFound`; a token of a
    /// tenant that does not exist is always refused.
    pub fn validate_claims(&self, claims: TenantClaims) -> (r: Result<TenantClaims, SaaSError>)
        requires
            self.wf(),
        ensures
            exists|now: u64| #[trigger] self.claims_checked(claims, now, r),
            self.tenant_of(claims.tenant_id@) is Some && claims.expires_at == u64::MAX ==> r == Ok::<
                TenantClaims,
                SaaSError,
            >(claims),
            self.tenant_of(claims.tenant_id@) is Some ==> r != Err::<TenantClaims, SaaSError>(
                SaaSError::TenantNotFound,
            ),
            self.tenant_of(claims.tenant_id@) is None ==> r is Err,
    {
        let now = chrono_now_secs();
        let r = self.validate_claims_at(claims, now);
        assert(self.claims_checked(claims, now, r));
        r
    }
}

/// A team's quota check: with the SaaS platform on, the team (its tenant)
/// must be within its limits; without it, every team passes.
pub fn check_team_quota(saas: Option<&SaaSPlatform>, team_id: &str, action: &str) -> (r: Result<(), String>)
    requires
        saas matches Some(p) ==> p.wf(),
    ensures
        saas is None ==> r is Ok,
        saas matches Some(p) ==> match p.limit_refusal(team_id@, action@) {
            None => r is Ok,
            Some(m) => r matches Err(e) && e@ == "Quota exceeded: "@ + m,
        },
{
    match saas {
        None => Ok(()),
        Some(p) => match p.check_limits(team_id, action) {
            Ok(()) => Ok(()),
            Err(e) => {
                let mut m = owned("Quota exceeded: ");
                let t = e.message();
                m.append(t.as_str());
                proof {
                    reveal_strlit("Quota exceeded: ");
                }
                Err(m)
            },
        },
    }
}

/// Tenants' workspaces are their own: each lies under the tenants' root,
/// named by its tenant's id, so tenants with different ids never share one.
pub proof fn law_workspaces_separate(a: Tenant, b: Tenant)
    requires
        a.workspace_dir@ == "/data/tenants/"@ + a.id@,
        b.workspace_dir@ == "/data/tenants/"@ + b.id@,
        a.id@ != b.id@,
    ensures
        a.workspace_dir@ != b.workspace_dir@,
{
    let p = "/data/tenants/"@;
    assert((p + a.id@).skip(p.len() as int) =~= a.id@);
    assert((p + b.id@).skip(p.len() as int) =~= b.id@);
}

/// A signature that differs from the expected one is refused.
pub fn check_signature(signature: &str, expected: &str) -> (r: Result<(), SaaSError>)
    ensures
        signature@ == expected@ ==> r is Ok,
        signature@ != expected@ ==> (r matches Err(SaaSError::InvalidJwt(m)) && m@
            == "invalid signature"@),
{
    if str_eq(signature, expected) {
        Ok(())
    } else {
        Err(SaaSError::InvalidJwt(owned("invalid signature")))
    }
}

} // verus!
