//! Runtime configuration of the server, and the plan of layers that the
//! server derives from it.

use vstd::prelude::*;

verus! {

/// The socket address the server listens on: an IPv4 address and port, or
/// an IPv6 address and port with its flow label and scope id.
#[derive(Debug, Clone, Copy, PartialEq, Eq)]
pub enum BindAddress {
    V4 { ip: [u8; 4], port: u16 },
    V6 { ip: [u16; 8], port: u16, flowinfo: u32, scope_id: u32 },
}

/// A span of time: whole seconds and the nanoseconds below one second.
#[derive(Debug, Clone, Copy, PartialEq, Eq)]
pub struct TimeLimit {
    secs: u64,
    nanos: u32,
}

impl TimeLimit {
    #[verifier::type_invariant]
    spec fn nanos_below_one_second(self) -> bool {
        self.nanos < 1_000_000_000
    }

    /// The whole seconds of the span.
    pub closed spec fn secs_of(self) -> nat {
        self.secs as nat
    }

    /// The nanoseconds of the span below one whole second.
    pub closed spec fn subsec_nanos_of(self) -> nat {
        self.nanos as nat
    }

    /// The length of the span in nanoseconds.
    pub open spec fn total_nanos(self) -> int {
        (self.secs_of() * 1_000_000_000 + self.subsec_nanos_of()) as int
    }

    /// A span of `secs` whole seconds.
    pub fn from_secs(secs: u64) -> (res: Self)
        ensures
            res.secs_of() == secs,
            res.subsec_nanos_of() == 0,
    {
        TimeLimit { secs, nanos: 0 }
    }

    /// A span of `millis` milliseconds.
    pub fn from_millis(millis: u64) -> (res: Self)
        ensures
            res.secs_of() == millis / 1000,
            res.subsec_nanos_of() == (millis % 1000) * 1_000_000,
            res.total_nanos() == millis * 1_000_000,
    {
        let nanos: u32 = ((millis % 1000) as u32) * 1_000_000;
        TimeLimit { secs: millis / 1000, nanos }
    }

    /// A span of `nanos` nanoseconds.
    pub fn from_nanos(nanos: u64) -> (res: Self)
        ensures
            res.secs_of() == nanos / 1_000_000_000,
            res.subsec_nanos_of() == nanos % 1_000_000_000,
            res.total_nanos() == nanos,
    {
        TimeLimit { secs: nanos / 1_000_000_000, nanos: (nanos % 1_000_000_000) as u32 }
    }

    /// The whole seconds of the span.
    pub fn as_secs(&self) -> (res: u64)
        ensures
            res == self.secs_of(),
    {
        self.secs
    }

    /// The nanoseconds of the span below one whole second.
    pub fn subsec_nanos(&self) -> (res: u32)
        ensures
            res == self.subsec_nanos_of(),
            res < 1_000_000_000,
    {
        proof {
            use_type_invariant(self);
        }
        self.nanos
    }
}

/// Runtime configuration.
#[derive(Debug, Clone)]
pub struct ServerConfig {
    /// Where the server listens.
    pub bind: BindAddress,
    /// Largest request body accepted, in bytes.
    pub max_body_bytes: usize,
    /// Per-IP token-bucket replenish rate; `0` disables rate limiting.
    pub requests_per_minute: u32,
    /// Per-IP burst size; `0` disables rate limiting.
    pub rate_burst: u32,
    /// Global cap on in-flight renders; `0` disables the cap.
    pub max_concurrent_renders: usize,
    /// Deadline for a single render.
    pub render_timeout: TimeLimit,
    /// Deadline for a whole request.
    pub request_timeout: TimeLimit,
    /// When set, `/svg/*` requests must carry this token.
    pub api_token: Option<String>,
    /// Whether forwarding headers name the client for rate limiting.
    pub trust_forwarded_for: bool,
}

/// The values that every configuration built from the defaults shares:
/// a 64 KiB body limit, no token and no trust in forwarding headers.
pub open spec fn has_default_limits(c: ServerConfig) -> bool {
    &&& c.max_body_bytes == 65536
    &&& c.api_token is None
    &&& !c.trust_forwarded_for
}

impl Default for ServerConfig {
    /// Listens on `0.0.0.0:3000`, allows 60 requests per minute with a
    /// burst of 20, at most 16 concurrent renders, a 10 s render timeout and
    /// a 15 s request timeout.
    fn default() -> (res: Self)
        ensures
            res.bind == (BindAddress::V4 { ip: [0, 0, 0, 0], port: 3000 }),
            has_default_limits(res),
            res.requests_per_minute == 60,
            res.rate_burst == 20,
            res.max_concurrent_renders == 16,
            res.render_timeout.total_nanos() == 10_000_000_000,
            res.request_timeout.total_nanos() == 15_000_000_000,
    {
        ServerConfig {
            bind: BindAddress::V4 { ip: [0, 0, 0, 0], port: 3000 },
            max_body_bytes: 64 * 1024,
            requests_per_minute: 60,
            rate_burst: 20,
            max_concurrent_renders: 16,
            render_timeout: TimeLimit::from_secs(10),
            request_timeout: TimeLimit::from_secs(15),
            api_token: None,
            trust_forwarded_for: false,
        }
    }
}

impl ServerConfig {
    /// Test configuration: an ephemeral port on the loopback address and
    /// every gate disabled, with a 5 s render and a 10 s request timeout.
    pub fn for_tests() -> (res: Self)
        ensures
            res.bind == (BindAddress::V4 { ip: [127, 0, 0, 1], port: 0 }),
            has_default_limits(res),
            res.requests_per_minute == 0,
            res.rate_burst == 0,
            res.max_concurrent_renders == 0,
            res.render_timeout.total_nanos() == 5_000_000_000,
            res.request_timeout.total_nanos() == 10_000_000_000,
    {
        ServerConfig {
            bind: BindAddress::V4 { ip: [127, 0, 0, 1], port: 0 },
            requests_per_minute: 0,
            rate_burst: 0,
            max_concurrent_renders: 0,
            render_timeout: TimeLimit::from_secs(5),
            request_timeout: TimeLimit::from_secs(10),
            ..Self::default()
        }
    }
}

/// The token-bucket parameters of the per-IP rate limit.
#[derive(Debug, Clone, Copy, PartialEq, Eq)]
pub struct RateLimitPlan {
    /// One token is replenished every `period_ms` milliseconds.
    pub period_ms: u64,
    /// Tokens available back to back.
    pub burst: u32,
    /// Whether the client is named by forwarding headers rather than by the peer address.
    pub trust_forwarded_for: bool,
}

/// The replenish period, in milliseconds, for a rate in requests per minute.
pub open spec fn period_ms_for(requests_per_minute: u32) -> int {
    let p = 60_000int / (requests_per_minute as int);
    if p >= 1 {
        p
    } else {
        1
    }
}

/// The rate limit for a configuration with a non-zero rate: one token every
/// `60000 / requests_per_minute` milliseconds (at least one), with a burst
/// of `rate_burst` (at least one).
pub fn rate_limit_plan(config: &ServerConfig) -> (res: RateLimitPlan)
    requires
        config.requests_per_minute > 0,
    ensures
        res.period_ms == period_ms_for(config.requests_per_minute),
        res.burst == if config.rate_burst >= 1 {
            config.rate_burst
        } else {
            1
        },
        res.trust_forwarded_for == config.trust_forwarded_for,
        res.period_ms >= 1,
        res.burst >= 1,
{
    let p: u64 = 60_000 / (config.requests_per_minute as u64);
    let period_ms: u64 = if p >= 1 {
        p
    } else {
        1
    };
    let burst: u32 = if config.rate_burst >= 1 {
        config.rate_burst
    } else {
        1
    };
    RateLimitPlan { period_ms, burst, trust_forwarded_for: config.trust_forwarded_for }
}

/// The layers the server puts around its routes.
#[derive(Debug)]
pub struct LayerPlan {
    /// The global cap on in-flight renders, if any.
    pub concurrency_limit: Option<usize>,
    /// Whether `/svg/*` requests must carry the configured token.
    pub token_gate: bool,
    /// Largest request body accepted, in bytes.
    pub body_limit: usize,
    /// Deadline for a whole request.
    pub request_timeout: TimeLimit,
    /// The per-IP rate limit, if any.
    pub rate_limit: Option<RateLimitPlan>,
}

/// The layers a configuration calls for: a concurrency cap when
/// `max_concurrent_renders` is non-zero, the token gate when a token is set,
/// and a rate limit when both the rate and the burst are non-zero.
pub fn layer_plan(config: &ServerConfig) -> (res: LayerPlan)
    ensures
        res.concurrency_limit == if config.max_concurrent_renders > 0 {
            Some(config.max_concurrent_renders)
        } else {
            None
        },
        res.token_gate == config.api_token.is_some(),
        res.body_limit == config.max_body_bytes,
        res.request_timeout == config.request_timeout,
        res.rate_limit is Some == (config.requests_per_minute > 0 && config.rate_burst > 0),
        res.rate_limit matches Some(r) ==> {
            &&& r.period_ms == period_ms_for(config.requests_per_minute)
            &&& r.burst == config.rate_burst
            &&& r.trust_forwarded_for == config.trust_forwarded_for
        },
{
    let concurrency_limit = if config.max_concurrent_renders > 0 {
        Some(config.max_concurrent_renders)
    } else {
        None
    };
    let rate_limit = if config.requests_per_minute > 0 && config.rate_burst > 0 {
        Some(rate_limit_plan(config))
    } else {
        None
    };
    LayerPlan {
        concurrency_limit,
        token_gate: config.api_token.is_some(),
        body_limit: config.max_body_bytes,
        request_timeout: config.request_timeout,
        rate_limit,
    }
}

/// The replenish period never lets a client fall below the configured rate:
/// with one token every `period_ms_for(rpm)` milliseconds, a minute holds at
/// least `rpm` tokens, and one millisecond more per token would hold fewer.
pub proof fn law_period_honours_rate(rpm: u32)
    requires
        0 < rpm <= 60_000,
    ensures
        period_ms_for(rpm) * rpm <= 60_000,
        (period_ms_for(rpm) + 1) * rpm > 60_000,
{
    let r = rpm as int;
    let q = 60_000int / r;
    assert(q * r <= 60_000 && 60_000 < (q + 1) * r) by (nonlinear_arith)
        requires
            r > 0,
            q == 60_000int / r,
    {
        vstd::arithmetic::div_mod::lemma_fundamental_div_mod(60_000int, r);
        vstd::arithmetic::div_mod::lemma_mod_bound(60_000int, r);
    }
    assert(q >= 1) by (nonlinear_arith)
        requires
            r > 0,
            r <= 60_000,
            q * r <= 60_000,
            60_000 < (q + 1) * r,
    ;
}

} // verus!
