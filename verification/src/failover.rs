//! Failover between a primary endpoint and backup endpoints.
//!
//! Every failover operation is explicit. Health probes are network calls
//! made outside the library; their outcomes come back here as plain values.

use vstd::prelude::*;
use crate::client::Client;
use crate::error::Error;
use crate::text::owned;
use crate::time::from_secs;

verus! {

/// Available failover strategies.
#[derive(Debug, Clone, Copy, PartialEq, Eq, Structural)]
pub enum FailoverStrategy {
    /// Try backup endpoints in priority order.
    Priority,
    /// Cycle through the backup endpoints.
    RoundRobin,
}

/// Configuration of failover behaviour. The timeout is in nanoseconds.
#[derive(Debug, Clone)]
pub struct FailoverConfig {
    /// Primary endpoint URL.
    pub primary_endpoint: String,
    /// Backup endpoint URLs, in priority order.
    pub backup_endpoints: Vec<String>,
    /// Timeout of endpoint health checks.
    pub timeout: u128,
    /// Maximum retry attempts per endpoint.
    pub max_retries: u32,
    /// Failover strategy.
    pub strategy: FailoverStrategy,
}

/// Whether `c` is the default configuration.
pub open spec fn is_default_failover_config(c: FailoverConfig) -> bool {
    &&& c.primary_endpoint@ == "https://generativelanguage.googleapis.com"@
    &&& c.backup_endpoints@.len() == 0
    &&& c.timeout == 5_000_000_000
    &&& c.max_retries == 3
    &&& c.strategy == FailoverStrategy::Priority
}

impl FailoverConfig {
    /// The default configuration: the public Gemini endpoint, no backups,
    /// 5 s timeout, 3 retries, priority order.
    pub fn default_config() -> (r: Self)
        ensures
            is_default_failover_config(r),
    {
        proof { reveal_strlit("https://generativelanguage.googleapis.com"); }
        FailoverConfig {
            primary_endpoint: owned("https://generativelanguage.googleapis.com"),
            backup_endpoints: Vec::new(),
            timeout: from_secs(5),
            max_retries: 3,
            strategy: FailoverStrategy::Priority,
        }
    }

    /// A builder holding the default configuration.
    pub fn builder() -> (r: FailoverConfigBuilder)
        ensures
            is_default_failover_config(r.config),
    {
        FailoverConfigBuilder::new()
    }
}

impl Default for FailoverConfig {
    /// The default configuration: see [`FailoverConfig::default_config`].
    fn default() -> (r: Self)
        ensures
            is_default_failover_config(r),
    {
        FailoverConfig::default_config()
    }
}

/// Most retries a failover configuration accepts: the retry limit the
/// client's configuration has too.
pub const MAX_FAILOVER_RETRIES: u32 = 50;

/// The first rule a failover configuration breaks, if any.
pub open spec fn failover_config_problem(c: FailoverConfig) -> Option<Seq<char>> {
    if c.primary_endpoint@.len() == 0 {
        Some("Primary endpoint cannot be empty"@)
    } else if c.backup_endpoints@.len() == 0 {
        Some("At least one backup endpoint is required for failover"@)
    } else if c.timeout == 0 {
        Some("Timeout cannot be zero"@)
    } else if c.max_retries == 0 {
        Some("Max retries must be at least 1"@)
    } else if c.max_retries > MAX_FAILOVER_RETRIES {
        Some("Max retries cannot exceed 50"@)
    } else {
        None
    }
}

/// The rules of a failover configuration: it is accepted exactly when it
/// has a primary endpoint, at least one backup, a timeout above zero and
/// from 1 to 50 retries.
pub proof fn law_failover_config_rules(c: FailoverConfig)
    ensures
        failover_config_problem(c) is None <==> (c.primary_endpoint@.len() > 0 && c.backup_endpoints@.len() > 0
            && c.timeout > 0 && 1 <= c.max_retries && c.max_retries <= 50),
{
}

/// Builder for [`FailoverConfig`].
#[derive(Debug, Clone)]
pub struct FailoverConfigBuilder {
    /// The configuration being built.
    pub config: FailoverConfig,
}

impl FailoverConfigBuilder {
    /// A builder holding the default configuration.
    pub fn new() -> (r: Self)
        ensures
            is_default_failover_config(r.config),
    {
        FailoverConfigBuilder { config: FailoverConfig::default_config() }
    }

    /// Sets the primary endpoint.
    pub fn primary_endpoint(self, endpoint: String) -> (r: Self)
        ensures
            r.config.primary_endpoint@ == endpoint@,
            r.config.backup_endpoints@ == self.config.backup_endpoints@,
            r.config.timeout == self.config.timeout,
            r.config.max_retries == self.config.max_retries,
            r.config.strategy == self.config.strategy,
    {
        let mut s = self;
        s.config.primary_endpoint = endpoint;
        s
    }

    /// Appends a backup endpoint.
    pub fn backup_endpoint(self, endpoint: String) -> (r: Self)
        ensures
            r.config.primary_endpoint@ == self.config.primary_endpoint@,
            r.config.backup_endpoints@ == self.config.backup_endpoints@.push(endpoint),
            r.config.timeout == self.config.timeout,
            r.config.max_retries == self.config.max_retries,
            r.config.strategy == self.config.strategy,
    {
        let mut s = self;
        s.config.backup_endpoints.push(endpoint);
        s
    }

    /// Sets the health check timeout, in nanoseconds.
    pub fn timeout(self, timeout: u128) -> (r: Self)
        ensures
            r.config.primary_endpoint@ == self.config.primary_endpoint@,
            r.config.backup_endpoints@ == self.config.backup_endpoints@,
            r.config.timeout == timeout,
            r.config.max_retries == self.config.max_retries,
            r.config.strategy == self.config.strategy,
    {
        let mut s = self;
        s.config.timeout = timeout;
        s
    }

    /// Sets the maximum retry attempts.
    pub fn max_retries(self, retries: u32) -> (r: Self)
        ensures
            r.config.primary_endpoint@ == self.config.primary_endpoint@,
            r.config.backup_endpoints@ == self.config.backup_endpoints@,
            r.config.timeout == self.config.timeout,
            r.config.max_retries == retries,
            r.config.strategy == self.config.strategy,
    {
        let mut s = self;
        s.config.max_retries = retries;
        s
    }

    /// Sets the failover strategy.
    pub fn strategy(self, strategy: FailoverStrategy) -> (r: Self)
        ensures
            r.config.primary_endpoint@ == self.config.primary_endpoint@,
            r.config.backup_endpoints@ == self.config.backup_endpoints@,
            r.config.timeout == self.config.timeout,
            r.config.max_retries == self.config.max_retries,
            r.config.strategy == strategy,
    {
        let mut s = self;
        s.config.strategy = strategy;
        s
    }

    /// Checks a configuration: a primary endpoint, at least one backup, a
    /// non-zero timeout and from 1 to 50 retries.
    pub fn validate_config(config: &FailoverConfig) -> (r: Result<(), Error>)
        ensures
            failover_config_problem(*config) is None ==> r is Ok,
            failover_config_problem(*config) matches Some(msg) ==> crate::error::is_config_error(r, msg),
    {
        proof {
            reveal_strlit("Primary endpoint cannot be empty");
            reveal_strlit("At least one backup endpoint is required for failover");
            reveal_strlit("Timeout cannot be zero");
            reveal_strlit("Max retries must be at least 1");
            reveal_strlit("Max retries cannot exceed 50");
        }
        if config.primary_endpoint.as_str().unicode_len() == 0 {
            return Err(Error::ConfigurationError(owned("Primary endpoint cannot be empty")));
        }
        if config.backup_endpoints.len() == 0 {
            return Err(Error::ConfigurationError(owned("At least one backup endpoint is required for failover")));
        }
        if config.timeout == 0 {
            return Err(Error::ConfigurationError(owned("Timeout cannot be zero")));
        }
        if config.max_retries == 0 {
            return Err(Error::ConfigurationError(owned("Max retries must be at least 1")));
        }
        if config.max_retries > MAX_FAILOVER_RETRIES {
            return Err(Error::ConfigurationError(owned("Max retries cannot exceed 50")));
        }
        Ok(())
    }

    /// Validates and returns the configuration.
    pub fn build(self) -> (r: Result<FailoverConfig, Error>)
        ensures
            failover_config_problem(self.config) is None ==> r == Ok::<FailoverConfig, Error>(self.config),
            failover_config_problem(self.config) matches Some(msg) ==> crate::error::is_config_error(r, msg),
    {
        match Self::validate_config(&self.config) {
            Err(e) => Err(e),
            Ok(()) => Ok(self.config),
        }
    }
}

impl Default for FailoverConfigBuilder {
    /// See [`FailoverConfigBuilder::new`].
    fn default() -> (r: Self)
        ensures
            is_default_failover_config(r.config),
    {
        FailoverConfigBuilder::new()
    }
}

/// Health status of an endpoint.
#[derive(Debug, Clone, Copy, PartialEq, Eq, Structural)]
pub enum HealthStatus {
    /// Endpoint is healthy.
    Healthy,
    /// Endpoint is unhealthy or unresponsive.
    Unhealthy,
    /// Endpoint status is unknown.
    Unknown,
}

/// Health information of one endpoint. Times are in nanoseconds; the check
/// time counts from the Unix epoch.
#[derive(Debug)]
pub struct EndpointHealth {
    /// The endpoint URL.
    pub endpoint: String,
    /// Current health status.
    pub status: HealthStatus,
    /// When the endpoint was last checked.
    pub last_check: u128,
    /// Response time of the last successful request.
    pub response_time: Option<u128>,
    /// Number of consecutive failures.
    pub consecutive_failures: u32,
}

/// Health information with the endpoint as text.
pub struct EndpointHealthView {
    /// The endpoint URL.
    pub endpoint: Seq<char>,
    /// Current health status.
    pub status: HealthStatus,
    /// When the endpoint was last checked.
    pub last_check: u128,
    /// Response time of the last successful request.
    pub response_time: Option<u128>,
    /// Number of consecutive failures.
    pub consecutive_failures: u32,
}

impl View for EndpointHealth {
    type V = EndpointHealthView;

    open spec fn view(&self) -> EndpointHealthView {
        EndpointHealthView {
            endpoint: self.endpoint@,
            status: self.status,
            last_check: self.last_check,
            response_time: self.response_time,
            consecutive_failures: self.consecutive_failures,
        }
    }
}

impl EndpointHealth {
    /// A copy of the record.
    pub fn duplicate(&self) -> (r: Self)
        ensures
            r@ == self@,
    {
        EndpointHealth {
            endpoint: self.endpoint.clone(),
            status: self.status,
            last_check: self.last_check,
            response_time: self.response_time,
            consecutive_failures: self.consecutive_failures,
        }
    }
}

/// The views of a list of health records.
pub open spec fn health_views(v: Seq<EndpointHealth>) -> Seq<EndpointHealthView> {
    v.map_values(|h: EndpointHealth| h@)
}

/// What a health probe of an endpoint observed.
#[derive(Debug, Clone, Copy, PartialEq, Eq, Structural)]
pub enum ProbeOutcome {
    /// The endpoint answered with this HTTP status, after this many nanoseconds.
    Response {
        /// HTTP status code.
        status_code: u16,
        /// Elapsed time since the probe started, when the clock could tell.
        elapsed: Option<u128>,
    },
    /// The request failed.
    Failed,
}

/// Whether an HTTP status is a success (2xx) or a redirection (3xx).
pub open spec fn status_ok(code: u16) -> bool {
    200 <= code < 400
}

/// The health record that a probe of `endpoint` started at `start` yields.
pub open spec fn probe_health(endpoint: Seq<char>, start: u128, outcome: ProbeOutcome) -> EndpointHealthView {
    match outcome {
        ProbeOutcome::Response { status_code, elapsed } => if status_ok(status_code) {
            EndpointHealthView { endpoint, status: HealthStatus::Healthy, last_check: start, response_time: elapsed, consecutive_failures: 0 }
        } else {
            EndpointHealthView { endpoint, status: HealthStatus::Unhealthy, last_check: start, response_time: None, consecutive_failures: 1 }
        },
        ProbeOutcome::Failed =>
            EndpointHealthView { endpoint, status: HealthStatus::Unhealthy, last_check: start, response_time: None, consecutive_failures: 1 },
    }
}

/// Builds the health record of one probe: an answer with a 2xx or 3xx
/// status is healthy, anything else unhealthy with one failure.
pub fn endpoint_health_from_probe(endpoint: &str, start: u128, outcome: ProbeOutcome) -> (r: EndpointHealth)
    ensures
        r@ == probe_health(endpoint@, start, outcome),
{
    let (status, response_time, consecutive_failures) = match outcome {
        ProbeOutcome::Response { status_code, elapsed } => {
            if status_code >= 200 && status_code < 400 {
                (HealthStatus::Healthy, elapsed, 0u32)
            } else {
                (HealthStatus::Unhealthy, None, 1u32)
            }
        },
        ProbeOutcome::Failed => (HealthStatus::Unhealthy, None, 1u32),
    };
    EndpointHealth { endpoint: owned(endpoint), status, last_check: start, response_time, consecutive_failures }
}

/// A probe makes a health record of the endpoint probed, dated at the start
/// of the probe. An answer with a 2xx or 3xx status (200 to 399) is healthy,
/// with the elapsed time as its response time and no failures; any other
/// status (1xx, 4xx, 5xx) and a failed request are unhealthy, with no
/// response time and one failure.
pub proof fn law_probe_health(endpoint: Seq<char>, start: u128, outcome: ProbeOutcome)
    ensures
        probe_health(endpoint, start, outcome).endpoint == endpoint,
        probe_health(endpoint, start, outcome).last_check == start,
        outcome matches ProbeOutcome::Response { status_code, elapsed } ==> {
            let h = probe_health(endpoint, start, outcome);
            if 200 <= status_code && status_code < 400 {
                h.status == HealthStatus::Healthy && h.response_time == elapsed && h.consecutive_failures == 0
            } else {
                h.status == HealthStatus::Unhealthy && h.response_time is None && h.consecutive_failures == 1
            }
        },
        outcome is Failed ==> {
            let h = probe_health(endpoint, start, outcome);
            h.status == HealthStatus::Unhealthy && h.response_time is None && h.consecutive_failures == 1
        },
{
}

/// Result of checking the health of all endpoints.
#[derive(Debug)]
pub struct HealthCheckResult {
    /// Whether the primary endpoint is healthy.
    pub primary_healthy: bool,
    /// Whether some backup endpoint is healthy.
    pub backup_available: bool,
    /// Health of every endpoint, primary first.
    pub endpoint_health: Vec<EndpointHealth>,
    /// Endpoint recommended next.
    pub recommended_endpoint: Option<String>,
}

/// Metrics of failover operations.
#[derive(Debug)]
pub struct FailoverMetrics {
    /// Number of configured endpoints.
    pub total_endpoints: usize,
    /// Number of failovers performed.
    pub failover_count: u64,
    /// Health of the endpoints checked so far.
    pub endpoint_health: Vec<EndpointHealth>,
    /// The endpoint currently in use.
    pub active_endpoint: String,
}

/// Whether no two records of a list name the same endpoint.
pub open spec fn unique_endpoints(v: Seq<EndpointHealthView>) -> bool {
    forall|i: int, j: int| 0 <= i < v.len() && 0 <= j < v.len() && i != j ==> v[i].endpoint != v[j].endpoint
}

/// The stored health records, keyed by endpoint.
pub open spec fn health_map(v: Seq<EndpointHealthView>) -> Map<Seq<char>, EndpointHealthView> {
    Map::new(
        |k: Seq<char>| exists|i: int| 0 <= i < v.len() && v[i].endpoint == k,
        |k: Seq<char>| v[choose|i: int| 0 <= i < v.len() && v[i].endpoint == k],
    )
}

/// The index a round-robin cursor moves to.
pub open spec fn rr_next(i: nat, n: nat) -> nat {
    (i + 1) % n
}

/// Failover management for one client.
#[derive(Debug)]
pub struct FailoverManager {
    /// The client whose settings failover copies.
    pub client: Client,
    /// The configuration.
    pub config: FailoverConfig,
    /// The metrics.
    pub metrics: FailoverMetrics,
    /// Position of the round-robin cursor.
    pub round_robin_index: usize,
    /// Latest health of each endpoint checked, one record per endpoint.
    pub endpoint_health: Vec<EndpointHealth>,
}

/// The message of a request for a backup when none is configured.
pub open spec fn no_backup_message() -> Seq<char> {
    "No backup endpoints configured"@
}

/// What a selection of the next endpoint by `before` returns and where it
/// leaves the round-robin cursor: with no backups an error and the cursor
/// unmoved; in priority order the first backup and the cursor unmoved; in
/// round robin the backup under the cursor, the cursor advancing by one.
pub open spec fn next_endpoint_outcome(before: FailoverManager, after: FailoverManager, r: Result<String, Error>) -> bool {
    let n = before.config.backup_endpoints@.len();
    let i = before.round_robin_index;
    if n == 0 {
        after.round_robin_index == i
            && (r matches Err(e) && (e matches Error::ConfigurationError(m) && m@ == no_backup_message()))
    } else if before.config.strategy == FailoverStrategy::Priority {
        after.round_robin_index == i
            && (r matches Ok(s) && s@ == before.config.backup_endpoints@[0]@)
    } else {
        after.round_robin_index == rr_next(i as nat, n)
            && (r matches Ok(s) && s@ == before.config.backup_endpoints@[(i as nat % n) as int]@)
    }
}

/// The endpoint that selection number `j` (from 0) of a fresh manager with
/// configuration `config` returns.
pub open spec fn nth_selection(config: FailoverConfig, j: int, r: Result<String, Error>) -> bool {
    let b = config.backup_endpoints@;
    if b.len() == 0 {
        r matches Err(e) && (e matches Error::ConfigurationError(m) && m@ == no_backup_message())
    } else if config.strategy == FailoverStrategy::Priority {
        r matches Ok(s) && s@ == b[0]@
    } else {
        r matches Ok(s) && s@ == b[j % (b.len() as int)]@
    }
}

impl FailoverManager {
    /// Well-formedness: the round-robin cursor stays within the backups and
    /// health records are unique per endpoint.
    pub open spec fn wf(&self) -> bool {
        &&& (self.round_robin_index == 0 || self.round_robin_index < self.config.backup_endpoints@.len())
        &&& unique_endpoints(health_views(self.endpoint_health@))
    }

    /// The latest health of each checked endpoint.
    pub open spec fn health(&self) -> Map<Seq<char>, EndpointHealthView> {
        health_map(health_views(self.endpoint_health@))
    }

    /// A manager that starts on the primary endpoint with no failovers.
    pub fn new(client: Client, config: FailoverConfig) -> (r: Self)
        requires
            config.backup_endpoints@.len() < usize::MAX,
        ensures
            r.wf(),
            r.client == client,
            r.config == config,
            r.metrics.total_endpoints == 1 + config.backup_endpoints@.len(),
            r.metrics.failover_count == 0,
            r.metrics.endpoint_health@.len() == 0,
            r.metrics.active_endpoint@ == config.primary_endpoint@,
            r.round_robin_index == 0,
            r.endpoint_health@.len() == 0,
    {
        let total_endpoints = 1 + config.backup_endpoints.len();
        let metrics = FailoverMetrics {
            total_endpoints,
            failover_count: 0,
            endpoint_health: Vec::new(),
            active_endpoint: config.primary_endpoint.clone(),
        };
        FailoverManager { client, config, metrics, round_robin_index: 0, endpoint_health: Vec::new() }
    }

    /// The configuration.
    pub fn current_config(&self) -> (r: &FailoverConfig)
        ensures
            *r == self.config,
    {
        &self.config
    }

    /// The next endpoint to try. Priority order gives the first backup;
    /// round robin gives the backup under the cursor and advances it.
    pub fn get_next_endpoint(&mut self) -> (r: Result<String, Error>)
        requires
            old(self).wf(),
        ensures
            final(self).wf(),
            final(self).client == old(self).client,
            final(self).config == old(self).config,
            final(self).metrics == old(self).metrics,
            final(self).endpoint_health == old(self).endpoint_health,
            next_endpoint_outcome(*old(self), *final(self), r),
    {
        proof { reveal_strlit("No backup endpoints configured"); }
        let backup_count = self.config.backup_endpoints.len();
        if backup_count == 0 {
            return Err(Error::ConfigurationError(owned("No backup endpoints configured")));
        }
        match self.config.strategy {
            FailoverStrategy::Priority => Ok(self.config.backup_endpoints[0].clone()),
            FailoverStrategy::RoundRobin => {
                let index = self.round_robin_index;
                let selected = self.config.backup_endpoints[index % backup_count].clone();
                self.round_robin_index = (index + 1) % backup_count;
                Ok(selected)
            },
        }
    }

    /// The backup to recommend when the primary is down: the first backup.
    pub fn get_next_healthy_endpoint(&self) -> (r: Result<String, Error>)
        ensures
            self.config.backup_endpoints@.len() > 0 ==> (r matches Ok(s) && s@ == self.config.backup_endpoints@[0]@),
            self.config.backup_endpoints@.len() == 0 ==> (r matches Err(e) && (e matches Error::ConfigurationError(m) && m@ == "No backup endpoints available"@)),
    {
        if self.config.backup_endpoints.len() == 0 {
            proof { reveal_strlit("No backup endpoints available"); }
            return Err(Error::ConfigurationError(owned("No backup endpoints available")));
        }
        Ok(self.config.backup_endpoints[0].clone())
    }

    /// Switches to the next backup endpoint: returns a client with the same
    /// key aimed at it, counts the failover and makes it the active endpoint.
    pub fn switch_to_backup(&mut self) -> (r: Result<Client, Error>)
        requires
            old(self).wf(),
            old(self).metrics.failover_count < u64::MAX,
        ensures
            final(self).wf(),
            final(self).config == old(self).config,
            final(self).endpoint_health == old(self).endpoint_health,
            old(self).config.backup_endpoints@.len() == 0 <==> r is Err,
            r matches Err(e) ==> (e matches Error::ConfigurationError(m) && m@ == no_backup_message())
                && final(self).metrics == old(self).metrics,
            r matches Ok(c) ==> ({
                let n = old(self).config.backup_endpoints@.len();
                let i = old(self).round_robin_index;
                let chosen = if old(self).config.strategy == FailoverStrategy::Priority { 0 } else { (i as nat % n) as int };
                &&& c.api_key@ == old(self).client.api_key@
                &&& c.base_url@ == old(self).config.backup_endpoints@[chosen]@
                &&& final(self).metrics.failover_count == old(self).metrics.failover_count + 1
                &&& final(self).metrics.active_endpoint@ == c.base_url@
                &&& final(self).metrics.total_endpoints == old(self).metrics.total_endpoints
                &&& final(self).metrics.endpoint_health == old(self).metrics.endpoint_health
                &&& final(self).round_robin_index == if old(self).config.strategy == FailoverStrategy::Priority { i } else { rr_next(i as nat, n) as usize }
            }),
            r matches Ok(c) ==> next_endpoint_outcome(*old(self), *final(self), Ok::<String, Error>(c.base_url)),
            r matches Err(e) ==> next_endpoint_outcome(*old(self), *final(self), Err::<String, Error>(e)),
    {
        let backup_endpoint = match self.get_next_endpoint() {
            Ok(e) => e,
            Err(e) => return Err(e),
        };
        let backup_client = Client::new(self.client.api_key.clone(), backup_endpoint.clone());
        self.metrics.failover_count = self.metrics.failover_count + 1;
        self.metrics.active_endpoint = backup_endpoint;
        Ok(backup_client)
    }

    /// Stores a health record, replacing the record of the same endpoint.
    pub fn store_health(&mut self, health: EndpointHealth)
        requires
            old(self).wf(),
        ensures
            final(self).wf(),
            final(self).health() == old(self).health().insert(health@.endpoint, health@),
            final(self).client == old(self).client,
            final(self).config == old(self).config,
            final(self).metrics == old(self).metrics,
            final(self).round_robin_index == old(self).round_robin_index,
    {
        let ghost old_v = health_views(self.endpoint_health@);
        let ghost hv = health@;
        let mut i: usize = 0;
        while i < self.endpoint_health.len()
            invariant
                i <= self.endpoint_health@.len(),
                health_views(self.endpoint_health@) == old_v,
                old_v == health_views(old(self).endpoint_health@),
                unique_endpoints(old_v),
                forall|j: int| 0 <= j < i ==> old_v[j].endpoint != hv.endpoint,
                health@ == hv,
                self.client == old(self).client,
                self.config == old(self).config,
                self.metrics == old(self).metrics,
                self.round_robin_index == old(self).round_robin_index,
                old(self).wf(),
            decreases self.endpoint_health@.len() - i,
        {
            if self.endpoint_health[i].endpoint == health.endpoint {
                let ghost pos = i as int;
                assert(old_v[pos].endpoint == hv.endpoint);
                self.endpoint_health.set(i, health);
                proof {
                    let new_v = health_views(self.endpoint_health@);
                    assert(new_v =~= old_v.update(pos, hv));
                    assert(unique_endpoints(new_v));
                    assert(health_map(new_v) =~= health_map(old_v).insert(hv.endpoint, hv)) by {
                        assert forall|k: Seq<char>| #[trigger] health_map(new_v).contains_key(k)
                            <==> health_map(old_v).insert(hv.endpoint, hv).contains_key(k) by {
                            if k == hv.endpoint {
                                assert(new_v[pos].endpoint == k);
                                assert(old_v[pos].endpoint == k);
                            } else {
                                if health_map(old_v).contains_key(k) {
                                    let w = choose|w: int| 0 <= w < old_v.len() && old_v[w].endpoint == k;
                                    assert(new_v[w].endpoint == k);
                                }
                                if health_map(new_v).contains_key(k) {
                                    let w = choose|w: int| 0 <= w < new_v.len() && new_v[w].endpoint == k;
                                    assert(old_v[w].endpoint == k);
                                }
                            }
                        }
                        assert forall|k: Seq<char>| #[trigger] health_map(new_v).contains_key(k)
                            implies health_map(new_v)[k] == health_map(old_v).insert(hv.endpoint, hv)[k] by {
                            let w = choose|w: int| 0 <= w < new_v.len() && new_v[w].endpoint == k;
                            if k == hv.endpoint {
                                assert(w == pos);
                            } else {
                                let w2 = choose|w2: int| 0 <= w2 < old_v.len() && old_v[w2].endpoint == k;
                                assert(w2 == w);
                            }
                        }
                    }
                    assert(self.health() == old(self).health().insert(hv.endpoint, hv));
                }
                return;
            }
            i = i + 1;
        }
        self.endpoint_health.push(health);
        proof {
            let new_v = health_views(self.endpoint_health@);
            let n = old_v.len() as int;
            assert(new_v =~= old_v.push(hv));
            assert(unique_endpoints(new_v));
            assert(health_map(new_v) =~= health_map(old_v).insert(hv.endpoint, hv)) by {
                assert forall|k: Seq<char>| #[trigger] health_map(new_v).contains_key(k)
                    <==> health_map(old_v).insert(hv.endpoint, hv).contains_key(k) by {
                    if k == hv.endpoint {
                        assert(new_v[n].endpoint == k);
                    } else {
                        if health_map(old_v).contains_key(k) {
                            let w = choose|w: int| 0 <= w < old_v.len() && old_v[w].endpoint == k;
                            assert(new_v[w].endpoint == k);
                        }
                        if health_map(new_v).contains_key(k) {
                            let w = choose|w: int| 0 <= w < new_v.len() && new_v[w].endpoint == k;
                            assert(old_v[w].endpoint == k);
                        }
                    }
                }
                assert forall|k: Seq<char>| #[trigger] health_map(new_v).contains_key(k)
                    implies health_map(new_v)[k] == health_map(old_v).insert(hv.endpoint, hv)[k] by {
                    let w = choose|w: int| 0 <= w < new_v.len() && new_v[w].endpoint == k;
                    if k == hv.endpoint {
                        assert(w == n);
                    } else {
                        let w2 = choose|w2: int| 0 <= w2 < old_v.len() && old_v[w2].endpoint == k;
                        assert(w2 == w);
                    }
                }
            }
        }
    }

    /// The metrics, with the stored health records of all checked endpoints.
    pub fn get_metrics(&mut self) -> (r: FailoverMetrics)
        requires
            old(self).wf(),
        ensures
            final(self).wf(),
            r.total_endpoints == old(self).metrics.total_endpoints,
            r.failover_count == old(self).metrics.failover_count,
            r.active_endpoint@ == old(self).metrics.active_endpoint@,
            health_views(r.endpoint_health@) == health_views(old(self).endpoint_health@),
            health_views(final(self).metrics.endpoint_health@) == health_views(old(self).endpoint_health@),
            final(self).endpoint_health == old(self).endpoint_health,
            final(self).config == old(self).config,
            final(self).round_robin_index == old(self).round_robin_index,
    {
        let mut copy1: Vec<EndpointHealth> = Vec::new();
        let mut copy2: Vec<EndpointHealth> = Vec::new();
        let mut i: usize = 0;
        while i < self.endpoint_health.len()
            invariant
                i <= self.endpoint_health@.len(),
                copy1@.len() == i,
                copy2@.len() == i,
                forall|j: int| 0 <= j < i ==> (#[trigger] copy1@[j])@ == self.endpoint_health@[j]@,
                forall|j: int| 0 <= j < i ==> (#[trigger] copy2@[j])@ == self.endpoint_health@[j]@,
            decreases self.endpoint_health@.len() - i,
        {
            copy1.push(self.endpoint_health[i].duplicate());
            copy2.push(self.endpoint_health[i].duplicate());
            i = i + 1;
        }
        proof {
            assert(health_views(copy1@) =~= health_views(self.endpoint_health@));
            assert(health_views(copy2@) =~= health_views(self.endpoint_health@));
        }
        self.metrics.endpoint_health = copy1;
        FailoverMetrics {
            total_endpoints: self.metrics.total_endpoints,
            failover_count: self.metrics.failover_count,
            endpoint_health: copy2,
            active_endpoint: self.metrics.active_endpoint.clone(),
        }
    }

    /// The decisions of a health check of all endpoints, given the probe
    /// records of the primary and of each backup in order: each record is
    /// stored, and when the primary is down while a backup is up the first
    /// backup is recommended.
    pub fn check_endpoint_health(&mut self, primary: EndpointHealth, backups: Vec<EndpointHealth>) -> (r: HealthCheckResult)
        requires
            old(self).wf(),
        ensures
            final(self).wf(),
            r.primary_healthy == (primary.status == HealthStatus::Healthy),
            r.backup_available == (exists|i: int| 0 <= i < backups@.len() && #[trigger] backups@[i].status == HealthStatus::Healthy),
            health_views(r.endpoint_health@) == seq![primary@] + health_views(backups@),
            (!r.primary_healthy && r.backup_available && old(self).config.backup_endpoints@.len() > 0)
                ==> (r.recommended_endpoint matches Some(s) && s@ == old(self).config.backup_endpoints@[0]@),
            !(!r.primary_healthy && r.backup_available && old(self).config.backup_endpoints@.len() > 0)
                ==> r.recommended_endpoint is None,
            final(self).config == old(self).config,
            final(self).round_robin_index == old(self).round_robin_index,
            final(self).metrics == old(self).metrics,
    {
        let primary_healthy = primary.status == HealthStatus::Healthy;
        let mut all: Vec<EndpointHealth> = Vec::new();
        self.store_health(primary.duplicate());
        all.push(primary);
        let mut backup_available = false;
        let mut i: usize = 0;
        while i < backups.len()
            invariant
                self.wf(),
                self.config == old(self).config,
                self.round_robin_index == old(self).round_robin_index,
                self.metrics == old(self).metrics,
                i <= backups@.len(),
                health_views(all@) == seq![primary@] + health_views(backups@.subrange(0, i as int)),
                backup_available == (exists|j: int| 0 <= j < i && #[trigger] backups@[j].status == HealthStatus::Healthy),
            decreases backups@.len() - i,
        {
            if backups[i].status == HealthStatus::Healthy {
                backup_available = true;
            }
            let ghost before_all = all@;
            self.store_health(backups[i].duplicate());
            all.push(backups[i].duplicate());
            proof {
                assert(health_views(backups@.subrange(0, i + 1)) =~= health_views(backups@.subrange(0, i as int)).push(backups@[i as int]@));
                assert(health_views(all@) =~= health_views(before_all).push(backups@[i as int]@));
                assert(health_views(all@) =~= seq![primary@] + health_views(backups@.subrange(0, i + 1)));
            }
            i = i + 1;
        }
        proof {
            assert(backups@.subrange(0, backups@.len() as int) =~= backups@);
        }
        let recommended_endpoint = if !primary_healthy && backup_available {
            match self.get_next_healthy_endpoint() {
                Ok(s) => Some(s),
                Err(_) => None,
            }
        } else {
            None
        };
        HealthCheckResult { primary_healthy, backup_available, endpoint_health: all, recommended_endpoint }
    }
}

/// Builds a failover manager for a client.
#[derive(Debug)]
pub struct FailoverBuilder {
    /// The client.
    pub client: Client,
}

impl FailoverBuilder {
    /// A builder for `client`.
    pub fn new(client: Client) -> (r: Self)
        ensures
            r.client == client,
    {
        FailoverBuilder { client }
    }

    /// A manager for the client with configuration `config`.
    pub fn configure(self, config: FailoverConfig) -> (r: FailoverManager)
        requires
            config.backup_endpoints@.len() < usize::MAX,
        ensures
            r.wf(),
            r.client == self.client,
            r.config == config,
            r.metrics.failover_count == 0,
            r.metrics.active_endpoint@ == config.primary_endpoint@,
            r.round_robin_index == 0,
    {
        FailoverManager::new(self.client, config)
    }
}

/// The cursor position after `k` round-robin selections starting at `i`.
pub open spec fn rr_after(i: nat, n: nat, k: nat) -> nat
    decreases k,
{
    if k == 0 { i } else { rr_next(rr_after(i, n, (k - 1) as nat), n) }
}

/// Round robin visits the backups cyclically: after `k` selections from
/// cursor `i` the cursor stands at `(i + k) mod n`, so the selection made
/// after them returns backup `(i + k) mod n`; after `n` selections the cursor
/// is back where it started.
pub proof fn law_round_robin_cycles(i: nat, n: nat, k: nat)
    requires
        n > 0,
        i < n,
    ensures
        rr_after(i, n, k) == (i + k) % n,
        rr_after(i, n, n) == i,
{
    lemma_rr_after_from_valid(i, n, k);
    lemma_rr_after_from_valid(i, n, n);
    vstd::arithmetic::div_mod::lemma_mod_add_multiples_vanish(i as int, n as int);
    vstd::arithmetic::div_mod::lemma_small_mod(i, n);
}

proof fn lemma_rr_after_from_valid(i: nat, n: nat, k: nat)
    requires
        n > 0,
        i < n,
    ensures
        rr_after(i, n, k) == (i + k) % n,
    decreases k,
{
    if k > 0 {
        lemma_rr_after_from_valid(i, n, (k - 1) as nat);
        vstd::arithmetic::div_mod::lemma_add_mod_noop_right(1, (i + k - 1) as int, n as int);
    } else {
        vstd::arithmetic::div_mod::lemma_small_mod(i, n);
    }
}

/// Successive selections from a fresh manager (cursor at 0), each made on
/// the manager the one before left, which keeps the configuration, by
/// [`FailoverManager::get_next_endpoint`] or by
/// [`FailoverManager::switch_to_backup`] (whose selection is the base URL
/// of the client it returns): with no backups each fails; in priority order
/// each returns the first backup; in round robin selection `j` returns
/// backup `j mod n` of the `n` backups.
pub proof fn law_selections_from_fresh_manager(ms: Seq<FailoverManager>, rs: Seq<Result<String, Error>>)
    requires
        ms.len() == rs.len() + 1,
        ms[0].round_robin_index == 0,
        forall|j: int| 0 <= j < rs.len() ==> (#[trigger] ms[j + 1]).config == ms[j].config,
        forall|j: int| 0 <= j < rs.len() ==> #[trigger] next_endpoint_outcome(ms[j], ms[j + 1], rs[j]),
    ensures
        forall|j: int| 0 <= j < rs.len() ==> #[trigger] nth_selection(ms[0].config, j, rs[j]),
{
    assert forall|j: int| 0 <= j < rs.len() implies #[trigger] nth_selection(ms[0].config, j, rs[j]) by {
        lemma_cursor_after(ms, rs, j);
        assert(next_endpoint_outcome(ms[j], ms[j + 1], rs[j]));
        let n = ms[0].config.backup_endpoints@.len();
        if n > 0 && ms[0].config.strategy != FailoverStrategy::Priority {
            vstd::arithmetic::div_mod::lemma_small_mod((j % (n as int)) as nat, n);
        }
    }
}

proof fn lemma_cursor_after(ms: Seq<FailoverManager>, rs: Seq<Result<String, Error>>, j: int)
    requires
        ms.len() == rs.len() + 1,
        ms[0].round_robin_index == 0,
        forall|j: int| 0 <= j < rs.len() ==> (#[trigger] ms[j + 1]).config == ms[j].config,
        forall|j: int| 0 <= j < rs.len() ==> #[trigger] next_endpoint_outcome(ms[j], ms[j + 1], rs[j]),
        0 <= j <= rs.len(),
    ensures
        ms[j].config == ms[0].config,
        ({
            let n = ms[0].config.backup_endpoints@.len();
            if n > 0 && ms[0].config.strategy != FailoverStrategy::Priority {
                ms[j].round_robin_index == j % (n as int)
            } else {
                ms[j].round_robin_index == 0
            }
        }),
    decreases j,
{
    if j > 0 {
        lemma_cursor_after(ms, rs, j - 1);
        assert(ms[(j - 1) + 1].config == ms[j - 1].config);
        assert(next_endpoint_outcome(ms[j - 1], ms[(j - 1) + 1], rs[j - 1]));
        let n = ms[0].config.backup_endpoints@.len();
        if n > 0 && ms[0].config.strategy != FailoverStrategy::Priority {
            vstd::arithmetic::div_mod::lemma_add_mod_noop_right(1, j - 1, n as int);
        }
    } else if ms[0].config.backup_endpoints@.len() > 0 {
        vstd::arithmetic::div_mod::lemma_small_mod(0, ms[0].config.backup_endpoints@.len());
    }
}

} // verus!
