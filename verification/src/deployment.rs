//! Deployment health checks, monitoring, metrics, optimisation findings and
//! container configuration.
//!
//! Percentages are kept scaled by 100 as integers (`9050` is 90.50%), as the
//! deployment metrics store them.

use std::collections::HashMap;
use vstd::prelude::*;
use crate::error::Error;
use crate::text::{owned, concat3, concat2, decimal, u64_to_decimal};
use crate::time::from_secs;
use crate::clock::now_micros;

verus! {

/// Health check configuration of a deployment. Durations are in nanoseconds.
#[derive(Debug, Clone)]
pub struct DeploymentHealthCheckConfig {
    /// Health check endpoint.
    pub endpoint: String,
    /// Interval between checks.
    pub interval: u128,
    /// Request timeout.
    pub timeout: u128,
    /// Consecutive failures before the deployment counts as unhealthy.
    pub failure_threshold: usize,
    /// Consecutive successes before the deployment counts as healthy.
    pub success_threshold: usize,
}

/// Whether `c` is the default health check configuration.
pub open spec fn is_default_health_check(c: DeploymentHealthCheckConfig) -> bool {
    &&& c.endpoint@ == "/health"@
    &&& c.interval == 30_000_000_000
    &&& c.timeout == 5_000_000_000
    &&& c.failure_threshold == 3
    &&& c.success_threshold == 1
}

impl DeploymentHealthCheckConfig {
    /// The default: `/health` every 30 s, 5 s timeout, 3 failures, 1 success.
    pub fn default_config() -> (r: Self)
        ensures
            is_default_health_check(r),
    {
        proof { reveal_strlit("/health"); }
        DeploymentHealthCheckConfig {
            endpoint: owned("/health"),
            interval: from_secs(30),
            timeout: from_secs(5),
            failure_threshold: 3,
            success_threshold: 1,
        }
    }

    /// A builder holding the default configuration.
    pub fn builder() -> (r: DeploymentHealthCheckConfigBuilder)
        ensures
            is_default_health_check(r.config),
    {
        DeploymentHealthCheckConfigBuilder::new()
    }
}

impl Default for DeploymentHealthCheckConfig {
    /// See [`DeploymentHealthCheckConfig::default_config`].
    fn default() -> (r: Self)
        ensures
            is_default_health_check(r),
    {
        DeploymentHealthCheckConfig::default_config()
    }
}

/// Builder for [`DeploymentHealthCheckConfig`].
#[derive(Debug, Clone)]
pub struct DeploymentHealthCheckConfigBuilder {
    /// The configuration being built.
    pub config: DeploymentHealthCheckConfig,
}

impl DeploymentHealthCheckConfigBuilder {
    /// A builder holding the default configuration.
    pub fn new() -> (r: Self)
        ensures
            is_default_health_check(r.config),
    {
        DeploymentHealthCheckConfigBuilder { config: DeploymentHealthCheckConfig::default_config() }
    }

    /// Sets the endpoint.
    pub fn endpoint(self, endpoint: &str) -> (r: Self)
        ensures
            r.config.endpoint@ == endpoint@,
            r.config.interval == self.config.interval,
            r.config.timeout == self.config.timeout,
            r.config.failure_threshold == self.config.failure_threshold,
            r.config.success_threshold == self.config.success_threshold,
    {
        let mut s = self;
        s.config.endpoint = owned(endpoint);
        s
    }

    /// Sets the interval, in nanoseconds.
    pub fn interval(self, interval: u128) -> (r: Self)
        ensures
            r.config == (DeploymentHealthCheckConfig { interval, ..self.config }),
    {
        let mut s = self;
        s.config.interval = interval;
        s
    }

    /// Sets the timeout, in nanoseconds.
    pub fn timeout(self, timeout: u128) -> (r: Self)
        ensures
            r.config == (DeploymentHealthCheckConfig { timeout, ..self.config }),
    {
        let mut s = self;
        s.config.timeout = timeout;
        s
    }

    /// Sets the failure threshold.
    pub fn failure_threshold(self, threshold: usize) -> (r: Self)
        ensures
            r.config == (DeploymentHealthCheckConfig { failure_threshold: threshold, ..self.config }),
    {
        let mut s = self;
        s.config.failure_threshold = threshold;
        s
    }

    /// Sets the success threshold.
    pub fn success_threshold(self, threshold: usize) -> (r: Self)
        ensures
            r.config == (DeploymentHealthCheckConfig { success_threshold: threshold, ..self.config }),
    {
        let mut s = self;
        s.config.success_threshold = threshold;
        s
    }

    /// Validates and returns the configuration: the endpoint must not be empty.
    pub fn build(self) -> (r: Result<DeploymentHealthCheckConfig, Error>)
        ensures
            self.config.endpoint@.len() > 0 ==> r == Ok::<DeploymentHealthCheckConfig, Error>(self.config),
            self.config.endpoint@.len() == 0 ==> crate::error::is_config_error(r, "Health check endpoint cannot be empty"@),
    {
        if self.config.endpoint.as_str().unicode_len() == 0 {
            proof { reveal_strlit("Health check endpoint cannot be empty"); }
            return Err(Error::ConfigurationError(owned("Health check endpoint cannot be empty")));
        }
        Ok(self.config)
    }
}

impl Default for DeploymentHealthCheckConfigBuilder {
    /// See [`DeploymentHealthCheckConfigBuilder::new`].
    fn default() -> (r: Self)
        ensures
            is_default_health_check(r.config),
    {
        DeploymentHealthCheckConfigBuilder::new()
    }
}

/// Monitoring configuration. The interval is in nanoseconds.
#[derive(Debug, Clone)]
pub struct MonitoringConfig {
    /// Whether to collect metrics.
    pub enable_metrics: bool,
    /// Metrics collection interval.
    pub metrics_interval: u128,
    /// Whether to log.
    pub enable_logging: bool,
    /// Log level.
    pub log_level: String,
    /// Whether to alert on errors.
    pub alert_on_errors: bool,
    /// Custom metric labels.
    pub metric_labels: HashMap<String, String>,
}

/// Whether `c` is the default monitoring configuration.
pub open spec fn is_default_monitoring(c: MonitoringConfig) -> bool {
    &&& c.enable_metrics
    &&& c.metrics_interval == 60_000_000_000
    &&& c.enable_logging
    &&& c.log_level@ == "INFO"@
    &&& c.alert_on_errors
    &&& c.metric_labels@.len() == 0
}

impl MonitoringConfig {
    /// The default: metrics every 60 s, logging at `INFO`, alerts on, no labels.
    pub fn default_config() -> (r: Self)
        ensures
            is_default_monitoring(r),
    {
        proof { reveal_strlit("INFO"); }
        MonitoringConfig {
            enable_metrics: true,
            metrics_interval: from_secs(60),
            enable_logging: true,
            log_level: owned("INFO"),
            alert_on_errors: true,
            metric_labels: HashMap::new(),
        }
    }

    /// A builder holding the default configuration.
    pub fn builder() -> (r: MonitoringConfigBuilder)
        ensures
            is_default_monitoring(r.config),
    {
        MonitoringConfigBuilder::new()
    }
}

impl Default for MonitoringConfig {
    /// See [`MonitoringConfig::default_config`].
    fn default() -> (r: Self)
        ensures
            is_default_monitoring(r),
    {
        MonitoringConfig::default_config()
    }
}

/// Builder for [`MonitoringConfig`].
#[derive(Debug, Clone)]
pub struct MonitoringConfigBuilder {
    /// The configuration being built.
    pub config: MonitoringConfig,
}

impl MonitoringConfigBuilder {
    /// A builder holding the default configuration.
    pub fn new() -> (r: Self)
        ensures
            is_default_monitoring(r.config),
    {
        MonitoringConfigBuilder { config: MonitoringConfig::default_config() }
    }

    /// Enables or disables metrics.
    pub fn enable_metrics(self, enable: bool) -> (r: Self)
        ensures
            r.config == (MonitoringConfig { enable_metrics: enable, ..self.config }),
    {
        let mut s = self;
        s.config.enable_metrics = enable;
        s
    }

    /// Sets the metrics interval, in nanoseconds.
    pub fn metrics_interval(self, interval: u128) -> (r: Self)
        ensures
            r.config == (MonitoringConfig { metrics_interval: interval, ..self.config }),
    {
        let mut s = self;
        s.config.metrics_interval = interval;
        s
    }

    /// Enables or disables logging.
    pub fn enable_logging(self, enable: bool) -> (r: Self)
        ensures
            r.config == (MonitoringConfig { enable_logging: enable, ..self.config }),
    {
        let mut s = self;
        s.config.enable_logging = enable;
        s
    }

    /// Sets the log level.
    pub fn log_level(self, level: String) -> (r: Self)
        ensures
            r.config == (MonitoringConfig { log_level: level, ..self.config }),
    {
        let mut s = self;
        s.config.log_level = level;
        s
    }

    /// Enables or disables error alerts.
    pub fn alert_on_errors(self, alert: bool) -> (r: Self)
        ensures
            r.config == (MonitoringConfig { alert_on_errors: alert, ..self.config }),
    {
        let mut s = self;
        s.config.alert_on_errors = alert;
        s
    }

    /// Replaces the metric labels.
    pub fn metric_labels(self, labels: HashMap<String, String>) -> (r: Self)
        ensures
            r.config == (MonitoringConfig { metric_labels: labels, ..self.config }),
    {
        let mut s = self;
        s.config.metric_labels = labels;
        s
    }

    /// Returns the configuration; every monitoring configuration is accepted.
    pub fn build(self) -> (r: Result<MonitoringConfig, Error>)
        ensures
            r == Ok::<MonitoringConfig, Error>(self.config),
    {
        Ok(self.config)
    }
}

impl Default for MonitoringConfigBuilder {
    /// See [`MonitoringConfigBuilder::new`].
    fn default() -> (r: Self)
        ensures
            is_default_monitoring(r.config),
    {
        MonitoringConfigBuilder::new()
    }
}

/// Counter increment with wrap-around, as `fetch_add` performs it.
pub open spec fn wrap_inc(x: u64) -> u64 {
    if x == u64::MAX { 0 } else { (x + 1) as u64 }
}

/// Metrics of a deployment. Percentages and rates are scaled by 100;
/// times are in microseconds, timestamps since the Unix epoch.
#[derive(Debug, Clone, Copy)]
pub struct DeploymentMetrics {
    /// Number of active instances.
    pub instance_count: usize,
    /// CPU utilisation percentage, scaled by 100.
    pub cpu_utilization_scaled: u64,
    /// Memory utilisation percentage, scaled by 100.
    pub memory_utilization_scaled: u64,
    /// Requests per second, scaled by 100.
    pub request_rate_scaled: u64,
    /// Error rate percentage, scaled by 100.
    pub error_rate_scaled: u64,
    /// Average response time.
    pub response_time_us: u64,
    /// Uptime percentage, scaled by 100.
    pub uptime_percentage_scaled: u64,
    /// Requests processed.
    pub total_requests: u64,
    /// Errors encountered.
    pub total_errors: u64,
    /// Last update.
    pub last_updated_us: u64,
    /// Start of the deployment.
    pub deployment_start_us: u64,
}

/// Fresh metrics of a deployment started at `now`.
pub open spec fn fresh_metrics(m: DeploymentMetrics, now: u64) -> bool {
    &&& m.instance_count == 0
    &&& m.cpu_utilization_scaled == 0
    &&& m.memory_utilization_scaled == 0
    &&& m.request_rate_scaled == 0
    &&& m.error_rate_scaled == 0
    &&& m.response_time_us == 0
    &&& m.uptime_percentage_scaled == 10000
    &&& m.total_requests == 0
    &&& m.total_errors == 0
    &&& m.last_updated_us == now
    &&& m.deployment_start_us == now
}

/// The running average after a sample: the first sample is taken as is,
/// later ones weigh 10% against 90%, rounded to the nearest microsecond.
pub open spec fn ema_response_time(avg: u64, sample: u64) -> u64 {
    if avg == 0 { sample } else { ((9 * avg + sample + 5) / 10) as u64 }
}

/// The error rate in percent scaled by 100, rounded to the nearest unit and
/// capped at the largest `u64` (reachable only after the request counter
/// wrapped around).
pub open spec fn error_rate_scaled_of(errors: u64, requests: u64) -> u64 {
    if requests > 0 {
        let v = (20000 * errors + requests) / (2 * requests);
        if v > u64::MAX { u64::MAX } else { v as u64 }
    } else {
        0
    }
}

/// The metrics after a request that took `rt` microseconds, recorded at `now`.
pub open spec fn after_request(m: DeploymentMetrics, rt: u64, is_error: bool, now: u64) -> DeploymentMetrics {
    let total = wrap_inc(m.total_requests);
    let errors = if is_error { wrap_inc(m.total_errors) } else { m.total_errors };
    DeploymentMetrics {
        total_requests: total,
        total_errors: errors,
        response_time_us: ema_response_time(m.response_time_us, rt),
        error_rate_scaled: error_rate_scaled_of(errors, total),
        last_updated_us: now,
        ..m
    }
}

/// The metrics after an uptime update at `now`.
pub open spec fn after_uptime(m: DeploymentMetrics, is_healthy: bool, now: u64) -> DeploymentMetrics {
    DeploymentMetrics {
        uptime_percentage_scaled: if now > m.deployment_start_us { if is_healthy { 10000 } else { 9500 } } else { m.uptime_percentage_scaled },
        last_updated_us: now,
        ..m
    }
}

impl DeploymentMetrics {
    /// Fresh metrics stamped with the time `now_us`.
    pub fn new_at(now_us: u64) -> (r: Self)
        ensures
            fresh_metrics(r, now_us),
    {
        DeploymentMetrics {
            instance_count: 0,
            cpu_utilization_scaled: 0,
            memory_utilization_scaled: 0,
            request_rate_scaled: 0,
            error_rate_scaled: 0,
            response_time_us: 0,
            uptime_percentage_scaled: 10000,
            total_requests: 0,
            total_errors: 0,
            last_updated_us: now_us,
            deployment_start_us: now_us,
        }
    }

    /// Fresh metrics stamped with the current time.
    pub fn new() -> (r: Self)
        ensures
            fresh_metrics(r, r.last_updated_us),
    {
        Self::new_at(now_micros())
    }

    /// Records a request at time `now_us`: counts it (and the error), updates
    /// the average response time and the error rate.
    pub fn record_request_at(&mut self, response_time_us: u64, is_error: bool, now_us: u64)
        ensures
            *final(self) == after_request(*old(self), response_time_us, is_error, now_us),
    {
        self.total_requests = self.total_requests.wrapping_add(1);
        if is_error {
            self.total_errors = self.total_errors.wrapping_add(1);
        }
        let current_avg = self.response_time_us;
        let new_avg: u64 = if current_avg == 0 {
            response_time_us
        } else {
            let s: u128 = 9 * (current_avg as u128) + (response_time_us as u128) + 5;
            (s / 10) as u64
        };
        self.response_time_us = new_avg;
        let total = self.total_requests;
        let errors = self.total_errors;
        self.error_rate_scaled = if total > 0 {
            let num: u128 = 20000 * (errors as u128) + (total as u128);
            let v: u128 = num / (2 * (total as u128));
            if v > u64::MAX as u128 { u64::MAX } else { v as u64 }
        } else {
            0
        };
        self.last_updated_us = now_us;
    }

    /// Records a request at the current time.
    pub fn record_request(&mut self, response_time_us: u64, is_error: bool)
        ensures
            *final(self) == after_request(*old(self), response_time_us, is_error, final(self).last_updated_us),
    {
        let now = now_micros();
        self.record_request_at(response_time_us, is_error, now);
    }

    /// Updates the uptime at time `now_us`: once time has passed since the
    /// start it is 100% when healthy and 95% otherwise.
    pub fn update_uptime_at(&mut self, is_healthy: bool, now_us: u64)
        ensures
            *final(self) == after_uptime(*old(self), is_healthy, now_us),
    {
        let start = self.deployment_start_us;
        let total_time = now_us.saturating_sub(start);
        if total_time > 0 {
            self.uptime_percentage_scaled = if is_healthy { 10000 } else { 9500 };
        }
        self.last_updated_us = now_us;
    }

    /// Updates the uptime at the current time.
    pub fn update_uptime(&mut self, is_healthy: bool)
        ensures
            *final(self) == after_uptime(*old(self), is_healthy, final(self).last_updated_us),
    {
        let now = now_micros();
        self.update_uptime_at(is_healthy, now);
    }

    /// Stamps the metrics with time `now_us`.
    pub fn update_timestamp_at(&mut self, now_us: u64)
        ensures
            *final(self) == (DeploymentMetrics { last_updated_us: now_us, ..*old(self) }),
    {
        self.last_updated_us = now_us;
    }

    /// Stamps the metrics with the current time.
    pub fn update_timestamp(&mut self)
        ensures
            *final(self) == (DeploymentMetrics { last_updated_us: final(self).last_updated_us, ..*old(self) }),
    {
        let now = now_micros();
        self.update_timestamp_at(now);
    }

    /// Sets the CPU utilisation (percent scaled by 100) at time `now_us`.
    pub fn set_cpu_utilization_scaled(&mut self, scaled: u64, now_us: u64)
        ensures
            *final(self) == (DeploymentMetrics { cpu_utilization_scaled: scaled, last_updated_us: now_us, ..*old(self) }),
    {
        self.cpu_utilization_scaled = scaled;
        self.last_updated_us = now_us;
    }

    /// Sets the memory utilisation (percent scaled by 100) at time `now_us`.
    pub fn set_memory_utilization_scaled(&mut self, scaled: u64, now_us: u64)
        ensures
            *final(self) == (DeploymentMetrics { memory_utilization_scaled: scaled, last_updated_us: now_us, ..*old(self) }),
    {
        self.memory_utilization_scaled = scaled;
        self.last_updated_us = now_us;
    }

    /// Sets the request rate (per second, scaled by 100) at time `now_us`.
    pub fn set_request_rate_scaled(&mut self, scaled: u64, now_us: u64)
        ensures
            *final(self) == (DeploymentMetrics { request_rate_scaled: scaled, last_updated_us: now_us, ..*old(self) }),
    {
        self.request_rate_scaled = scaled;
        self.last_updated_us = now_us;
    }
}

impl Default for DeploymentMetrics {
    /// See [`DeploymentMetrics::new`].
    fn default() -> (r: Self)
        ensures
            fresh_metrics(r, r.last_updated_us),
    {
        DeploymentMetrics::new()
    }
}

/// Categories of optimisation recommendations.
#[derive(Debug, Clone, Copy, PartialEq, Eq, Structural)]
pub enum OptimizationCategory {
    /// Resource allocation.
    ResourceAllocation,
    /// Performance.
    Performance,
    /// Reliability.
    Reliability,
    /// Cost.
    Cost,
    /// Security.
    Security,
}

/// Priority of a recommendation.
#[derive(Debug, Clone, Copy, PartialEq, Eq, PartialOrd, Ord, Structural)]
pub enum OptimizationPriority {
    /// Low.
    Low,
    /// Medium.
    Medium,
    /// High.
    High,
    /// Critical.
    Critical,
}

/// Estimated impact of a recommendation.
#[derive(Debug, Clone, Copy, PartialEq, Eq, Structural)]
pub enum ImpactEstimate {
    /// Low.
    Low,
    /// Medium.
    Medium,
    /// High.
    High,
}

/// Implementation effort of a recommendation.
#[derive(Debug, Clone, Copy, PartialEq, Eq, Structural)]
pub enum ImplementationEffort {
    /// Low.
    Low,
    /// Medium.
    Medium,
    /// High.
    High,
}

/// A performance problem that an analysis found.
#[derive(Debug, Clone, Copy, PartialEq, Eq, Structural)]
pub enum OptimizationFinding {
    /// CPU utilisation above 90%.
    HighCpu,
    /// Memory utilisation above 85%.
    HighMemory,
    /// Average response time above one second.
    HighResponseTime,
    /// Error rate above 5%.
    HighErrorRate,
}

/// The findings that metrics `m` give, in the order CPU, memory, response
/// time, error rate.
pub open spec fn findings_of(m: DeploymentMetrics) -> Seq<OptimizationFinding> {
    let a = if m.cpu_utilization_scaled > 9000 { seq![OptimizationFinding::HighCpu] } else { seq![] };
    let b = if m.memory_utilization_scaled > 8500 { seq![OptimizationFinding::HighMemory] } else { seq![] };
    let c = if m.response_time_us > 1_000_000 { seq![OptimizationFinding::HighResponseTime] } else { seq![] };
    let d = if m.error_rate_scaled > 500 { seq![OptimizationFinding::HighErrorRate] } else { seq![] };
    a + b + c + d
}

/// The problems that deployment metrics show.
pub fn analyze_metrics(metrics: &DeploymentMetrics) -> (r: Vec<OptimizationFinding>)
    ensures
        r@ == findings_of(*metrics),
{
    let mut r = Vec::new();
    if metrics.cpu_utilization_scaled > 9000 {
        r.push(OptimizationFinding::HighCpu);
    }
    if metrics.memory_utilization_scaled > 8500 {
        r.push(OptimizationFinding::HighMemory);
    }
    if metrics.response_time_us > 1_000_000 {
        r.push(OptimizationFinding::HighResponseTime);
    }
    if metrics.error_rate_scaled > 500 {
        r.push(OptimizationFinding::HighErrorRate);
    }
    proof {
        assert(r@ =~= findings_of(*metrics));
    }
    r
}

/// An optimisation recommendation.
#[derive(Debug, Clone)]
pub struct OptimizationRecommendation {
    /// Category.
    pub category: OptimizationCategory,
    /// Priority.
    pub priority: OptimizationPriority,
    /// Title.
    pub title: String,
    /// Description.
    pub description: String,
    /// Estimated impact.
    pub estimated_impact: ImpactEstimate,
    /// Implementation effort.
    pub implementation_effort: ImplementationEffort,
}

/// The category, priority, title, impact and effort of a finding's recommendation.
pub open spec fn recommendation_shape(f: OptimizationFinding) -> (OptimizationCategory, OptimizationPriority, Seq<char>, ImpactEstimate, ImplementationEffort) {
    match f {
        OptimizationFinding::HighCpu => (OptimizationCategory::ResourceAllocation, OptimizationPriority::High, "High CPU Utilization Detected"@, ImpactEstimate::High, ImplementationEffort::Medium),
        OptimizationFinding::HighMemory => (OptimizationCategory::ResourceAllocation, OptimizationPriority::High, "High Memory Utilization Detected"@, ImpactEstimate::High, ImplementationEffort::Low),
        OptimizationFinding::HighResponseTime => (OptimizationCategory::Performance, OptimizationPriority::Medium, "High Response Time Detected"@, ImpactEstimate::Medium, ImplementationEffort::High),
        OptimizationFinding::HighErrorRate => (OptimizationCategory::Reliability, OptimizationPriority::High, "High Error Rate Detected"@, ImpactEstimate::High, ImplementationEffort::Medium),
    }
}

/// Whether a recommendation has the shape of `f`'s recommendation.
pub open spec fn is_recommendation_for(r: OptimizationRecommendation, f: OptimizationFinding) -> bool {
    let s = recommendation_shape(f);
    &&& r.category == s.0
    &&& r.priority == s.1
    &&& r.title@ == s.2
    &&& r.estimated_impact == s.3
    &&& r.implementation_effort == s.4
}

impl OptimizationRecommendation {
    /// The recommendation for a finding, with the given description.
    pub fn for_finding(finding: OptimizationFinding, description: String) -> (r: Self)
        ensures
            is_recommendation_for(r, finding),
            r.description == description,
    {
        proof {
            reveal_strlit("High CPU Utilization Detected");
            reveal_strlit("High Memory Utilization Detected");
            reveal_strlit("High Response Time Detected");
            reveal_strlit("High Error Rate Detected");
        }
        match finding {
            OptimizationFinding::HighCpu => OptimizationRecommendation {
                category: OptimizationCategory::ResourceAllocation,
                priority: OptimizationPriority::High,
                title: owned("High CPU Utilization Detected"),
                description,
                estimated_impact: ImpactEstimate::High,
                implementation_effort: ImplementationEffort::Medium,
            },
            OptimizationFinding::HighMemory => OptimizationRecommendation {
                category: OptimizationCategory::ResourceAllocation,
                priority: OptimizationPriority::High,
                title: owned("High Memory Utilization Detected"),
                description,
                estimated_impact: ImpactEstimate::High,
                implementation_effort: ImplementationEffort::Low,
            },
            OptimizationFinding::HighResponseTime => OptimizationRecommendation {
                category: OptimizationCategory::Performance,
                priority: OptimizationPriority::Medium,
                title: owned("High Response Time Detected"),
                description,
                estimated_impact: ImpactEstimate::Medium,
                implementation_effort: ImplementationEffort::High,
            },
            OptimizationFinding::HighErrorRate => OptimizationRecommendation {
                category: OptimizationCategory::Reliability,
                priority: OptimizationPriority::High,
                title: owned("High Error Rate Detected"),
                description,
                estimated_impact: ImpactEstimate::High,
                implementation_effort: ImplementationEffort::Medium,
            },
        }
    }

    /// A copy of the recommendation.
    pub fn duplicate(&self) -> (r: Self)
        ensures
            r.category == self.category,
            r.priority == self.priority,
            r.title@ == self.title@,
            r.description@ == self.description@,
            r.estimated_impact == self.estimated_impact,
            r.implementation_effort == self.implementation_effort,
    {
        OptimizationRecommendation {
            category: self.category,
            priority: self.priority,
            title: self.title.clone(),
            description: self.description.clone(),
            estimated_impact: self.estimated_impact,
            implementation_effort: self.implementation_effort,
        }
    }
}

/// A recommendation as plain values.
pub struct RecommendationView {
    /// Category.
    pub category: OptimizationCategory,
    /// Priority.
    pub priority: OptimizationPriority,
    /// Title.
    pub title: Seq<char>,
    /// Description.
    pub description: Seq<char>,
    /// Estimated impact.
    pub estimated_impact: ImpactEstimate,
    /// Implementation effort.
    pub implementation_effort: ImplementationEffort,
}

impl View for OptimizationRecommendation {
    type V = RecommendationView;

    open spec fn view(&self) -> RecommendationView {
        RecommendationView {
            category: self.category,
            priority: self.priority,
            title: self.title@,
            description: self.description@,
            estimated_impact: self.estimated_impact,
            implementation_effort: self.implementation_effort,
        }
    }
}

/// The views of a list of recommendations.
pub open spec fn recommendation_views(v: Seq<OptimizationRecommendation>) -> Seq<RecommendationView> {
    v.map_values(|r: OptimizationRecommendation| r@)
}

fn copy_recommendations(v: &Vec<OptimizationRecommendation>) -> (r: Vec<OptimizationRecommendation>)
    ensures
        recommendation_views(r@) == recommendation_views(v@),
{
    let mut out: Vec<OptimizationRecommendation> = Vec::new();
    let mut i: usize = 0;
    while i < v.len()
        invariant
            i <= v@.len(),
            recommendation_views(out@) == recommendation_views(v@.subrange(0, i as int)),
        decreases v@.len() - i,
    {
        let ghost before = out@;
        out.push(v[i].duplicate());
        proof {
            assert(recommendation_views(out@) =~= recommendation_views(before).push(v@[i as int]@));
            assert(recommendation_views(v@.subrange(0, i + 1)) =~= recommendation_views(v@.subrange(0, i as int)).push(v@[i as int]@));
        }
        i = i + 1;
    }
    proof {
        assert(v@.subrange(0, v@.len() as int) =~= v@);
    }
    out
}

/// Accumulates recommendations and a history of analyses.
#[derive(Debug)]
pub struct PerformanceOptimizer {
    /// All recommendations made so far.
    pub recommendations: Vec<OptimizationRecommendation>,
    /// One entry per analysis: its time (nanoseconds since the Unix epoch) and a summary.
    pub analysis_history: Vec<(u128, String)>,
}

/// The summary line of an analysis.
pub open spec fn analysis_summary(count: nat, deployment_id: Seq<char>) -> Seq<char> {
    "Generated "@ + decimal(count) + " recommendations for deployment "@ + deployment_id
}

impl PerformanceOptimizer {
    /// An optimizer with no recommendations and no history.
    pub fn new() -> (r: Self)
        ensures
            r.recommendations@.len() == 0,
            r.analysis_history@.len() == 0,
    {
        PerformanceOptimizer { recommendations: Vec::new(), analysis_history: Vec::new() }
    }

    /// Stores the recommendations of an analysis of `deployment_id` made at
    /// time `now` and records the analysis in the history; the
    /// recommendations are handed back.
    pub fn record_analysis(&mut self, deployment_id: &str, recommendations: Vec<OptimizationRecommendation>, now: u128)
        -> (r: Vec<OptimizationRecommendation>)
        ensures
            recommendation_views(r@) == recommendation_views(recommendations@),
            recommendation_views(final(self).recommendations@)
                == recommendation_views(old(self).recommendations@) + recommendation_views(recommendations@),
            final(self).analysis_history@.len() == old(self).analysis_history@.len() + 1,
            final(self).analysis_history@.subrange(0, old(self).analysis_history@.len() as int) == old(self).analysis_history@,
            final(self).analysis_history@.last().0 == now,
            final(self).analysis_history@.last().1@ == analysis_summary(recommendations@.len(), deployment_id@),
    {
        let copies = copy_recommendations(&recommendations);
        let ghost before = self.recommendations@;
        let mut c = copies;
        self.recommendations.append(&mut c);
        proof {
            assert(recommendation_views(self.recommendations@) =~= recommendation_views(before) + recommendation_views(copies@));
        }
        proof {
            reveal_strlit("Generated ");
            reveal_strlit(" recommendations for deployment ");
        }
        let n = u64_to_decimal(recommendations.len() as u64);
        let summary = concat3("Generated ", n.as_str(), " recommendations for deployment ").concat(deployment_id);
        let ghost hist = self.analysis_history@;
        self.analysis_history.push((now, summary));
        proof {
            assert(self.analysis_history@.subrange(0, hist.len() as int) =~= hist);
        }
        recommendations
    }

    /// Copies of all recommendations made so far.
    pub fn get_recommendations(&self) -> (r: Vec<OptimizationRecommendation>)
        ensures
            recommendation_views(r@) == recommendation_views(self.recommendations@),
    {
        copy_recommendations(&self.recommendations)
    }

    /// Forgets all recommendations; the history stays.
    pub fn clear_recommendations(&mut self)
        ensures
            final(self).recommendations@.len() == 0,
            final(self).analysis_history == old(self).analysis_history,
    {
        self.recommendations.clear();
    }
}

impl Default for PerformanceOptimizer {
    /// See [`PerformanceOptimizer::new`].
    fn default() -> (r: Self)
        ensures
            r.recommendations@.len() == 0,
            r.analysis_history@.len() == 0,
    {
        PerformanceOptimizer::new()
    }
}

/// Container configuration of a deployment.
#[derive(Debug, Clone)]
pub struct ContainerConfig {
    /// Container image.
    pub image: String,
    /// Exposed port.
    pub port: u16,
    /// Environment variables.
    pub environment_variables: Vec<(String, String)>,
    /// Volume mounts.
    pub volumes: Vec<String>,
    /// Command to run.
    pub command: Option<Vec<String>>,
    /// Working directory.
    pub working_directory: Option<String>,
}

/// Whether `c` is the default container configuration.
pub open spec fn is_default_container(c: ContainerConfig) -> bool {
    &&& c.image@ == "gcr.io/project/model:latest"@
    &&& c.port == 8080
    &&& c.environment_variables@.len() == 0
    &&& c.volumes@.len() == 0
    &&& c.command is None
    &&& c.working_directory is None
}

impl ContainerConfig {
    /// The default: image `gcr.io/project/model:latest` on port 8080.
    pub fn default_config() -> (r: Self)
        ensures
            is_default_container(r),
    {
        proof { reveal_strlit("gcr.io/project/model:latest"); }
        ContainerConfig {
            image: owned("gcr.io/project/model:latest"),
            port: 8080,
            environment_variables: Vec::new(),
            volumes: Vec::new(),
            command: None,
            working_directory: None,
        }
    }

    /// A builder holding the default configuration.
    pub fn builder() -> (r: ContainerConfigBuilder)
        ensures
            is_default_container(r.config),
    {
        ContainerConfigBuilder::new()
    }
}

impl Default for ContainerConfig {
    /// See [`ContainerConfig::default_config`].
    fn default() -> (r: Self)
        ensures
            is_default_container(r),
    {
        ContainerConfig::default_config()
    }
}

/// Builder for [`ContainerConfig`].
#[derive(Debug, Clone)]
pub struct ContainerConfigBuilder {
    /// The configuration being built.
    pub config: ContainerConfig,
}

impl ContainerConfigBuilder {
    /// A builder holding the default configuration.
    pub fn new() -> (r: Self)
        ensures
            is_default_container(r.config),
    {
        ContainerConfigBuilder { config: ContainerConfig::default_config() }
    }

    /// Sets the image.
    pub fn image(self, image: &str) -> (r: Self)
        ensures
            r.config.image@ == image@,
            r.config.port == self.config.port,
            r.config.environment_variables == self.config.environment_variables,
            r.config.volumes == self.config.volumes,
            r.config.command == self.config.command,
            r.config.working_directory == self.config.working_directory,
    {
        let mut s = self;
        s.config.image = owned(image);
        s
    }

    /// Sets the port.
    pub fn port(self, port: u16) -> (r: Self)
        ensures
            r.config == (ContainerConfig { port, ..self.config }),
    {
        let mut s = self;
        s.config.port = port;
        s
    }

    /// Replaces the environment variables.
    pub fn environment_variables(self, vars: Vec<(String, String)>) -> (r: Self)
        ensures
            r.config == (ContainerConfig { environment_variables: vars, ..self.config }),
    {
        let mut s = self;
        s.config.environment_variables = vars;
        s
    }

    /// Replaces the volume mounts.
    pub fn volumes(self, volumes: Vec<String>) -> (r: Self)
        ensures
            r.config == (ContainerConfig { volumes, ..self.config }),
    {
        let mut s = self;
        s.config.volumes = volumes;
        s
    }

    /// Sets the command.
    pub fn command(self, command: Vec<String>) -> (r: Self)
        ensures
            r.config == (ContainerConfig { command: Some(command), ..self.config }),
    {
        let mut s = self;
        s.config.command = Some(command);
        s
    }

    /// Sets the working directory.
    pub fn working_directory(self, dir: &str) -> (r: Self)
        ensures
            r.config.working_directory matches Some(d) && d@ == dir@,
            r.config.image == self.config.image,
            r.config.port == self.config.port,
            r.config.environment_variables == self.config.environment_variables,
            r.config.volumes == self.config.volumes,
            r.config.command == self.config.command,
    {
        let mut s = self;
        s.config.working_directory = Some(owned(dir));
        s
    }

    /// Validates and returns the configuration: the image must not be empty.
    pub fn build(self) -> (r: Result<ContainerConfig, Error>)
        ensures
            self.config.image@.len() > 0 ==> r == Ok::<ContainerConfig, Error>(self.config),
            self.config.image@.len() == 0 ==> crate::error::is_config_error(r, "Container image cannot be empty"@),
    {
        if self.config.image.as_str().unicode_len() == 0 {
            proof { reveal_strlit("Container image cannot be empty"); }
            return Err(Error::ConfigurationError(owned("Container image cannot be empty")));
        }
        Ok(self.config)
    }
}

impl Default for ContainerConfigBuilder {
    /// See [`ContainerConfigBuilder::new`].
    fn default() -> (r: Self)
        ensures
            is_default_container(r.config),
    {
        ContainerConfigBuilder::new()
    }
}

/// Orchestration platform configuration.
#[derive(Debug, Clone)]
pub enum OrchestrationConfig {
    /// Kubernetes.
    Kubernetes {
        /// Namespace.
        namespace: String,
        /// Cluster name.
        cluster: String,
        /// Service account.
        service_account: String,
    },
    /// Docker.
    Docker {
        /// Network.
        network: String,
        /// Volume mappings.
        volumes: Vec<String>,
    },
}

} // verus!
