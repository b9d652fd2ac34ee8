//! Scaling and resource settings of a deployment, and the scaling decisions
//! a scaler recommends.
//!
//! Real-valued settings are binary64 numbers held as their bit patterns
//! (see [`crate::float_bits`]); cooldowns are in nanoseconds.

use vstd::prelude::*;
use crate::error::Error;
use crate::float_bits::{f64_lt, f64_le, f64_bits_lt, f64_bits_le};
use crate::text::owned;

verus! {

/// Bit pattern of the binary64 number 0.0.
pub const F64_ZERO: u64 = 0;
/// Bit pattern of the binary64 number 1.0.
pub const F64_ONE: u64 = 0x3FF0_0000_0000_0000;
/// Bit pattern of the binary64 number 2.0.
pub const F64_TWO: u64 = 0x4000_0000_0000_0000;
/// Bit pattern of the binary64 number 10.0.
pub const F64_TEN: u64 = 0x4024_0000_0000_0000;
/// Bit pattern of the binary64 number 70.0.
pub const F64_SEVENTY: u64 = 0x4051_8000_0000_0000;
/// Bit pattern of the binary64 number 80.0.
pub const F64_EIGHTY: u64 = 0x4054_0000_0000_0000;
/// Bit pattern of the binary64 number 100.0.
pub const F64_HUNDRED: u64 = 0x4059_0000_0000_0000;

/// Automatic scaling settings.
#[derive(Debug, Clone, Copy)]
pub struct ScalingConfig {
    /// Fewest instances.
    pub min_instances: usize,
    /// Most instances.
    pub max_instances: usize,
    /// Target CPU utilisation percentage.
    pub target_cpu_utilization: u64,
    /// Target memory utilisation percentage.
    pub target_memory_utilization: u64,
    /// Cooldown before scaling up.
    pub scale_up_cooldown: u128,
    /// Cooldown before scaling down.
    pub scale_down_cooldown: u128,
}

/// The default scaling settings: 1 to 3 instances, 70% CPU and 80% memory
/// targets, 5 minutes before scaling up and 10 before scaling down.
pub open spec fn default_scaling_config() -> ScalingConfig {
    ScalingConfig {
        min_instances: 1,
        max_instances: 3,
        target_cpu_utilization: F64_SEVENTY,
        target_memory_utilization: F64_EIGHTY,
        scale_up_cooldown: 300_000_000_000,
        scale_down_cooldown: 600_000_000_000,
    }
}

/// Whether a percentage lies outside (0, 100].
pub open spec fn outside_percentage(p: u64) -> bool {
    f64_le(p, F64_ZERO) || f64_lt(F64_HUNDRED, p)
}

/// What is wrong with scaling settings, checked in order: at least one
/// instance, a maximum not below the minimum, targets within (0, 100].
pub open spec fn scaling_problem(c: ScalingConfig) -> Option<Seq<char>> {
    if c.min_instances == 0 {
        Some("Minimum instances must be greater than 0"@)
    } else if c.max_instances < c.min_instances {
        Some("Maximum instances must be greater than or equal to minimum instances"@)
    } else if outside_percentage(c.target_cpu_utilization) {
        Some("Target CPU utilization must be between 0 and 100"@)
    } else if outside_percentage(c.target_memory_utilization) {
        Some("Target memory utilization must be between 0 and 100"@)
    } else {
        None
    }
}

impl ScalingConfig {
    /// The default scaling settings.
    pub fn default_config() -> (r: Self)
        ensures
            r == default_scaling_config(),
    {
        ScalingConfig {
            min_instances: 1,
            max_instances: 3,
            target_cpu_utilization: F64_SEVENTY,
            target_memory_utilization: F64_EIGHTY,
            scale_up_cooldown: 300_000_000_000,
            scale_down_cooldown: 600_000_000_000,
        }
    }

    /// A builder that starts from the default settings.
    pub fn builder() -> (r: ScalingConfigBuilder)
        ensures
            r.config == default_scaling_config(),
    {
        ScalingConfigBuilder::new()
    }
}

impl Default for ScalingConfig {
    /// See [`ScalingConfig::default_config`].
    fn default() -> (r: Self)
        ensures
            r == default_scaling_config(),
    {
        ScalingConfig::default_config()
    }
}

/// Builder of scaling settings that validates on `build`.
#[derive(Debug, Clone, Copy)]
pub struct ScalingConfigBuilder {
    /// The settings being built.
    pub config: ScalingConfig,
}

impl ScalingConfigBuilder {
    /// A builder that starts from the default settings.
    pub fn new() -> (r: Self)
        ensures
            r.config == default_scaling_config(),
    {
        ScalingConfigBuilder { config: ScalingConfig::default_config() }
    }

    /// Sets the fewest instances.
    pub fn min_instances(self, min: usize) -> (r: Self)
        ensures
            r.config == (ScalingConfig { min_instances: min, ..self.config }),
    {
        let mut s = self;
        s.config.min_instances = min;
        s
    }

    /// Sets the most instances.
    pub fn max_instances(self, max: usize) -> (r: Self)
        ensures
            r.config == (ScalingConfig { max_instances: max, ..self.config }),
    {
        let mut s = self;
        s.config.max_instances = max;
        s
    }

    /// Sets the target CPU utilisation percentage (binary64 bit pattern).
    pub fn target_cpu_utilization(self, cpu: u64) -> (r: Self)
        ensures
            r.config == (ScalingConfig { target_cpu_utilization: cpu, ..self.config }),
    {
        let mut s = self;
        s.config.target_cpu_utilization = cpu;
        s
    }

    /// Sets the target memory utilisation percentage (binary64 bit pattern).
    pub fn target_memory_utilization(self, memory: u64) -> (r: Self)
        ensures
            r.config == (ScalingConfig { target_memory_utilization: memory, ..self.config }),
    {
        let mut s = self;
        s.config.target_memory_utilization = memory;
        s
    }

    /// Sets the cooldown before scaling up.
    pub fn scale_up_cooldown(self, cooldown: u128) -> (r: Self)
        ensures
            r.config == (ScalingConfig { scale_up_cooldown: cooldown, ..self.config }),
    {
        let mut s = self;
        s.config.scale_up_cooldown = cooldown;
        s
    }

    /// Sets the cooldown before scaling down.
    pub fn scale_down_cooldown(self, cooldown: u128) -> (r: Self)
        ensures
            r.config == (ScalingConfig { scale_down_cooldown: cooldown, ..self.config }),
    {
        let mut s = self;
        s.config.scale_down_cooldown = cooldown;
        s
    }

    /// The settings, if they pass validation.
    pub fn build(self) -> (r: Result<ScalingConfig, Error>)
        ensures
            scaling_problem(self.config) is None ==> r == Ok::<ScalingConfig, Error>(self.config),
            scaling_problem(self.config) matches Some(msg) ==> crate::error::is_config_error(r, msg),
    {
        proof {
            reveal_strlit("Minimum instances must be greater than 0");
            reveal_strlit("Maximum instances must be greater than or equal to minimum instances");
            reveal_strlit("Target CPU utilization must be between 0 and 100");
            reveal_strlit("Target memory utilization must be between 0 and 100");
        }
        let c = self.config;
        if c.min_instances == 0 {
            return Err(Error::ConfigurationError(owned("Minimum instances must be greater than 0")));
        }
        if c.max_instances < c.min_instances {
            return Err(Error::ConfigurationError(owned(
                "Maximum instances must be greater than or equal to minimum instances",
            )));
        }
        if f64_bits_le(c.target_cpu_utilization, F64_ZERO) || f64_bits_lt(F64_HUNDRED, c.target_cpu_utilization) {
            return Err(Error::ConfigurationError(owned("Target CPU utilization must be between 0 and 100")));
        }
        if f64_bits_le(c.target_memory_utilization, F64_ZERO) || f64_bits_lt(F64_HUNDRED, c.target_memory_utilization) {
            return Err(Error::ConfigurationError(owned("Target memory utilization must be between 0 and 100")));
        }
        Ok(c)
    }
}

impl Default for ScalingConfigBuilder {
    /// See [`ScalingConfigBuilder::new`].
    fn default() -> (r: Self)
        ensures
            r.config == default_scaling_config(),
    {
        ScalingConfigBuilder::new()
    }
}

/// Resource allocation of a deployment. Real values are binary64 bit
/// patterns.
#[derive(Debug, Clone, Copy)]
pub struct ResourceConfig {
    /// CPU cores.
    pub cpu_cores: u64,
    /// Memory in gigabytes.
    pub memory_gb: u64,
    /// Number of GPUs.
    pub gpu_count: usize,
    /// GPU memory in gigabytes.
    pub gpu_memory_gb: u64,
    /// Storage in gigabytes.
    pub storage_gb: u64,
}

/// The default resources: one core, 2 GB of memory, no GPU, 10 GB of
/// storage.
pub open spec fn default_resource_config() -> ResourceConfig {
    ResourceConfig { cpu_cores: F64_ONE, memory_gb: F64_TWO, gpu_count: 0, gpu_memory_gb: F64_ZERO, storage_gb: F64_TEN }
}

/// What is wrong with resource settings, checked in order: positive cores,
/// positive memory.
pub open spec fn resource_problem(c: ResourceConfig) -> Option<Seq<char>> {
    if f64_le(c.cpu_cores, F64_ZERO) {
        Some("CPU cores must be greater than 0"@)
    } else if f64_le(c.memory_gb, F64_ZERO) {
        Some("Memory must be greater than 0"@)
    } else {
        None
    }
}

impl ResourceConfig {
    /// The default resources.
    pub fn default_config() -> (r: Self)
        ensures
            r == default_resource_config(),
    {
        ResourceConfig { cpu_cores: F64_ONE, memory_gb: F64_TWO, gpu_count: 0, gpu_memory_gb: F64_ZERO, storage_gb: F64_TEN }
    }

    /// A builder that starts from the default resources.
    pub fn builder() -> (r: ResourceConfigBuilder)
        ensures
            r.config == default_resource_config(),
    {
        ResourceConfigBuilder::new()
    }
}

impl Default for ResourceConfig {
    /// See [`ResourceConfig::default_config`].
    fn default() -> (r: Self)
        ensures
            r == default_resource_config(),
    {
        ResourceConfig::default_config()
    }
}

/// Builder of resource settings that validates on `build`.
#[derive(Debug, Clone, Copy)]
pub struct ResourceConfigBuilder {
    /// The settings being built.
    pub config: ResourceConfig,
}

impl ResourceConfigBuilder {
    /// A builder that starts from the default resources.
    pub fn new() -> (r: Self)
        ensures
            r.config == default_resource_config(),
    {
        ResourceConfigBuilder { config: ResourceConfig::default_config() }
    }

    /// Sets the CPU cores (binary64 bit pattern).
    pub fn cpu_cores(self, cores: u64) -> (r: Self)
        ensures
            r.config == (ResourceConfig { cpu_cores: cores, ..self.config }),
    {
        let mut s = self;
        s.config.cpu_cores = cores;
        s
    }

    /// Sets the memory in gigabytes (binary64 bit pattern).
    pub fn memory_gb(self, memory: u64) -> (r: Self)
        ensures
            r.config == (ResourceConfig { memory_gb: memory, ..self.config }),
    {
        let mut s = self;
        s.config.memory_gb = memory;
        s
    }

    /// Sets the number of GPUs.
    pub fn gpu_count(self, count: usize) -> (r: Self)
        ensures
            r.config == (ResourceConfig { gpu_count: count, ..self.config }),
    {
        let mut s = self;
        s.config.gpu_count = count;
        s
    }

    /// Sets the GPU memory in gigabytes (binary64 bit pattern).
    pub fn gpu_memory_gb(self, memory: u64) -> (r: Self)
        ensures
            r.config == (ResourceConfig { gpu_memory_gb: memory, ..self.config }),
    {
        let mut s = self;
        s.config.gpu_memory_gb = memory;
        s
    }

    /// Sets the storage in gigabytes (binary64 bit pattern).
    pub fn storage_gb(self, storage: u64) -> (r: Self)
        ensures
            r.config == (ResourceConfig { storage_gb: storage, ..self.config }),
    {
        let mut s = self;
        s.config.storage_gb = storage;
        s
    }

    /// The settings, if they pass validation.
    pub fn build(self) -> (r: Result<ResourceConfig, Error>)
        ensures
            resource_problem(self.config) is None ==> r == Ok::<ResourceConfig, Error>(self.config),
            resource_problem(self.config) matches Some(msg) ==> crate::error::is_config_error(r, msg),
    {
        proof {
            reveal_strlit("CPU cores must be greater than 0");
            reveal_strlit("Memory must be greater than 0");
        }
        if f64_bits_le(self.config.cpu_cores, F64_ZERO) {
            return Err(Error::ConfigurationError(owned("CPU cores must be greater than 0")));
        }
        if f64_bits_le(self.config.memory_gb, F64_ZERO) {
            return Err(Error::ConfigurationError(owned("Memory must be greater than 0")));
        }
        Ok(self.config)
    }
}

impl Default for ResourceConfigBuilder {
    /// See [`ResourceConfigBuilder::new`].
    fn default() -> (r: Self)
        ensures
            r.config == default_resource_config(),
    {
        ResourceConfigBuilder::new()
    }
}

/// A scaling recommendation.
#[derive(Debug, Clone)]
pub enum ScalingDecision {
    /// Scale up to the target number of instances.
    ScaleUp {
        /// Target number of instances.
        target_instances: usize,
        /// Why.
        reason: String,
    },
    /// Scale down to the target number of instances.
    ScaleDown {
        /// Target number of instances.
        target_instances: usize,
        /// Why.
        reason: String,
    },
}

} // verus!
