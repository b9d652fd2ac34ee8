//! Fine-tuning of models: hyperparameters, LoRA settings, training jobs and
//! the builder that starts one.
//!
//! Real-valued settings and measurements are binary64 numbers held as their
//! bit patterns (see [`crate::float_bits`]); durations are in nanoseconds
//! and times count nanoseconds from the Unix epoch.

use vstd::prelude::*;
use crate::client::ModelApi;
use crate::error::Error;
use crate::float_bits::{f64_lt, f64_le, f64_bits_lt, f64_bits_le};
use crate::text::{owned, concat2};

verus! {

/// Bit pattern of the binary64 number 0.0.
pub const F64_ZERO: u64 = 0;
/// Bit pattern of the binary64 number 1.0.
pub const F64_ONE: u64 = 0x3FF0_0000_0000_0000;
/// Bit pattern of the binary64 number 0.0001.
pub const F64_ONE_TEN_THOUSANDTH: u64 = 0x3F1A_36E2_EB1C_432D;
/// Bit pattern of the binary64 number 0.01.
pub const F64_ONE_HUNDREDTH: u64 = 0x3F84_7AE1_47AE_147B;
/// Bit pattern of the binary64 number 0.1.
pub const F64_ONE_TENTH: u64 = 0x3FB9_9999_9999_999A;
/// Bit pattern of the binary64 number 16.0.
pub const F64_SIXTEEN: u64 = 0x4030_0000_0000_0000;

/// State of a training job.
#[derive(Debug, Clone, Copy, PartialEq, Eq, Structural)]
pub enum TrainingJobState {
    /// Queued, waiting to start.
    Pending,
    /// Running.
    Running,
    /// Completed successfully.
    Completed,
    /// Cancelled by the user.
    Cancelled,
    /// Failed.
    Failed,
    /// Paused.
    Paused,
}

/// The name of a state, as `Debug` prints it.
pub open spec fn state_name(s: TrainingJobState) -> Seq<char> {
    match s {
        TrainingJobState::Pending => "Pending"@,
        TrainingJobState::Running => "Running"@,
        TrainingJobState::Completed => "Completed"@,
        TrainingJobState::Cancelled => "Cancelled"@,
        TrainingJobState::Failed => "Failed"@,
        TrainingJobState::Paused => "Paused"@,
    }
}

impl TrainingJobState {
    /// The name of the state, as `Debug` prints it.
    pub fn name(&self) -> (r: &'static str)
        ensures
            r@ == state_name(*self),
    {
        match self {
            TrainingJobState::Pending => {
                proof { reveal_strlit("Pending"); }
                "Pending"
            },
            TrainingJobState::Running => {
                proof { reveal_strlit("Running"); }
                "Running"
            },
            TrainingJobState::Completed => {
                proof { reveal_strlit("Completed"); }
                "Completed"
            },
            TrainingJobState::Cancelled => {
                proof { reveal_strlit("Cancelled"); }
                "Cancelled"
            },
            TrainingJobState::Failed => {
                proof { reveal_strlit("Failed"); }
                "Failed"
            },
            TrainingJobState::Paused => {
                proof { reveal_strlit("Paused"); }
                "Paused"
            },
        }
    }
}

/// Training hyperparameters.
#[derive(Debug)]
pub struct HyperparameterConfig {
    /// Learning rate.
    pub learning_rate: u64,
    /// Batch size.
    pub batch_size: usize,
    /// Number of epochs.
    pub epochs: usize,
    /// Number of warm-up steps.
    pub warmup_steps: usize,
    /// Weight decay.
    pub weight_decay: u64,
    /// Gradient clipping threshold.
    pub gradient_clip_norm: u64,
    /// Learning rate scheduler.
    pub scheduler: String,
    /// Optimizer.
    pub optimizer: String,
}

/// Whether `c` holds the default hyperparameters: learning rate 0.0001,
/// batch size 16, 3 epochs, 50 warm-up steps, weight decay 0.01, clipping at
/// 1.0, cosine scheduler, AdamW optimizer.
pub open spec fn is_default_hyperparameters(c: HyperparameterConfig) -> bool {
    &&& c.learning_rate == F64_ONE_TEN_THOUSANDTH
    &&& c.batch_size == 16
    &&& c.epochs == 3
    &&& c.warmup_steps == 50
    &&& c.weight_decay == F64_ONE_HUNDREDTH
    &&& c.gradient_clip_norm == F64_ONE
    &&& c.scheduler@ == "cosine"@
    &&& c.optimizer@ == "adamw"@
}

/// What is wrong with hyperparameters, checked in order: a positive
/// learning rate, a batch size and a number of epochs above zero, a
/// non-negative weight decay, a positive clipping threshold.
pub open spec fn hyperparameter_problem(c: HyperparameterConfig) -> Option<Seq<char>> {
    if f64_le(c.learning_rate, F64_ZERO) {
        Some("Learning rate must be positive"@)
    } else if c.batch_size == 0 {
        Some("Batch size must be greater than 0"@)
    } else if c.epochs == 0 {
        Some("Epochs must be greater than 0"@)
    } else if f64_lt(c.weight_decay, F64_ZERO) {
        Some("Weight decay must be non-negative"@)
    } else if f64_le(c.gradient_clip_norm, F64_ZERO) {
        Some("Gradient clip norm must be positive"@)
    } else {
        None
    }
}

impl HyperparameterConfig {
    /// The default hyperparameters.
    pub fn default_config() -> (r: Self)
        ensures
            is_default_hyperparameters(r),
    {
        proof { reveal_strlit("cosine"); reveal_strlit("adamw"); }
        HyperparameterConfig {
            learning_rate: F64_ONE_TEN_THOUSANDTH,
            batch_size: 16,
            epochs: 3,
            warmup_steps: 50,
            weight_decay: F64_ONE_HUNDREDTH,
            gradient_clip_norm: F64_ONE,
            scheduler: owned("cosine"),
            optimizer: owned("adamw"),
        }
    }

    /// A builder that starts from the default hyperparameters.
    pub fn builder() -> (r: HyperparameterConfigBuilder)
        ensures
            is_default_hyperparameters(r.config),
    {
        HyperparameterConfigBuilder::new()
    }

    /// A copy of these hyperparameters.
    pub fn duplicate(&self) -> (r: Self)
        ensures
            r == *self,
    {
        HyperparameterConfig {
            learning_rate: self.learning_rate,
            batch_size: self.batch_size,
            epochs: self.epochs,
            warmup_steps: self.warmup_steps,
            weight_decay: self.weight_decay,
            gradient_clip_norm: self.gradient_clip_norm,
            scheduler: self.scheduler.clone(),
            optimizer: self.optimizer.clone(),
        }
    }
}

impl Default for HyperparameterConfig {
    /// See [`HyperparameterConfig::default_config`].
    fn default() -> (r: Self)
        ensures
            is_default_hyperparameters(r),
    {
        HyperparameterConfig::default_config()
    }
}

/// Builder of hyperparameters that validates on `build`.
#[derive(Debug)]
pub struct HyperparameterConfigBuilder {
    /// The hyperparameters being built.
    pub config: HyperparameterConfig,
}

impl HyperparameterConfigBuilder {
    /// A builder that starts from the default hyperparameters.
    pub fn new() -> (r: Self)
        ensures
            is_default_hyperparameters(r.config),
    {
        HyperparameterConfigBuilder { config: HyperparameterConfig::default_config() }
    }

    /// Sets the learning rate (binary64 bit pattern).
    pub fn learning_rate(self, rate: u64) -> (r: Self)
        ensures
            r.config == (HyperparameterConfig { learning_rate: rate, ..self.config }),
    {
        let mut s = self;
        s.config.learning_rate = rate;
        s
    }

    /// Sets the batch size.
    pub fn batch_size(self, size: usize) -> (r: Self)
        ensures
            r.config == (HyperparameterConfig { batch_size: size, ..self.config }),
    {
        let mut s = self;
        s.config.batch_size = size;
        s
    }

    /// Sets the number of epochs.
    pub fn epochs(self, epochs: usize) -> (r: Self)
        ensures
            r.config == (HyperparameterConfig { epochs, ..self.config }),
    {
        let mut s = self;
        s.config.epochs = epochs;
        s
    }

    /// Sets the number of warm-up steps.
    pub fn warmup_steps(self, steps: usize) -> (r: Self)
        ensures
            r.config == (HyperparameterConfig { warmup_steps: steps, ..self.config }),
    {
        let mut s = self;
        s.config.warmup_steps = steps;
        s
    }

    /// Sets the weight decay (binary64 bit pattern).
    pub fn weight_decay(self, decay: u64) -> (r: Self)
        ensures
            r.config == (HyperparameterConfig { weight_decay: decay, ..self.config }),
    {
        let mut s = self;
        s.config.weight_decay = decay;
        s
    }

    /// Sets the gradient clipping threshold (binary64 bit pattern).
    pub fn gradient_clip_norm(self, norm: u64) -> (r: Self)
        ensures
            r.config == (HyperparameterConfig { gradient_clip_norm: norm, ..self.config }),
    {
        let mut s = self;
        s.config.gradient_clip_norm = norm;
        s
    }

    /// Sets the learning rate scheduler.
    pub fn scheduler(self, scheduler: &str) -> (r: Self)
        ensures
            r.config.scheduler@ == scheduler@,
            r.config == (HyperparameterConfig { scheduler: r.config.scheduler, ..self.config }),
    {
        let mut s = self;
        s.config.scheduler = owned(scheduler);
        s
    }

    /// Sets the optimizer.
    pub fn optimizer(self, optimizer: &str) -> (r: Self)
        ensures
            r.config.optimizer@ == optimizer@,
            r.config == (HyperparameterConfig { optimizer: r.config.optimizer, ..self.config }),
    {
        let mut s = self;
        s.config.optimizer = owned(optimizer);
        s
    }

    /// The hyperparameters, if they pass validation.
    pub fn build(self) -> (r: Result<HyperparameterConfig, Error>)
        ensures
            hyperparameter_problem(self.config) is None <==> r is Ok,
            r matches Ok(c) ==> c == self.config,
            hyperparameter_problem(self.config) matches Some(msg) ==> crate::error::is_config_error(r, msg),
    {
        proof {
            reveal_strlit("Learning rate must be positive");
            reveal_strlit("Batch size must be greater than 0");
            reveal_strlit("Epochs must be greater than 0");
            reveal_strlit("Weight decay must be non-negative");
            reveal_strlit("Gradient clip norm must be positive");
        }
        if f64_bits_le(self.config.learning_rate, F64_ZERO) {
            return Err(Error::ConfigurationError(owned("Learning rate must be positive")));
        }
        if self.config.batch_size == 0 {
            return Err(Error::ConfigurationError(owned("Batch size must be greater than 0")));
        }
        if self.config.epochs == 0 {
            return Err(Error::ConfigurationError(owned("Epochs must be greater than 0")));
        }
        if f64_bits_lt(self.config.weight_decay, F64_ZERO) {
            return Err(Error::ConfigurationError(owned("Weight decay must be non-negative")));
        }
        if f64_bits_le(self.config.gradient_clip_norm, F64_ZERO) {
            return Err(Error::ConfigurationError(owned("Gradient clip norm must be positive")));
        }
        Ok(self.config)
    }
}

impl Default for HyperparameterConfigBuilder {
    /// See [`HyperparameterConfigBuilder::new`].
    fn default() -> (r: Self)
        ensures
            is_default_hyperparameters(r.config),
    {
        HyperparameterConfigBuilder::new()
    }
}

/// Low-rank adaptation settings for parameter-efficient fine-tuning.
#[derive(Debug)]
pub struct LoRAConfig {
    /// Rank of the adaptation.
    pub rank: usize,
    /// Scaling factor (binary64 bit pattern).
    pub alpha: u64,
    /// Dropout rate (binary64 bit pattern).
    pub dropout: u64,
    /// Modules the adaptation applies to.
    pub target_modules: Vec<String>,
    /// Whether weights are merged after training.
    pub merge_weights: bool,
}

/// Whether `c` holds the default LoRA settings: rank 8, alpha 16, dropout
/// 0.1, the query and value modules, no merging.
pub open spec fn is_default_lora(c: LoRAConfig) -> bool {
    &&& c.rank == 8
    &&& c.alpha == F64_SIXTEEN
    &&& c.dropout == F64_ONE_TENTH
    &&& c.target_modules@.len() == 2
    &&& c.target_modules@[0]@ == "query"@
    &&& c.target_modules@[1]@ == "value"@
    &&& !c.merge_weights
}

/// What is wrong with LoRA settings, checked in order: a rank above zero, a
/// positive alpha, a dropout in [0, 1), at least one target module.
pub open spec fn lora_problem(c: LoRAConfig) -> Option<Seq<char>> {
    if c.rank == 0 {
        Some("LoRA rank must be greater than 0"@)
    } else if f64_le(c.alpha, F64_ZERO) {
        Some("LoRA alpha must be positive"@)
    } else if f64_lt(c.dropout, F64_ZERO) || f64_le(F64_ONE, c.dropout) {
        Some("LoRA dropout must be between 0.0 and 1.0"@)
    } else if c.target_modules@.len() == 0 {
        Some("LoRA target modules cannot be empty"@)
    } else {
        None
    }
}

impl LoRAConfig {
    /// The default LoRA settings.
    pub fn default_config() -> (r: Self)
        ensures
            is_default_lora(r),
    {
        proof { reveal_strlit("query"); reveal_strlit("value"); }
        let mut modules: Vec<String> = Vec::new();
        modules.push(owned("query"));
        modules.push(owned("value"));
        LoRAConfig { rank: 8, alpha: F64_SIXTEEN, dropout: F64_ONE_TENTH, target_modules: modules, merge_weights: false }
    }

    /// A builder that starts from the default settings.
    pub fn builder() -> (r: LoRAConfigBuilder)
        ensures
            is_default_lora(r.config),
    {
        LoRAConfigBuilder::new()
    }
}

impl Default for LoRAConfig {
    /// See [`LoRAConfig::default_config`].
    fn default() -> (r: Self)
        ensures
            is_default_lora(r),
    {
        LoRAConfig::default_config()
    }
}

/// Builder of LoRA settings that validates on `build`.
#[derive(Debug)]
pub struct LoRAConfigBuilder {
    /// The settings being built.
    pub config: LoRAConfig,
}

impl LoRAConfigBuilder {
    /// A builder that starts from the default settings.
    pub fn new() -> (r: Self)
        ensures
            is_default_lora(r.config),
    {
        LoRAConfigBuilder { config: LoRAConfig::default_config() }
    }

    /// Sets the rank.
    pub fn rank(self, rank: usize) -> (r: Self)
        ensures
            r.config == (LoRAConfig { rank, ..self.config }),
    {
        let mut s = self;
        s.config.rank = rank;
        s
    }

    /// Sets the scaling factor (binary64 bit pattern).
    pub fn alpha(self, alpha: u64) -> (r: Self)
        ensures
            r.config == (LoRAConfig { alpha, ..self.config }),
    {
        let mut s = self;
        s.config.alpha = alpha;
        s
    }

    /// Sets the dropout rate (binary64 bit pattern).
    pub fn dropout(self, dropout: u64) -> (r: Self)
        ensures
            r.config == (LoRAConfig { dropout, ..self.config }),
    {
        let mut s = self;
        s.config.dropout = dropout;
        s
    }

    /// Sets the target modules.
    pub fn target_modules(self, modules: Vec<String>) -> (r: Self)
        ensures
            r.config == (LoRAConfig { target_modules: modules, ..self.config }),
    {
        let mut s = self;
        s.config.target_modules = modules;
        s
    }

    /// Sets whether weights are merged after training.
    pub fn merge_weights(self, merge: bool) -> (r: Self)
        ensures
            r.config == (LoRAConfig { merge_weights: merge, ..self.config }),
    {
        let mut s = self;
        s.config.merge_weights = merge;
        s
    }

    /// The settings, if they pass validation.
    pub fn build(self) -> (r: Result<LoRAConfig, Error>)
        ensures
            lora_problem(self.config) is None <==> r is Ok,
            r matches Ok(c) ==> c == self.config,
            lora_problem(self.config) matches Some(msg) ==> crate::error::is_config_error(r, msg),
    {
        proof {
            reveal_strlit("LoRA rank must be greater than 0");
            reveal_strlit("LoRA alpha must be positive");
            reveal_strlit("LoRA dropout must be between 0.0 and 1.0");
            reveal_strlit("LoRA target modules cannot be empty");
        }
        if self.config.rank == 0 {
            return Err(Error::ConfigurationError(owned("LoRA rank must be greater than 0")));
        }
        if f64_bits_le(self.config.alpha, F64_ZERO) {
            return Err(Error::ConfigurationError(owned("LoRA alpha must be positive")));
        }
        if f64_bits_lt(self.config.dropout, F64_ZERO) || f64_bits_le(F64_ONE, self.config.dropout) {
            return Err(Error::ConfigurationError(owned("LoRA dropout must be between 0.0 and 1.0")));
        }
        if self.config.target_modules.len() == 0 {
            return Err(Error::ConfigurationError(owned("LoRA target modules cannot be empty")));
        }
        Ok(self.config)
    }
}

impl Default for LoRAConfigBuilder {
    /// See [`LoRAConfigBuilder::new`].
    fn default() -> (r: Self)
        ensures
            is_default_lora(r.config),
    {
        LoRAConfigBuilder::new()
    }
}

/// Training objectives. Real values are binary64 bit patterns.
#[derive(Debug, Clone, Copy)]
pub enum TrainingObjective {
    /// Text completion.
    Completion {
        /// Maximum sequence length.
        max_sequence_length: usize,
        /// Sampling temperature.
        temperature: u64,
    },
    /// Classification.
    Classification {
        /// Number of classes.
        num_classes: usize,
        /// Label smoothing factor.
        label_smoothing: u64,
    },
    /// Sequence to sequence.
    Seq2Seq {
        /// Maximum input length.
        max_input_length: usize,
        /// Maximum output length.
        max_output_length: usize,
    },
}

/// Measurements taken during fine-tuning. Real values are binary64 bit
/// patterns.
#[derive(Debug, Clone, Copy)]
pub struct TrainingMetrics {
    /// Current epoch.
    pub epoch: usize,
    /// Current step.
    pub step: usize,
    /// Current loss.
    pub loss: u64,
    /// Current learning rate.
    pub learning_rate: u64,
    /// Gradient norm.
    pub gradient_norm: u64,
    /// Throughput in tokens per second.
    pub throughput_tokens_per_second: u64,
    /// Memory use in megabytes.
    pub memory_usage_mb: u64,
    /// Elapsed training time in seconds.
    pub elapsed_time_seconds: u64,
}

/// Metrics with everything at zero.
pub open spec fn zero_training_metrics() -> TrainingMetrics {
    TrainingMetrics {
        epoch: 0,
        step: 0,
        loss: F64_ZERO,
        learning_rate: F64_ZERO,
        gradient_norm: F64_ZERO,
        throughput_tokens_per_second: F64_ZERO,
        memory_usage_mb: F64_ZERO,
        elapsed_time_seconds: F64_ZERO,
    }
}

impl TrainingMetrics {
    /// Metrics with everything at zero.
    pub fn new() -> (r: Self)
        ensures
            r == zero_training_metrics(),
    {
        TrainingMetrics {
            epoch: 0,
            step: 0,
            loss: F64_ZERO,
            learning_rate: F64_ZERO,
            gradient_norm: F64_ZERO,
            throughput_tokens_per_second: F64_ZERO,
            memory_usage_mb: F64_ZERO,
            elapsed_time_seconds: F64_ZERO,
        }
    }
}

impl Default for TrainingMetrics {
    /// See [`TrainingMetrics::new`].
    fn default() -> (r: Self)
        ensures
            r == zero_training_metrics(),
    {
        TrainingMetrics::new()
    }
}

/// A saved model checkpoint. Real values are binary64 bit patterns; the
/// creation time counts nanoseconds from the Unix epoch.
#[derive(Debug)]
pub struct ModelCheckpoint {
    /// Checkpoint identifier.
    pub checkpoint_id: String,
    /// Epoch of the checkpoint.
    pub epoch: usize,
    /// Step of the checkpoint.
    pub step: usize,
    /// Loss at the checkpoint.
    pub loss: u64,
    /// Further metrics, each name at most once.
    pub metrics: Vec<(String, u64)>,
    /// Path of the checkpoint files.
    pub model_path: String,
    /// Creation time.
    pub created_at: u128,
}

/// Progress of a training job. The percentage is a binary64 bit pattern;
/// the remaining time is in nanoseconds.
#[derive(Debug, Clone, Copy)]
pub struct TrainingProgress {
    /// Completion percentage.
    pub percentage: u64,
    /// Current metrics.
    pub metrics: TrainingMetrics,
    /// Estimated remaining time.
    pub estimated_time_remaining: Option<u128>,
}

/// A training job and its state.
#[derive(Debug)]
pub struct TrainingJob {
    /// Job identifier.
    pub job_id: String,
    /// Current state.
    pub state: TrainingJobState,
    /// Training hyperparameters.
    pub config: HyperparameterConfig,
    /// Current metrics.
    pub metrics: TrainingMetrics,
    /// Checkpoints saved so far.
    pub checkpoints: Vec<ModelCheckpoint>,
}

impl TrainingJob {
    /// A pending job with zero metrics and no checkpoints.
    pub fn new(job_id: String, config: HyperparameterConfig) -> (r: Self)
        ensures
            r.job_id == job_id,
            r.state == TrainingJobState::Pending,
            r.config == config,
            r.metrics == zero_training_metrics(),
            r.checkpoints@.len() == 0,
    {
        TrainingJob {
            job_id,
            state: TrainingJobState::Pending,
            config,
            metrics: TrainingMetrics::new(),
            checkpoints: Vec::new(),
        }
    }

    /// The current state.
    pub fn state(&self) -> (r: TrainingJobState)
        ensures
            r == self.state,
    {
        self.state
    }

    /// The current metrics.
    pub fn get_metrics(&self) -> (r: TrainingMetrics)
        ensures
            r == self.metrics,
    {
        self.metrics
    }

    /// The checkpoints saved so far.
    pub fn get_checkpoints(&self) -> (r: &Vec<ModelCheckpoint>)
        ensures
            r == &self.checkpoints,
    {
        &self.checkpoints
    }

    /// Starts the job, whatever its state.
    pub fn start(&mut self) -> (r: Result<(), Error>)
        ensures
            r is Ok,
            *final(self) == (TrainingJob { state: TrainingJobState::Running, ..*old(self) }),
    {
        self.state = TrainingJobState::Running;
        Ok(())
    }

    /// Pauses the job, whatever its state.
    pub fn pause(&mut self) -> (r: Result<(), Error>)
        ensures
            r is Ok,
            *final(self) == (TrainingJob { state: TrainingJobState::Paused, ..*old(self) }),
    {
        self.state = TrainingJobState::Paused;
        Ok(())
    }

    /// Cancels the job, whatever its state.
    pub fn cancel(&mut self) -> (r: Result<(), Error>)
        ensures
            r is Ok,
            *final(self) == (TrainingJob { state: TrainingJobState::Cancelled, ..*old(self) }),
    {
        self.state = TrainingJobState::Cancelled;
        Ok(())
    }

    /// Resumes a paused job; a job in another state is refused and stays as
    /// it is.
    pub fn resume(&mut self) -> (r: Result<(), Error>)
        ensures
            old(self).state == TrainingJobState::Paused <==> r is Ok,
            r is Ok ==> *final(self) == (TrainingJob { state: TrainingJobState::Running, ..*old(self) }),
            r is Err ==> *final(self) == *old(self),
            r matches Err(e) ==> (e matches Error::ApiError(m)
                && m@ == "Cannot resume job in state : "@ + state_name(old(self).state)),
    {
        if self.state != TrainingJobState::Paused {
            proof { reveal_strlit("Cannot resume job in state : "); }
            return Err(Error::ApiError(concat2("Cannot resume job in state : ", self.state.name())));
        }
        self.state = TrainingJobState::Running;
        Ok(())
    }
}

/// Builder of a fine-tuning job. Durations are in nanoseconds.
#[derive(Debug)]
pub struct FineTuningBuilder<'a> {
    /// The model to tune.
    pub model: &'a ModelApi<'a>,
    /// Path of the training data.
    pub training_data: Option<String>,
    /// Path of the validation data.
    pub validation_data: Option<String>,
    /// Hyperparameters.
    pub hyperparams: HyperparameterConfig,
    /// LoRA settings, if any.
    pub lora_config: Option<LoRAConfig>,
    /// Training objective, if any.
    pub objective: Option<TrainingObjective>,
    /// Monitoring interval, if any.
    pub monitoring_interval: Option<u128>,
    /// Whether the data is validated.
    pub validate_data: bool,
    /// Checkpoint frequency, in steps.
    pub checkpoint_frequency: usize,
}

impl<'a> FineTuningBuilder<'a> {
    /// A builder for `model` with default hyperparameters, no data, no LoRA
    /// or objective, no validation, a checkpoint every 1000 steps.
    pub fn new(model: &'a ModelApi<'a>) -> (r: Self)
        ensures
            r.model == model,
            r.training_data is None,
            r.validation_data is None,
            is_default_hyperparameters(r.hyperparams),
            r.lora_config is None,
            r.objective is None,
            r.monitoring_interval is None,
            !r.validate_data,
            r.checkpoint_frequency == 1000,
    {
        FineTuningBuilder {
            model,
            training_data: None,
            validation_data: None,
            hyperparams: HyperparameterConfig::default_config(),
            lora_config: None,
            objective: None,
            monitoring_interval: None,
            validate_data: false,
            checkpoint_frequency: 1000,
        }
    }

    /// Sets the path of the training data.
    pub fn with_training_data(self, path: &str) -> (r: Self)
        ensures
            r.training_data matches Some(p) && p@ == path@,
            r == (FineTuningBuilder { training_data: r.training_data, ..self }),
    {
        let mut s = self;
        s.training_data = Some(owned(path));
        s
    }

    /// Sets the path of the validation data.
    pub fn with_validation_data(self, path: &str) -> (r: Self)
        ensures
            r.validation_data matches Some(p) && p@ == path@,
            r == (FineTuningBuilder { validation_data: r.validation_data, ..self }),
    {
        let mut s = self;
        s.validation_data = Some(owned(path));
        s
    }

    /// Sets the number of epochs.
    pub fn with_epochs(self, epochs: usize) -> (r: Self)
        ensures
            r == (FineTuningBuilder { hyperparams: HyperparameterConfig { epochs, ..self.hyperparams }, ..self }),
    {
        let mut s = self;
        s.hyperparams.epochs = epochs;
        s
    }

    /// Sets the learning rate (binary64 bit pattern).
    pub fn with_learning_rate(self, rate: u64) -> (r: Self)
        ensures
            r == (FineTuningBuilder { hyperparams: HyperparameterConfig { learning_rate: rate, ..self.hyperparams }, ..self }),
    {
        let mut s = self;
        s.hyperparams.learning_rate = rate;
        s
    }

    /// Sets the batch size.
    pub fn with_batch_size(self, size: usize) -> (r: Self)
        ensures
            r == (FineTuningBuilder { hyperparams: HyperparameterConfig { batch_size: size, ..self.hyperparams }, ..self }),
    {
        let mut s = self;
        s.hyperparams.batch_size = size;
        s
    }

    /// Sets the hyperparameters.
    pub fn with_hyperparams(self, config: HyperparameterConfig) -> (r: Self)
        ensures
            r == (FineTuningBuilder { hyperparams: config, ..self }),
    {
        let mut s = self;
        s.hyperparams = config;
        s
    }

    /// Sets the LoRA settings.
    pub fn with_lora_config(self, config: LoRAConfig) -> (r: Self)
        ensures
            r == (FineTuningBuilder { lora_config: Some(config), ..self }),
    {
        let mut s = self;
        s.lora_config = Some(config);
        s
    }

    /// Sets the training objective.
    pub fn with_objective(self, objective: TrainingObjective) -> (r: Self)
        ensures
            r == (FineTuningBuilder { objective: Some(objective), ..self }),
    {
        let mut s = self;
        s.objective = Some(objective);
        s
    }

    /// Sets the monitoring interval.
    pub fn with_monitoring_interval(self, interval: u128) -> (r: Self)
        ensures
            r == (FineTuningBuilder { monitoring_interval: Some(interval), ..self }),
    {
        let mut s = self;
        s.monitoring_interval = Some(interval);
        s
    }

    /// Turns data validation on or off.
    pub fn validate_data(self, validate: bool) -> (r: Self)
        ensures
            r == (FineTuningBuilder { validate_data: validate, ..self }),
    {
        let mut s = self;
        s.validate_data = validate;
        s
    }

    /// Sets the checkpoint frequency, in steps.
    pub fn with_checkpoint_frequency(self, frequency: usize) -> (r: Self)
        ensures
            r == (FineTuningBuilder { checkpoint_frequency: frequency, ..self }),
    {
        let mut s = self;
        s.checkpoint_frequency = frequency;
        s
    }

    /// Creates the job and starts it. Training data is required.
    pub fn start_training(self) -> (r: Result<TrainingJob, Error>)
        ensures
            self.training_data is None <==> r is Err,
            r matches Err(e) ==> (e matches Error::ApiError(m) && m@ == "Training data is required for fine-tuning"@),
            r matches Ok(job) ==> {
                &&& job.job_id@ == "tuning-generated-id"@
                &&& job.state == TrainingJobState::Running
                &&& job.config == self.hyperparams
                &&& job.metrics == zero_training_metrics()
                &&& job.checkpoints@.len() == 0
            },
    {
        if self.training_data.is_none() {
            proof { reveal_strlit("Training data is required for fine-tuning"); }
            return Err(Error::ApiError(owned("Training data is required for fine-tuning")));
        }
        proof { reveal_strlit("tuning-"); reveal_strlit("generated-id"); reveal_strlit("tuning-generated-id"); }
        let job_id = concat2("tuning-", "generated-id");
        let mut job = TrainingJob::new(job_id, self.hyperparams);
        match job.start() {
            Ok(()) => Ok(job),
            Err(e) => Err(e),
        }
    }
}

impl<'a> ModelApi<'a> {
    /// A fine-tuning builder for this model.
    pub fn fine_tune(&self) -> (r: FineTuningBuilder<'_>)
        ensures
            r.model == self,
            r.training_data is None,
            is_default_hyperparameters(r.hyperparams),
            r.checkpoint_frequency == 1000,
    {
        FineTuningBuilder::new(self)
    }
}

} // verus!
