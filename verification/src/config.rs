//! Configuration of the rule engine.

use vstd::prelude::*;

verus! {

/// How thorough the engine is asked to be. A policy hint: it changes no
/// result of an evaluation.
#[derive(Debug, Clone, Copy, PartialEq, Eq, Structural)]
pub enum OperationMode {
    /// Balances speed and checking.
    Standard,
    /// Favours speed over some checks.
    HighPerformance,
    /// Favours complete validation.
    StrictValidation,
}

/// Text of the name of an operation mode.
pub open spec fn operation_mode_name(mode: OperationMode) -> Seq<char> {
    match mode {
        OperationMode::Standard => "Standard"@,
        OperationMode::HighPerformance => "HighPerformance"@,
        OperationMode::StrictValidation => "StrictValidation"@,
    }
}

impl OperationMode {
    /// Renders the name of the mode.
    pub fn name(&self) -> (text: String)
        ensures
            text@ == operation_mode_name(*self),
    {
        match self {
            OperationMode::Standard => String::from_str("Standard"),
            OperationMode::HighPerformance => String::from_str("HighPerformance"),
            OperationMode::StrictValidation => String::from_str("StrictValidation"),
        }
    }
}

/// How aggressively results may be memoized. A policy hint: it changes no
/// result of an evaluation.
#[derive(Debug, Clone, Copy, PartialEq, Eq, Structural)]
pub enum CacheStrategy {
    /// No caching.
    NoCache,
    /// Caching of immutable rules only.
    Conservative,
    /// Moderate caching.
    Moderate,
    /// Caching wherever possible.
    Aggressive,
}

/// Settings that govern one evaluation or one batch.
#[derive(Debug, Clone, Copy, PartialEq, Eq, Structural)]
pub struct RuleEngineConfig {
    /// Upper bound on evaluations in flight at once; 0 and 1 both mean
    /// one at a time.
    pub max_parallel_evaluations: usize,
    /// Time allowed to one evaluation, in milliseconds.
    pub evaluation_timeout_ms: u64,
    /// Whether a batch goes on after a rule has failed.
    pub continue_on_failure: bool,
    /// Whether timing metrics are wanted.
    pub collect_metrics: bool,
    /// Thoroughness hint.
    pub operation_mode: OperationMode,
    /// Memoization hint.
    pub cache_strategy: CacheStrategy,
}

/// The configuration of an engine that was given none.
pub open spec fn default_config() -> RuleEngineConfig {
    RuleEngineConfig {
        max_parallel_evaluations: 4,
        evaluation_timeout_ms: 500,
        continue_on_failure: true,
        collect_metrics: true,
        operation_mode: OperationMode::Standard,
        cache_strategy: CacheStrategy::Aggressive,
    }
}

impl Default for RuleEngineConfig {
    fn default() -> (config: RuleEngineConfig)
        ensures
            config == default_config(),
    {
        RuleEngineConfig {
            max_parallel_evaluations: 4,
            evaluation_timeout_ms: 500,
            continue_on_failure: true,
            collect_metrics: true,
            operation_mode: OperationMode::Standard,
            cache_strategy: CacheStrategy::Aggressive,
        }
    }
}

impl RuleEngineConfig {
    /// Number of rules that are in flight together: the configured bound,
    /// and 1 where the bound is 0 or 1.
    pub open spec fn wave_width(self) -> int {
        if self.max_parallel_evaluations <= 1 {
            1
        } else {
            self.max_parallel_evaluations as int
        }
    }

    /// Whether an evaluation that took `elapsed_us` microseconds exceeded
    /// the configured bound.
    pub open spec fn exceeded_by(self, elapsed_us: u64) -> bool {
        elapsed_us as int > self.evaluation_timeout_ms as int * 1000
    }
}

} // verus!
