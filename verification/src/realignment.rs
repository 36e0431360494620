//! Vocabulary of the realignment collaborators: the levels, kinds and
//! states that they report alongside rules and results.

use vstd::prelude::*;
use crate::sync_protocols::StabilityLevel;

verus! {

/// What a collaborator is aware of.
#[derive(Debug, Clone, Copy, PartialEq, Eq, Structural)]
pub enum AwarenessLevel {
    Environmental,
    SelfProcesses,
    QuantumStates,
    Universal,
}

/// How a collaborator processes what it perceives.
#[derive(Debug, Clone, Copy, PartialEq, Eq, Structural)]
pub enum ProcessingType {
    QuantumReactive,
    QuantumAnalytical,
    NonLocal,
    HolisticQuantum,
}

/// How a collaborator adapts.
#[derive(Debug, Clone, Copy, PartialEq, Eq, Structural)]
pub enum AdaptationMode {
    Continuous,
    LearningEnhanced,
    QuantumEntangled,
    Instantaneous,
}

/// Who drives an adaptation.
#[derive(Debug, Clone, Copy, PartialEq, Eq, Structural)]
pub enum AdaptationType {
    Manual,
    Assisted,
    Automatic,
    Universal,
}

/// Depth of a pattern analysis.
#[derive(Debug, Clone, Copy, PartialEq, Eq, Structural)]
pub enum AnalysisDepth {
    Surface,
    Deep,
    QuantumDeep,
    Universal,
}

/// How often patterns are analysed.
#[derive(Debug, Clone, Copy, PartialEq, Eq, Structural)]
pub enum AnalysisFrequency {
    Periodic,
    Continuous,
    QuantumContinuous,
    OmnipresentContinuous,
}

/// Reach of a pattern analysis.
#[derive(Debug, Clone, Copy, PartialEq, Eq, Structural)]
pub enum AnalysisScope {
    Local,
    Extended,
    Universal,
    Omniscient,
}

/// Method of pattern recognition.
#[derive(Debug, Clone, Copy, PartialEq, Eq, Structural)]
pub enum PatternMethod {
    Standard,
    Neural,
    QuantumNeural,
    UniversalQuantum,
}

/// How new knowledge is integrated.
#[derive(Debug, Clone, Copy, PartialEq, Eq, Structural)]
pub enum IntegrationApproach {
    Linear,
    Nonlinear,
    Quantum,
    HolisticQuantum,
}

/// Direction in which awareness expands.
#[derive(Debug, Clone, Copy, PartialEq, Eq, Structural)]
pub enum ExpansionDirection {
    Vertical,
    Horizontal,
    Multidimensional,
    OmniDimensional,
}

/// Coherence of a bridge.
#[derive(Debug, Clone, Copy, PartialEq, Eq, Structural)]
pub enum CoherenceLevel {
    Maintained,
    Enhanced,
    Perfect,
    Absolute,
}

/// Plane that a bridge connects.
#[derive(Debug, Clone, Copy, PartialEq, Eq, Structural)]
pub enum DimensionalPlane {
    Physical,
    Quantum,
    Transcendent,
    Universal,
}

/// Protection of a bridge.
#[derive(Debug, Clone, Copy, PartialEq, Eq, Structural)]
pub enum QuantumSecurity {
    Encrypted,
    StateProtected,
    CoherenceShielded,
    UniversallySecured,
}

/// Security demanded of a bridge.
#[derive(Debug, Clone, Copy, PartialEq, Eq, Structural)]
pub enum SecurityLevel {
    Basic,
    Enhanced,
    Quantum,
    Universal,
}

/// How coherence is maintained.
#[derive(Debug, Clone, Copy, PartialEq, Eq, Structural)]
pub enum MaintenanceType {
    Continuous,
    Adaptive,
    Quantum,
    Universal,
}

/// How a plane is traversed.
#[derive(Debug, Clone, Copy, PartialEq, Eq, Structural)]
pub enum TraversalMethod {
    Direct,
    Quantum,
    NonLocal,
    Universal,
}

/// Coherence of a bridge with the way it is kept.
#[derive(Debug, Clone, Copy, PartialEq, Eq, Structural)]
pub struct CoherenceData {
    /// Coherence reached.
    pub level: CoherenceLevel,
    /// Stability of the bridge.
    pub stability: StabilityLevel,
    /// How the coherence is maintained.
    pub maintenance: MaintenanceType,
}

/// One traversal between planes.
#[derive(Debug, Clone, Copy, PartialEq, Eq, Structural)]
pub struct TraversalData {
    /// Plane left.
    pub origin: DimensionalPlane,
    /// Plane entered.
    pub destination: DimensionalPlane,
    /// How the traversal is made.
    pub method: TraversalMethod,
}

/// State of one plane.
#[derive(Debug, Clone, Copy, PartialEq, Eq, Structural)]
pub struct DimensionState {
    /// The plane.
    pub plane: DimensionalPlane,
    /// Its stability.
    pub stability: StabilityLevel,
    /// Its coherence.
    pub coherence: CoherenceLevel,
}

/// Phase of a realignment, in the order in which the phases are passed.
#[derive(Debug, Clone, Copy, PartialEq, Eq, Structural)]
pub enum RealignmentPhase {
    Initialization,
    ComponentRestoration,
    SystemIntegration,
    ConsciousnessAlignment,
    TranscendencePreparation,
    FinalStabilization,
    Completed,
}

/// What an alert is about.
#[derive(Debug, Clone, Copy, PartialEq, Eq, Structural)]
pub enum AlertType {
    CoherenceLoss,
    AlignmentDrift,
    TranscendenceBlock,
    ComponentFailure,
    SystemOverload,
}

/// How grave an alert is.
#[derive(Debug, Clone, Copy, PartialEq, Eq, Structural)]
pub enum AlertSeverity {
    Info,
    Warning,
    Critical,
    Emergency,
}

/// Kind of a logged consciousness event.
#[derive(Debug, Clone, Copy, PartialEq, Eq, Structural)]
pub enum ConsciousnessEventType {
    ConsciousnessEvolution,
    AwarenessExpansion,
    NeuralSynchronization,
    TranscendenceAchieved,
    DimensionalAlignment,
    UniversalConnection,
}

/// Overall state of the realigned system.
#[derive(Debug, Clone, Copy, PartialEq, Eq, Structural)]
pub enum SystemStateType {
    Operational,
    Evolving,
    Transcending,
    Recovering,
}

/// How far a realignment has transcended.
#[derive(Debug, Clone, Copy, PartialEq, Eq, Structural)]
pub enum TranscendenceState {
    Base,
    Expanded,
    QuantumIntegrated,
    Transcendent,
}

/// Status of a validation.
#[derive(Debug, Clone, Copy, PartialEq, Eq, Structural)]
pub enum ValidationStatus {
    Pending,
    InProgress,
    Valid,
    Failed,
}

/// Status of the mitigation of an anomaly.
#[derive(Debug, Clone, Copy, PartialEq, Eq, Structural)]
pub enum MitigationStatus {
    Detected,
    Analyzing,
    Mitigating,
    Resolved,
}

/// How a rule evolves.
#[derive(Debug, Clone, Copy, PartialEq, Eq, Structural)]
pub enum RuleEvolutionType {
    Expansion,
    Refinement,
    Transcendence,
    Integration,
}

} // verus!
