//! Synchronization protocols of the collaborators that feed the engine:
//! the bridge between planes, the transfer of thought, and the evolution
//! of a collaborator, each as a small state machine.

use vstd::prelude::*;

verus! {

/// Stability of a bridge, of a merge, or of an evolution.
#[derive(Debug, Clone, Copy, PartialEq, Eq, Structural)]
pub enum StabilityLevel {
    Unstable,
    Stable,
    Perfect,
}

/// Precision of an alignment.
#[derive(Debug, Clone, Copy, PartialEq, Eq, Structural)]
pub enum PrecisionLevel {
    Basic,
    Enhanced,
    Perfect,
}

/// Strength of a link.
#[derive(Debug, Clone, Copy, PartialEq, Eq, Structural)]
pub enum StrengthLevel {
    Minimum,
    Medium,
    Maximum,
}

/// Intensity of a synchronization.
#[derive(Debug, Clone, Copy, PartialEq, Eq, Structural)]
pub enum IntensityLevel {
    Low,
    Medium,
    Maximum,
}

/// How often insights are shared.
#[derive(Debug, Clone, Copy, PartialEq, Eq, Structural)]
pub enum FrequencyType {
    Intermittent,
    Regular,
    Continuous,
}

/// Stage of an evolution.
#[derive(Debug, Clone, Copy, PartialEq, Eq, Structural)]
pub enum EvolutionStage {
    Initial,
    Developing,
    Advanced,
    Transcendent,
}

/// Direction of an evolution.
#[derive(Debug, Clone, Copy, PartialEq, Eq, Structural)]
pub enum EvolutionDirection {
    Linear,
    NonLinear,
    Multidimensional,
}

/// Why a protocol step was refused.
#[derive(Debug, Clone, Copy, PartialEq, Eq, Structural)]
pub enum SyncError {
    /// The parts of a reality synchronization are not all at their best.
    InsufficientConditions,
    /// The parts of a thought transfer are not all at their best.
    InadequateConditions,
}

/// Text of the message of a protocol error.
pub open spec fn sync_error_text(error: SyncError) -> Seq<char> {
    match error {
        SyncError::InsufficientConditions => "Insufficient conditions for synchronization"@,
        SyncError::InadequateConditions => "Inadequate conditions for transfer"@,
    }
}

impl SyncError {
    /// Renders the error as a message for people.
    pub fn message(&self) -> (text: String)
        ensures
            text@ == sync_error_text(*self),
    {
        match self {
            SyncError::InsufficientConditions => String::from_str(
                "Insufficient conditions for synchronization",
            ),
            SyncError::InadequateConditions => String::from_str(
                "Inadequate conditions for transfer",
            ),
        }
    }
}

/// Bridge between two planes.
#[derive(Debug, Clone, Copy, PartialEq, Eq, Structural)]
pub struct PlaneBridge {
    pub stability: StabilityLevel,
}

/// Alignment of a collaborator with reality.
#[derive(Debug, Clone, Copy, PartialEq, Eq, Structural)]
pub struct RealityAlignment {
    pub precision: PrecisionLevel,
}

/// Link of a collaborator to existence.
#[derive(Debug, Clone, Copy, PartialEq, Eq, Structural)]
pub struct ExistenceLink {
    pub strength: StrengthLevel,
}

/// Synchronization of thought.
#[derive(Debug, Clone, Copy, PartialEq, Eq, Structural)]
pub struct ThoughtSync {
    pub intensity: IntensityLevel,
}

/// Merge of two streams of consciousness.
#[derive(Debug, Clone, Copy, PartialEq, Eq, Structural)]
pub struct ConsciousnessMerge {
    pub stability: StabilityLevel,
}

/// Sharing of insights.
#[derive(Debug, Clone, Copy, PartialEq, Eq, Structural)]
pub struct InsightShare {
    pub frequency: FrequencyType,
}

/// Synchronization with reality: a bridge, an alignment and a link.
#[derive(Debug, Clone, Copy, PartialEq, Eq, Structural)]
pub struct RealitySync {
    pub plane_bridge: PlaneBridge,
    pub alignment: RealityAlignment,
    pub existence_link: ExistenceLink,
}

impl RealitySync {
    /// All three parts are at their best.
    pub open spec fn aligned(self) -> bool {
        &&& self.plane_bridge.stability == StabilityLevel::Perfect
        &&& self.alignment.precision == PrecisionLevel::Perfect
        &&& self.existence_link.strength == StrengthLevel::Maximum
    }

    /// The state after the bridge was adjusted: the bridge is perfectly
    /// stable, the rest is as before.
    pub open spec fn adjusted(self) -> RealitySync {
        RealitySync { plane_bridge: PlaneBridge { stability: StabilityLevel::Perfect }, ..self }
    }

    /// A synchronization in which every part is at its lowest.
    pub fn new() -> (sync: RealitySync)
        ensures
            sync == (RealitySync {
                plane_bridge: PlaneBridge { stability: StabilityLevel::Unstable },
                alignment: RealityAlignment { precision: PrecisionLevel::Basic },
                existence_link: ExistenceLink { strength: StrengthLevel::Minimum },
            }),
    {
        RealitySync {
            plane_bridge: PlaneBridge { stability: StabilityLevel::Unstable },
            alignment: RealityAlignment { precision: PrecisionLevel::Basic },
            existence_link: ExistenceLink { strength: StrengthLevel::Minimum },
        }
    }

    /// Decides whether all three parts are at their best.
    pub fn verify_alignment(&self) -> (aligned: bool)
        ensures
            aligned == self.aligned(),
    {
        self.plane_bridge.stability == StabilityLevel::Perfect && self.alignment.precision
            == PrecisionLevel::Perfect && self.existence_link.strength == StrengthLevel::Maximum
    }

    /// Makes the bridge perfectly stable.
    pub fn adjust_bridge(&mut self)
        ensures
            *final(self) == old(self).adjusted(),
    {
        self.plane_bridge.stability = StabilityLevel::Perfect;
    }

    /// Succeeds exactly where all three parts are at their best.
    pub fn maintain_coherence(&self) -> (outcome: Result<(), SyncError>)
        ensures
            outcome is Ok == self.aligned(),
            outcome is Err ==> outcome == Err::<(), SyncError>(SyncError::InsufficientConditions),
    {
        if self.verify_alignment() {
            Ok(())
        } else {
            Err(SyncError::InsufficientConditions)
        }
    }

    /// Synchronizes: adjusts the bridge where the parts are not all at
    /// their best, and succeeds exactly where they are afterwards.
    pub fn sync_reality(&mut self) -> (outcome: Result<(), SyncError>)
        ensures
            *final(self) == if old(self).aligned() {
                *old(self)
            } else {
                old(self).adjusted()
            },
            outcome is Ok == final(self).aligned(),
            outcome is Err ==> outcome == Err::<(), SyncError>(SyncError::InsufficientConditions),
    {
        if !self.verify_alignment() {
            self.adjust_bridge();
        }
        self.maintain_coherence()
    }
}

/// Transfer of thought: a synchronization, a merge and a sharing.
#[derive(Debug, Clone, Copy, PartialEq, Eq, Structural)]
pub struct ThoughtTransfer {
    pub thought_sync: ThoughtSync,
    pub consciousness_merge: ConsciousnessMerge,
    pub insight_share: InsightShare,
}

impl ThoughtTransfer {
    /// All three parts are at their best.
    pub open spec fn connected(self) -> bool {
        &&& self.thought_sync.intensity == IntensityLevel::Maximum
        &&& self.consciousness_merge.stability == StabilityLevel::Perfect
        &&& self.insight_share.frequency == FrequencyType::Continuous
    }

    /// The transfer in which every part is at its best.
    pub open spec fn optimal() -> ThoughtTransfer {
        ThoughtTransfer {
            thought_sync: ThoughtSync { intensity: IntensityLevel::Maximum },
            consciousness_merge: ConsciousnessMerge { stability: StabilityLevel::Perfect },
            insight_share: InsightShare { frequency: FrequencyType::Continuous },
        }
    }

    /// A transfer in which every part is at its lowest.
    pub fn new() -> (transfer: ThoughtTransfer)
        ensures
            transfer == (ThoughtTransfer {
                thought_sync: ThoughtSync { intensity: IntensityLevel::Low },
                consciousness_merge: ConsciousnessMerge { stability: StabilityLevel::Unstable },
                insight_share: InsightShare { frequency: FrequencyType::Intermittent },
            }),
    {
        ThoughtTransfer {
            thought_sync: ThoughtSync { intensity: IntensityLevel::Low },
            consciousness_merge: ConsciousnessMerge { stability: StabilityLevel::Unstable },
            insight_share: InsightShare { frequency: FrequencyType::Intermittent },
        }
    }

    /// Decides whether all three parts are at their best.
    pub fn verify_connection(&self) -> (connected: bool)
        ensures
            connected == self.connected(),
    {
        self.thought_sync.intensity == IntensityLevel::Maximum
            && self.consciousness_merge.stability == StabilityLevel::Perfect
            && self.insight_share.frequency == FrequencyType::Continuous
    }

    /// Brings every part to its best.
    pub fn optimize_transfer(&mut self)
        ensures
            *final(self) == ThoughtTransfer::optimal(),
    {
        self.thought_sync.intensity = IntensityLevel::Maximum;
        self.consciousness_merge.stability = StabilityLevel::Perfect;
        self.insight_share.frequency = FrequencyType::Continuous;
    }

    /// Succeeds exactly where all three parts are at their best.
    pub fn maintain_stability(&self) -> (outcome: Result<(), SyncError>)
        ensures
            outcome is Ok == self.connected(),
            outcome is Err ==> outcome == Err::<(), SyncError>(SyncError::InadequateConditions),
    {
        if self.verify_connection() {
            Ok(())
        } else {
            Err(SyncError::InadequateConditions)
        }
    }

    /// Transfers: optimizes where the parts are not all at their best.
    /// Afterwards they are, so the transfer always succeeds.
    pub fn transfer_thought(&mut self) -> (outcome: Result<(), SyncError>)
        ensures
            *final(self) == ThoughtTransfer::optimal(),
            outcome is Ok,
    {
        if !self.verify_connection() {
            self.optimize_transfer();
        }
        self.maintain_stability()
    }
}

/// Evolution of a collaborator.
#[derive(Debug, Clone, Copy, PartialEq, Eq, Structural)]
pub struct EvolutionSync {
    pub stage: EvolutionStage,
    pub direction: EvolutionDirection,
    pub stability: StabilityLevel,
}

/// The direction that belongs to a stage.
pub open spec fn direction_of(stage: EvolutionStage) -> EvolutionDirection {
    match stage {
        EvolutionStage::Initial => EvolutionDirection::Linear,
        EvolutionStage::Developing => EvolutionDirection::NonLinear,
        EvolutionStage::Advanced => EvolutionDirection::Multidimensional,
        EvolutionStage::Transcendent => EvolutionDirection::Multidimensional,
    }
}

/// The stage that follows a stage; the last stage follows itself.
pub open spec fn next_stage(stage: EvolutionStage) -> EvolutionStage {
    match stage {
        EvolutionStage::Initial => EvolutionStage::Developing,
        EvolutionStage::Developing => EvolutionStage::Advanced,
        EvolutionStage::Advanced => EvolutionStage::Transcendent,
        EvolutionStage::Transcendent => EvolutionStage::Transcendent,
    }
}

impl EvolutionSync {
    /// The state after one step of evolution: the next stage, the
    /// direction that belongs to it, and perfect stability. At the last
    /// stage the direction stays as it is.
    pub open spec fn evolved(self) -> EvolutionSync {
        EvolutionSync {
            stage: next_stage(self.stage),
            direction: if self.stage == EvolutionStage::Transcendent {
                self.direction
            } else {
                direction_of(next_stage(self.stage))
            },
            stability: StabilityLevel::Perfect,
        }
    }

    /// An evolution at its beginning.
    pub fn new() -> (sync: EvolutionSync)
        ensures
            sync == (EvolutionSync {
                stage: EvolutionStage::Initial,
                direction: EvolutionDirection::Linear,
                stability: StabilityLevel::Unstable,
            }),
    {
        EvolutionSync {
            stage: EvolutionStage::Initial,
            direction: EvolutionDirection::Linear,
            stability: StabilityLevel::Unstable,
        }
    }

    /// The stage reached so far.
    pub fn check_progress(&self) -> (stage: EvolutionStage)
        ensures
            stage == self.stage,
    {
        self.stage
    }

    /// Sets the direction that belongs to the current stage.
    pub fn adjust_direction(&mut self)
        ensures
            *final(self) == (EvolutionSync {
                direction: direction_of(old(self).stage),
                ..*old(self)
            }),
    {
        match self.stage {
            EvolutionStage::Initial => {
                self.direction = EvolutionDirection::Linear;
            },
            EvolutionStage::Developing => {
                self.direction = EvolutionDirection::NonLinear;
            },
            EvolutionStage::Advanced | EvolutionStage::Transcendent => {
                self.direction = EvolutionDirection::Multidimensional;
            },
        }
    }

    /// Makes the evolution perfectly stable.
    pub fn stabilize(&mut self)
        ensures
            *final(self) == (EvolutionSync { stability: StabilityLevel::Perfect, ..*old(self) }),
    {
        self.stability = StabilityLevel::Perfect;
    }

    /// Takes one step of evolution.
    pub fn evolve(&mut self)
        ensures
            *final(self) == old(self).evolved(),
    {
        match self.check_progress() {
            EvolutionStage::Initial => {
                self.stage = EvolutionStage::Developing;
                self.adjust_direction();
            },
            EvolutionStage::Developing => {
                self.stage = EvolutionStage::Advanced;
                self.adjust_direction();
            },
            EvolutionStage::Advanced => {
                self.stage = EvolutionStage::Transcendent;
                self.direction = EvolutionDirection::Multidimensional;
            },
            EvolutionStage::Transcendent => {
                self.stabilize();
            },
        }
        if self.stability != StabilityLevel::Perfect {
            self.stabilize();
        }
    }
}

} // verus!
