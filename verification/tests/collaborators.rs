use sage_x::sync_protocols::{
    EvolutionDirection, EvolutionStage, EvolutionSync, FrequencyType, IntensityLevel,
    PrecisionLevel, RealitySync, StabilityLevel, StrengthLevel, SyncError, ThoughtTransfer,
};
use sage_x::warp_bridge::WarpBridgeConfig;

#[test]
fn test_warp_bridge_config() {
    let config = WarpBridgeConfig::default();
    assert_eq!(config.buffer_size, 100);
    assert_eq!(config.heartbeat_interval, 1000);
    assert_eq!(config.connection_timeout, 30);
}

#[test]
fn test_evolution_sync() {
    let mut evolution = EvolutionSync::new();
    assert_eq!(evolution.stage, EvolutionStage::Initial);
    evolution.evolve();
    assert_eq!(evolution.stage, EvolutionStage::Developing);
    assert_eq!(evolution.direction, EvolutionDirection::NonLinear);
}

#[test]
fn evolution_starts_at_the_beginning() {
    let evolution = EvolutionSync::new();
    assert_eq!(evolution.stage, EvolutionStage::Initial);
    assert_eq!(evolution.direction, EvolutionDirection::Linear);
    assert_eq!(evolution.stability, StabilityLevel::Unstable);
    assert_eq!(evolution.check_progress(), EvolutionStage::Initial);
}

#[test]
fn evolution_passes_every_stage_and_settles() {
    let mut evolution = EvolutionSync::new();
    let expected = [
        (EvolutionStage::Developing, EvolutionDirection::NonLinear),
        (EvolutionStage::Advanced, EvolutionDirection::Multidimensional),
        (EvolutionStage::Transcendent, EvolutionDirection::Multidimensional),
        (EvolutionStage::Transcendent, EvolutionDirection::Multidimensional),
    ];
    for (stage, direction) in expected {
        evolution.evolve();
        assert_eq!(evolution.stage, stage);
        assert_eq!(evolution.direction, direction);
        assert_eq!(evolution.stability, StabilityLevel::Perfect);
    }
}

#[test]
fn direction_follows_the_stage() {
    let mut evolution = EvolutionSync::new();
    evolution.stage = EvolutionStage::Advanced;
    evolution.adjust_direction();
    assert_eq!(evolution.direction, EvolutionDirection::Multidimensional);
    assert_eq!(evolution.stability, StabilityLevel::Unstable);
    evolution.stabilize();
    assert_eq!(evolution.stability, StabilityLevel::Perfect);
    assert_eq!(evolution.stage, EvolutionStage::Advanced);
}

#[test]
fn reality_sync_needs_every_part_at_its_best() {
    let mut sync = RealitySync::new();
    assert!(!sync.verify_alignment());
    assert_eq!(sync.maintain_coherence(), Err(SyncError::InsufficientConditions));
    assert_eq!(sync.sync_reality(), Err(SyncError::InsufficientConditions));
    assert_eq!(sync.plane_bridge.stability, StabilityLevel::Perfect);
    assert_eq!(sync.alignment.precision, PrecisionLevel::Basic);
    assert_eq!(sync.existence_link.strength, StrengthLevel::Minimum);

    sync.alignment.precision = PrecisionLevel::Perfect;
    sync.existence_link.strength = StrengthLevel::Maximum;
    assert!(sync.verify_alignment());
    assert_eq!(sync.sync_reality(), Ok(()));
    assert_eq!(sync.maintain_coherence(), Ok(()));
}

#[test]
fn adjusting_the_bridge_touches_the_bridge_alone() {
    let mut sync = RealitySync::new();
    sync.adjust_bridge();
    assert_eq!(sync.plane_bridge.stability, StabilityLevel::Perfect);
    assert_eq!(sync.alignment.precision, PrecisionLevel::Basic);
    assert_eq!(sync.existence_link.strength, StrengthLevel::Minimum);
}

#[test]
fn thought_transfer_optimizes_itself() {
    let mut transfer = ThoughtTransfer::new();
    assert!(!transfer.verify_connection());
    assert_eq!(transfer.maintain_stability(), Err(SyncError::InadequateConditions));
    assert_eq!(transfer.transfer_thought(), Ok(()));
    assert!(transfer.verify_connection());
    assert_eq!(transfer.thought_sync.intensity, IntensityLevel::Maximum);
    assert_eq!(transfer.consciousness_merge.stability, StabilityLevel::Perfect);
    assert_eq!(transfer.insight_share.frequency, FrequencyType::Continuous);
    assert_eq!(transfer.maintain_stability(), Ok(()));
}

#[test]
fn sync_error_messages() {
    assert_eq!(
        SyncError::InsufficientConditions.message(),
        "Insufficient conditions for synchronization"
    );
    assert_eq!(SyncError::InadequateConditions.message(), "Inadequate conditions for transfer");
}
