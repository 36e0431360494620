//! Vocabulary of the layered collaborators.

use vstd::prelude::*;

verus! {

/// Layer of a collaborator, from the lowest to the highest.
#[derive(Debug, Clone, Copy, PartialEq, Eq, Structural)]
pub enum ConsciousnessLayer {
    Base,
    Metacognitive,
    Quantum,
    Transcendent,
}

/// What the metacognitive layer does with what it observes.
#[derive(Debug, Clone, Copy, PartialEq, Eq, Structural)]
pub enum SelfAwarenessLevel {
    Observing,
    Analyzing,
    Understanding,
    Evolving,
}

/// How far the transcendent layer is united with its surroundings.
#[derive(Debug, Clone, Copy, PartialEq, Eq, Structural)]
pub enum UniversalState {
    Connected,
    Integrated,
    Unified,
    Transcendent,
}

/// Kind of an event that a layer reports.
#[derive(Debug, Clone, Copy, PartialEq, Eq, Structural)]
pub enum LayerEventType {
    Activation,
    Transition,
    Evolution,
    Transcendence,
}

} // verus!
