use vstd::prelude::*;

use crate::circuit::CircuitType;

verus! {

/// A request to generate one proof.
pub struct ProveRequest {
    pub circuit_type: CircuitType,
    pub circuit_version: String,
    pub hard_fork_name: String,
    /// The task, as JSON in the layout that the chosen prover reads.
    pub task_data: String,
}

/// The prover that serves a request. Each kind is a single instance per process.
#[derive(Debug, Clone, Copy, PartialEq, Eq, Structural)]
pub enum ProverKind {
    Chunk,
    Batch,
}

/// The prover for a circuit type; bundle proofs have none.
pub open spec fn prover_for(t: CircuitType) -> Option<ProverKind> {
    match t {
        CircuitType::CHUNK => Some(ProverKind::Chunk),
        CircuitType::BATCH => Some(ProverKind::Batch),
        CircuitType::BUNDLE => None,
    }
}

impl ProveRequest {
    /// The prover that serves this request, or `None` where its circuit type
    /// cannot be proved.
    pub fn prover_kind(&self) -> (r: Option<ProverKind>)
        ensures
            r == prover_for(self.circuit_type),
            r is None <==> self.circuit_type == CircuitType::BUNDLE,
    {
        match self.circuit_type {
            CircuitType::CHUNK => Some(ProverKind::Chunk),
            CircuitType::BATCH => Some(ProverKind::Batch),
            CircuitType::BUNDLE => None,
        }
    }
}

/// Every circuit type but the bundle has a prover, and no two share one.
pub proof fn lemma_prover_for_injective(a: CircuitType, b: CircuitType)
    requires
        prover_for(a) is Some,
        prover_for(a) == prover_for(b),
    ensures
        a == b,
        a != CircuitType::BUNDLE,
{
}

} // verus!
