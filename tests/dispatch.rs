use snarkify_handler::circuit::CircuitType;
use snarkify_handler::request::{ProveRequest, ProverKind};

fn request(circuit_type: CircuitType) -> ProveRequest {
    ProveRequest {
        circuit_type,
        circuit_version: "v0.12.0".to_string(),
        hard_fork_name: "darwin".to_string(),
        task_data: "[]".to_string(),
    }
}

#[test]
fn circuit_type_from_valid_codes() {
    assert_eq!(CircuitType::from(1), CircuitType::CHUNK);
    assert_eq!(CircuitType::from(2), CircuitType::BATCH);
    assert_eq!(CircuitType::from(3), CircuitType::BUNDLE);
}

#[test]
fn circuit_type_from_code_rejects_others() {
    assert_eq!(CircuitType::from_code(0), None);
    assert_eq!(CircuitType::from_code(4), None);
    assert_eq!(CircuitType::from_code(255), None);
    assert_eq!(CircuitType::from_code(2), Some(CircuitType::BATCH));
}

#[test]
fn circuit_type_code_round_trip() {
    for t in [CircuitType::CHUNK, CircuitType::BATCH, CircuitType::BUNDLE] {
        assert_eq!(CircuitType::from_code(t.code()), Some(t));
    }
    assert_eq!(CircuitType::BUNDLE.code(), 3);
}

#[test]
fn prover_kind_per_circuit_type() {
    assert_eq!(request(CircuitType::CHUNK).prover_kind(), Some(ProverKind::Chunk));
    assert_eq!(request(CircuitType::BATCH).prover_kind(), Some(ProverKind::Batch));
    assert_eq!(request(CircuitType::BUNDLE).prover_kind(), None);
}
