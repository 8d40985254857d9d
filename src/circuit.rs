use vstd::prelude::*;

verus! {

/// The proof aggregation level that a request asks for.
#[derive(Debug, Clone, Copy, PartialEq, Eq, Structural)]
pub enum CircuitType {
    CHUNK,
    BATCH,
    BUNDLE,
}

impl CircuitType {
    /// The number that stands for this circuit type on the wire.
    pub open spec fn code_spec(self) -> u8 {
        match self {
            CircuitType::CHUNK => 1,
            CircuitType::BATCH => 2,
            CircuitType::BUNDLE => 3,
        }
    }

    /// Whether `value` is the wire number of some circuit type.
    pub open spec fn is_code(value: u8) -> bool {
        1 <= value <= 3
    }

    /// The circuit type whose wire number is `value`, if any.
    pub open spec fn of_code(value: u8) -> Option<CircuitType> {
        if value == 1 {
            Some(CircuitType::CHUNK)
        } else if value == 2 {
            Some(CircuitType::BATCH)
        } else if value == 3 {
            Some(CircuitType::BUNDLE)
        } else {
            None
        }
    }

    /// The wire number of this circuit type.
    pub fn code(&self) -> (r: u8)
        ensures
            r == self.code_spec(),
    {
        match self {
            CircuitType::CHUNK => 1,
            CircuitType::BATCH => 2,
            CircuitType::BUNDLE => 3,
        }
    }

    /// The circuit type with wire number `value`; `None` for any other number.
    pub fn from_code(value: u8) -> (r: Option<CircuitType>)
        ensures
            r == Self::of_code(value),
            r is Some <==> Self::is_code(value),
    {
        match value {
            1 => Some(CircuitType::CHUNK),
            2 => Some(CircuitType::BATCH),
            3 => Some(CircuitType::BUNDLE),
            _ => None,
        }
    }

    /// The circuit type with wire number `value`, which must be a valid one.
    pub fn from(value: u8) -> (r: CircuitType)
        requires
            Self::is_code(value),
        ensures
            r.code_spec() == value,
            Self::of_code(value) == Some(r),
    {
        match value {
            1 => CircuitType::CHUNK,
            2 => CircuitType::BATCH,
            _ => CircuitType::BUNDLE,
        }
    }
}

/// Reading back the wire number of a circuit type gives that circuit type.
pub proof fn lemma_code_round_trip(t: CircuitType)
    ensures
        CircuitType::is_code(t.code_spec()),
        CircuitType::of_code(t.code_spec()) == Some(t),
{
}

/// Every valid wire number is the wire number of the circuit type it names.
pub proof fn lemma_of_code_inverse(value: u8)
    requires
        CircuitType::is_code(value),
    ensures
        CircuitType::of_code(value) matches Some(t) && t.code_spec() == value,
{
}

} // verus!
