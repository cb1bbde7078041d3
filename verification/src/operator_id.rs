//! The Operator ID message: the registration identifier of the operator.

use vstd::prelude::*;

verus! {

/// Kind of operator identifier.  Code 0 is the CAA-assigned form; every
/// other byte is carried through unchanged as `Unknown(code)` so that a
/// re-encoded message reproduces the observed wire byte.
#[derive(Debug, Copy, Clone, PartialEq, Eq, Structural)]
pub enum OperatorIdType {
    CaaAssigned,
    Unknown(u8),
}

impl OperatorIdType {
    pub open spec fn spec_code(self) -> u8 {
        match self {
            OperatorIdType::CaaAssigned => 0,
            OperatorIdType::Unknown(code) => code,
        }
    }

    pub open spec fn spec_from_code(code: u8) -> Self {
        if code == 0 {
            OperatorIdType::CaaAssigned
        } else {
            OperatorIdType::Unknown(code)
        }
    }

    /// `Unknown(0)` would be indistinguishable from `CaaAssigned` on the
    /// wire; a well-formed value never carries code 0.
    pub open spec fn wf(self) -> bool {
        self != OperatorIdType::Unknown(0u8)
    }

    pub fn to_code(self) -> (r: u8)
        ensures
            r == self.spec_code(),
    {
        match self {
            OperatorIdType::CaaAssigned => 0,
            OperatorIdType::Unknown(code) => code,
        }
    }

    /// Total on every byte: nothing is rejected at field level.
    pub fn from_code(code: u8) -> (r: Self)
        ensures
            r == Self::spec_from_code(code),
    {
        if code == 0 {
            OperatorIdType::CaaAssigned
        } else {
            OperatorIdType::Unknown(code)
        }
    }
}

/// An Operator ID message.  The identifier buffer is always exactly 20
/// bytes on the wire; see `copy_to_id` for the padding and truncation rule.
#[derive(Debug, Copy, Clone, PartialEq)]
pub struct OperatorId {
    pub id_type: OperatorIdType,
    pub operator_id: [u8; 20],
}

impl OperatorId {
    pub open spec fn wf(self) -> bool {
        self.id_type.wf()
    }
}

} // verus!
