//! The messages of the calculator service.

use crate::number::Double;
use vstd::prelude::*;

verus! {

/// The four operations of the calculator.
#[derive(Clone, Copy, Debug, PartialEq, Eq, Structural)]
pub enum Operation {
    Add,
    Subtract,
    Multiply,
    Divide,
}

impl Operation {
    /// The number that stands for the operation in a message.
    pub open spec fn tag_spec(self) -> i32 {
        match self {
            Operation::Add => 0,
            Operation::Subtract => 1,
            Operation::Multiply => 2,
            Operation::Divide => 3,
        }
    }

    /// The operation that a number stands for, if any.
    pub open spec fn from_tag_spec(tag: i32) -> Option<Operation> {
        if tag == 0 {
            Some(Operation::Add)
        } else if tag == 1 {
            Some(Operation::Subtract)
        } else if tag == 2 {
            Some(Operation::Multiply)
        } else if tag == 3 {
            Some(Operation::Divide)
        } else {
            None
        }
    }

    /// The number that stands for the operation in a message.
    #[verifier::when_used_as_spec(tag_spec)]
    pub fn tag(self) -> (tag: i32)
        ensures
            tag == self.tag_spec(),
    {
        match self {
            Operation::Add => 0,
            Operation::Subtract => 1,
            Operation::Multiply => 2,
            Operation::Divide => 3,
        }
    }

    /// The operation that `tag` stands for; `None` for a number that stands
    /// for none.
    #[verifier::when_used_as_spec(from_tag_spec)]
    pub fn from_tag(tag: i32) -> (operation: Option<Operation>)
        ensures
            operation == Operation::from_tag_spec(tag),
    {
        if tag == 0 {
            Some(Operation::Add)
        } else if tag == 1 {
            Some(Operation::Subtract)
        } else if tag == 2 {
            Some(Operation::Multiply)
        } else if tag == 3 {
            Some(Operation::Divide)
        } else {
            None
        }
    }

    /// Each operation is read back from its own tag, and a tag that is read
    /// as an operation is the tag of that operation.
    pub proof fn lemma_tag_round_trip(operation: Operation, tag: i32)
        ensures
            Operation::from_tag(operation.tag()) == Some(operation),
            Operation::from_tag(tag) matches Some(read) ==> read.tag() == tag,
    {
    }
}

/// Two operands and the tag of an operation.
#[derive(Clone, Copy, Debug, PartialEq, Eq, Structural)]
pub struct CalculateRequest {
    pub first_number: Double,
    pub second_number: Double,
    pub operation: i32,
}

/// The result of a calculation.
#[derive(Clone, Copy, Debug, PartialEq, Eq, Structural)]
pub struct CalculateResponse {
    pub result: Double,
}

} // verus!
