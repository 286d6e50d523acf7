//! The calculator service: which operation a request asks for, and whether
//! it may be carried out.

use crate::number::Double;
use crate::proto::calculator::{CalculateRequest, Operation};
use crate::rules::{calculate_objection, check_calculate, invalid, UNKNOWN_OPERATION};
use crate::status::{Code, Status, StatusView};
use vstd::prelude::*;

verus! {

/// A calculation that passed the checks: the operation, and the operands in
/// the order in which it takes them. Sum, difference, product and quotient
/// are those of IEEE 754 binary64 arithmetic.
#[derive(Clone, Copy, Debug, PartialEq, Eq, Structural)]
pub struct Calculation {
    pub operation: Operation,
    pub first: Double,
    pub second: Double,
}

/// What the service answers to a request. A tag that stands for no operation
/// is rejected as such, and is never read as one of the four; a division by
/// zero is rejected; any other request is to be carried out as it stands.
pub open spec fn calculate_answer(request: CalculateRequest) -> Result<Calculation, StatusView> {
    match Operation::from_tag(request.operation) {
        None => Err(invalid(UNKNOWN_OPERATION@)),
        Some(operation) => match calculate_objection(operation, request.second_number) {
            Some(status) => Err(status),
            None => Ok(
                Calculation {
                    operation,
                    first: request.first_number,
                    second: request.second_number,
                },
            ),
        },
    }
}

/// The calculator service.
#[derive(Debug)]
pub struct CalculatorServer {}

impl Default for CalculatorServer {
    fn default() -> (server: CalculatorServer)
        ensures
            server == (CalculatorServer {}),
    {
        CalculatorServer {}
    }
}

impl CalculatorServer {
    /// Answers one request with the calculation to carry out, or with the
    /// status that rejects it. The server checks the operands whether or not
    /// the caller did.
    pub fn calculate(&self, request: CalculateRequest) -> (answer: Result<Calculation, Status>)
        ensures
            match answer {
                Ok(calculation) => calculate_answer(request) == Ok::<Calculation, StatusView>(
                    calculation
                ),
                Err(status) => calculate_answer(request) == Err::<Calculation, StatusView>(
                    status@
                ),
            },
    {
        match Operation::from_tag(request.operation) {
            None => Err(Status::new(Code::InvalidArgument, UNKNOWN_OPERATION)),
            Some(operation) => match check_calculate(operation, request.second_number) {
                Err(status) => Err(status),
                Ok(_) => Ok(
                    Calculation {
                        operation,
                        first: request.first_number,
                        second: request.second_number,
                    },
                ),
            },
        }
    }
}

} // verus!
