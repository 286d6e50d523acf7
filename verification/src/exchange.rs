//! A whole call, from the caller's message to what the caller gets back,
//! and what holds of every call.
//!
//! Between the client and the server stands a transport. These statements
//! take it to deliver the request as it was sent and the answer as it was
//! given.

use crate::client::services::calculator::{calculate_request, failure_for_caller};
use crate::client::services::echo::echo_request;
use crate::number::Double;
use crate::proto::calculator::{CalculateRequest, Operation};
use crate::rules::{invalid, DIVISION_BY_ZERO, EMPTY_MESSAGE, UNKNOWN_OPERATION};
use crate::server::services::calculator::{calculate_answer, Calculation};
use crate::server::services::echo::echo_answer;
use crate::status::StatusView;
use crate::text::is_blank;
use vstd::prelude::*;

verus! {

/// What the caller gets for an echo of `message`: the client checks and
/// sends, the server checks and answers, the client hands the answer on.
pub open spec fn echo_call(message: Seq<char>) -> Result<Seq<char>, StatusView> {
    match echo_request(message) {
        Err(status) => Err(status),
        Ok(sent) => echo_answer(sent),
    }
}

/// What the caller gets for a calculation: the calculation that is carried
/// out, or the failure. The client checks and sends, the server checks and
/// answers, and the client reports a failure as it reports every failure.
pub open spec fn calculate_call(first: Double, second: Double, operation: Operation) -> Result<
    Calculation,
    StatusView,
> {
    match calculate_request(first, second, operation) {
        Err(status) => Err(status),
        Ok(sent) => match calculate_answer(sent) {
            Ok(calculation) => Ok(calculation),
            Err(status) => Err(failure_for_caller(status)),
        },
    }
}

/// A message that is not blank comes back unchanged: the client sends it as
/// it is, the server answers with it, and so does the whole call. This holds
/// whatever the message is made of besides, characters of several bytes,
/// control characters and the null character included.
pub proof fn lemma_echo_is_identity(message: Seq<char>)
    requires
        !is_blank(message),
    ensures
        echo_request(message) == Ok::<Seq<char>, StatusView>(message),
        echo_answer(message) == Ok::<Seq<char>, StatusView>(message),
        echo_call(message) == Ok::<Seq<char>, StatusView>(message),
{
}

/// A blank message is rejected as invalid input on both sides: by the client
/// before anything is sent, and by the server when the message reaches it
/// all the same.
pub proof fn lemma_blank_echo_is_rejected(message: Seq<char>)
    requires
        is_blank(message),
    ensures
        echo_request(message) == Err::<Seq<char>, StatusView>(invalid(EMPTY_MESSAGE@)),
        echo_answer(message) == Err::<Seq<char>, StatusView>(invalid(EMPTY_MESSAGE@)),
        echo_call(message) == Err::<Seq<char>, StatusView>(invalid(EMPTY_MESSAGE@)),
{
}

/// The empty message is blank, and so is rejected.
pub proof fn lemma_empty_message_is_blank()
    ensures
        is_blank(Seq::<char>::empty()),
{
}

/// The client and the server judge an echo message alike.
pub proof fn lemma_echo_sides_agree(message: Seq<char>)
    ensures
        echo_request(message) == echo_answer(message),
{
}

/// A division by zero is rejected as invalid input on both sides, whatever
/// the first operand and whichever of the two zeros the second is: by the
/// client before anything is sent, and by the server when the request
/// reaches it all the same.
pub proof fn lemma_division_by_zero_is_rejected(first: Double, second: Double)
    requires
        second.is_zero(),
    ensures
        calculate_request(first, second, Operation::Divide) == Err::<
            CalculateRequest,
            StatusView,
        >(invalid(DIVISION_BY_ZERO@)),
        calculate_answer(
            CalculateRequest {
                first_number: first,
                second_number: second,
                operation: Operation::Divide.tag(),
            },
        ) == Err::<Calculation, StatusView>(invalid(DIVISION_BY_ZERO@)),
        calculate_call(first, second, Operation::Divide) == Err::<Calculation, StatusView>(
            invalid(DIVISION_BY_ZERO@),
        ),
{
}

/// Every other calculation is accepted on both sides and carried out as the
/// caller asked: the same operation on the same operands, in the same
/// order. No operand but a zero divisor is refused, whatever its size or
/// sign, and a NaN is none.
pub proof fn lemma_calculation_is_carried_out(first: Double, second: Double, operation: Operation)
    requires
        !(operation == Operation::Divide && second.is_zero()),
    ensures
        calculate_request(first, second, operation) == Ok::<CalculateRequest, StatusView>(
            CalculateRequest {
                first_number: first,
                second_number: second,
                operation: operation.tag(),
            },
        ),
        calculate_answer(
            CalculateRequest {
                first_number: first,
                second_number: second,
                operation: operation.tag(),
            },
        ) == Ok::<Calculation, StatusView>(Calculation { operation, first, second }),
        calculate_call(first, second, operation) == Ok::<Calculation, StatusView>(
            Calculation { operation, first, second },
        ),
{
}

/// A request whose tag stands for no operation is rejected in words of its
/// own, which are not those of a division by zero, and is never carried out
/// as one of the four.
pub proof fn lemma_unknown_operation_is_rejected(request: CalculateRequest)
    requires
        Operation::from_tag(request.operation) is None,
    ensures
        calculate_answer(request) == Err::<Calculation, StatusView>(invalid(UNKNOWN_OPERATION@)),
        UNKNOWN_OPERATION@ != DIVISION_BY_ZERO@,
{
    reveal_strlit("unrecognized operation");
    reveal_strlit("division by zero is not allowed");
    assert(UNKNOWN_OPERATION@.len() != DIVISION_BY_ZERO@.len());
}

} // verus!
