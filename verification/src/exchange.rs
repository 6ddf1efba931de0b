//! What happens once the transport has answered: the status of the answer is
//! held against the one status that the operation expects, and only then are
//! the headers decoded. A failure of the transport, another status, and a
//! header that cannot be had each end the exchange with their own failure.

use hyper::header::HeaderValue;
use hyper::HeaderMap;
use vstd::prelude::*;
use crate::descriptor::{
    decode,
    decoded,
    entries,
    lemma_failure_has_cause,
    values,
    Field,
    FieldSpec,
    FieldValue,
    Value,
};
use crate::errors::{AzureError, Failure};
use crate::headers::header_fields;

verus! {

/// The status of a successful answer to most operations.
pub const STATUS_OK: u16 = 200;

/// The answer of the service to one request, as the transport received it.
#[derive(Debug)]
pub struct Reply {
    pub status: u16,
    pub headers: HeaderMap<HeaderValue>,
    pub body: Vec<u8>,
}

/// A `Reply` as mathematical values.
pub struct Answer {
    pub status: u16,
    pub fields: Map<Seq<char>, Seq<u8>>,
    pub body: Seq<u8>,
}

impl View for Reply {
    type V = Answer;

    open spec fn view(&self) -> Answer {
        Answer { status: self.status, fields: header_fields(self.headers), body: self.body@ }
    }
}

/// What the transport reports of one request: the service's answer, or its
/// own message where it could not get one.
pub open spec fn reported(outcome: Result<Reply, String>) -> Result<Answer, Seq<char>> {
    match outcome {
        Ok(reply) => Ok(reply@),
        Err(message) => Err(message@),
    }
}

/// The failure of an answer whose status is not the expected one.
pub open spec fn unexpected_status(expected: u16, answer: Answer) -> Failure {
    Failure::UnexpectedStatus { expected, received: answer.status, body: answer.body }
}

/// How an exchange ends: with the transport's failure; or with the failure
/// of an unexpected status, whatever the headers are; or with what decoding
/// the headers gives.
pub open spec fn concluded(
    outcome: Result<Answer, Seq<char>>,
    expected: u16,
    descriptor: Seq<Field>,
) -> Result<Seq<Value>, Failure> {
    match outcome {
        Err(message) => Err(Failure::Transport { message }),
        Ok(answer) => if answer.status != expected {
            Err(unexpected_status(expected, answer))
        } else {
            decoded(descriptor, answer.fields)
        },
    }
}

/// Holds the status of an answer against the expected one. Where they agree
/// the headers and the body are handed on; where they differ the failure
/// carries both statuses and the body.
pub fn check_status_extract_headers_and_body(
    reply: Reply,
    expected: u16,
) -> (result: Result<(HeaderMap<HeaderValue>, Vec<u8>), AzureError>)
    ensures
        match result {
            Ok((headers, body)) => {
                &&& reply.status == expected
                &&& headers == reply.headers
                &&& body == reply.body
            },
            Err(e) => reply.status != expected && e@ == unexpected_status(expected, reply@),
        },
{
    if reply.status == expected {
        Ok((reply.headers, reply.body))
    } else {
        Err(AzureError::UnexpectedStatus { expected, received: reply.status, body: reply.body })
    }
}

/// Ends an exchange: passes on the transport's failure, refuses an answer of
/// another status than `expected`, and decodes the headers of an answer of
/// that status as `descriptor` says.
pub fn conclude(
    outcome: Result<Reply, String>,
    expected: u16,
    descriptor: &[FieldSpec],
) -> (result: Result<Vec<FieldValue>, AzureError>)
    ensures
        match result {
            Ok(list) => concluded(reported(outcome), expected, entries(descriptor@)) == Ok::<
                Seq<Value>,
                Failure,
            >(values(list@)),
            Err(e) => concluded(reported(outcome), expected, entries(descriptor@)) == Err::<
                Seq<Value>,
                Failure,
            >(e@),
        },
{
    match outcome {
        Err(message) => Err(AzureError::Transport { message }),
        Ok(reply) => match check_status_extract_headers_and_body(reply, expected) {
            Err(error) => Err(error),
            Ok((headers, _body)) => decode(descriptor, &headers),
        },
    }
}

/// An answer of another status than the expected one ends the exchange with
/// the failure that carries that status and the body. The headers play no
/// part in it: they are not decoded.
pub proof fn lemma_status_mismatch(
    answer: Answer,
    fields: Map<Seq<char>, Seq<u8>>,
    expected: u16,
    descriptor: Seq<Field>,
)
    requires
        answer.status != expected,
    ensures
        concluded(Ok(answer), expected, descriptor) == Err::<Seq<Value>, Failure>(
            Failure::UnexpectedStatus { expected, received: answer.status, body: answer.body },
        ),
        concluded(Ok(Answer { fields, ..answer }), expected, descriptor) == concluded(
            Ok(answer),
            expected,
            descriptor,
        ),
{
}

/// How an exchange ends tells why. It ends well exactly if the transport
/// got an answer of the expected status whose headers decode. It ends with
/// the transport's failure exactly if the transport got no answer, with the
/// failure of an unexpected status exactly if the answer has another status,
/// and with a missing or malformed header exactly if the answer has the
/// expected status and its headers do not decode.
pub proof fn lemma_ending_tells_cause(
    outcome: Result<Answer, Seq<char>>,
    expected: u16,
    descriptor: Seq<Field>,
)
    ensures
        concluded(outcome, expected, descriptor) is Ok <==> (outcome matches Ok(answer)
            && answer.status == expected && decoded(descriptor, answer.fields) is Ok),
        (concluded(outcome, expected, descriptor) matches Err(failure) && failure is Transport)
            <==> outcome is Err,
        (concluded(outcome, expected, descriptor) matches Err(failure)
            && failure is UnexpectedStatus) <==> (outcome matches Ok(answer) && answer.status
            != expected),
        (concluded(outcome, expected, descriptor) matches Err(failure) && (
        failure is HeaderNotFound || failure is MalformedHeader)) <==> (outcome matches Ok(answer)
            && answer.status == expected && decoded(descriptor, answer.fields) is Err),
{
    if let Ok(answer) = outcome {
        if answer.status == expected && decoded(descriptor, answer.fields) is Err {
            lemma_failure_has_cause(descriptor, answer.fields);
        }
    }
}

} // verus!
