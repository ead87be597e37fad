//! Fetching a source file: the errors of the transfer, and what the copy
//! from the body of a response to the output does with each thing that the
//! body gives.
//!
//! The copy asks the body for its next item and acts on it, until an item
//! ends it: a chunk is written to the output, a broken body or a failed
//! write ends the copy with that error at once, and the end of the body ends
//! it with success. Asking and writing are the caller's part; what to do with
//! each answer is decided here.
use vstd::prelude::*;
use awc::error::{PayloadError, SendRequestError};

verus! {

/// Error of reading the body of a response, as `awc` reports it.
#[verifier::external_type_specification]
#[verifier::external_body]
pub struct ExPayloadError(PayloadError);

/// Error of sending a request, as `awc` reports it.
#[verifier::external_type_specification]
#[verifier::external_body]
pub struct ExSendRequestError(SendRequestError);

/// What can go wrong while a resource is fetched and stored.
#[derive(Debug)]
pub enum ClientServiceError {
    /// The request could not be sent, or was not answered.
    FetchResourceError(SendRequestError),
    /// The body of the response broke off or could not be decoded.
    PayloadError(PayloadError),
    /// The output could not be written.
    IoError(std::io::Error),
}

/// Result of an operation of the client service.
pub type ClientServiceResult<T> = Result<T, ClientServiceError>;

impl From<SendRequestError> for ClientServiceError {
    fn from(error: SendRequestError) -> (converted: Self) {
        ClientServiceError::FetchResourceError(error)
    }
}

impl vstd::std_specs::convert::FromSpecImpl<SendRequestError> for ClientServiceError {
    open spec fn obeys_from_spec() -> bool {
        true
    }

    open spec fn from_spec(error: SendRequestError) -> Self {
        ClientServiceError::FetchResourceError(error)
    }
}

impl From<PayloadError> for ClientServiceError {
    fn from(error: PayloadError) -> (converted: Self) {
        ClientServiceError::PayloadError(error)
    }
}

impl vstd::std_specs::convert::FromSpecImpl<PayloadError> for ClientServiceError {
    open spec fn obeys_from_spec() -> bool {
        true
    }

    open spec fn from_spec(error: PayloadError) -> Self {
        ClientServiceError::PayloadError(error)
    }
}

impl From<std::io::Error> for ClientServiceError {
    fn from(error: std::io::Error) -> (converted: Self) {
        ClientServiceError::IoError(error)
    }
}

impl vstd::std_specs::convert::FromSpecImpl<std::io::Error> for ClientServiceError {
    open spec fn obeys_from_spec() -> bool {
        true
    }

    open spec fn from_spec(error: std::io::Error) -> Self {
        ClientServiceError::IoError(error)
    }
}

/// What the body of a response gives when it is asked for more: a chunk, an
/// error, or nothing, once it has ended.
pub type BodyItem<B> = Option<Result<B, PayloadError>>;

/// What the copy does next.
#[derive(Debug)]
pub enum CopyStep<B> {
    /// Write the chunk to the output, then ask the body again.
    Write(B),
    /// Stop, with this result.
    Finish(ClientServiceResult<()>),
}

/// The step for an item of the body.
pub open spec fn step_for<B>(item: BodyItem<B>) -> CopyStep<B> {
    match item {
        Some(Ok(chunk)) => CopyStep::Write(chunk),
        Some(Err(error)) => CopyStep::Finish(Err(ClientServiceError::PayloadError(error))),
        None => CopyStep::Finish(Ok(())),
    }
}

/// How a write ends the copy: not at all where it succeeded, and with the
/// error where it failed.
pub open spec fn stop_after_write(written: Result<(), std::io::Error>) -> Option<
    ClientServiceError,
> {
    match written {
        Ok(_) => None,
        Err(error) => Some(ClientServiceError::IoError(error)),
    }
}

/// The chunks that the copy writes when the body gives `items` in this order
/// and no write fails: every chunk before the first item that is none.
pub open spec fn written_chunks<B>(items: Seq<BodyItem<B>>) -> Seq<B>
    decreases items.len(),
{
    if items.len() == 0 {
        Seq::<B>::empty()
    } else {
        match step_for(items[0]) {
            CopyStep::Write(chunk) => seq![chunk] + written_chunks(items.drop_first()),
            CopyStep::Finish(_) => Seq::<B>::empty(),
        }
    }
}

/// The result with which the copy stops when the body gives `items` in this
/// order and no write fails: that of the first item that is no chunk. `None`
/// where every item is a chunk, and the copy goes on.
pub open spec fn copy_result<B>(items: Seq<BodyItem<B>>) -> Option<ClientServiceResult<()>>
    decreases items.len(),
{
    if items.len() == 0 {
        None
    } else {
        match step_for(items[0]) {
            CopyStep::Write(_) => copy_result(items.drop_first()),
            CopyStep::Finish(result) => Some(result),
        }
    }
}

/// The items of a body that gives `chunks` in order and then ends.
pub open spec fn whole_body<B>(chunks: Seq<B>) -> Seq<BodyItem<B>> {
    Seq::new(
        chunks.len() + 1,
        |index: int|
            if index < chunks.len() {
                Some(Ok::<B, PayloadError>(chunks[index]))
            } else {
                None
            },
    )
}

/// The items of a body that gives `chunks` in order and then breaks.
pub open spec fn broken_body<B>(chunks: Seq<B>, error: PayloadError) -> Seq<BodyItem<B>> {
    Seq::new(
        chunks.len() + 1,
        |index: int|
            if index < chunks.len() {
                Some(Ok::<B, PayloadError>(chunks[index]))
            } else {
                Some(Err::<B, PayloadError>(error))
            },
    )
}

/// Copying a body that ends writes its chunks, each once and in the order in
/// which they came, and ends with success: the output holds what the body
/// held.
pub proof fn law_copy_writes_whole_body<B>(chunks: Seq<B>)
    ensures
        written_chunks(whole_body(chunks)) == chunks,
        copy_result(whole_body(chunks)) == Some(Ok::<(), ClientServiceError>(())),
    decreases chunks.len(),
{
    let items = whole_body(chunks);
    if chunks.len() == 0 {
        assert(written_chunks(items) =~= chunks);
    } else {
        let rest = chunks.drop_first();
        law_copy_writes_whole_body(rest);
        assert(items.drop_first() =~= whole_body(rest));
        assert(written_chunks(items) =~= chunks);
    }
}

/// Copying a body that breaks writes the chunks that came before, and ends
/// with the error of the body.
pub proof fn law_copy_stops_at_broken_body<B>(chunks: Seq<B>, error: PayloadError)
    ensures
        written_chunks(broken_body(chunks, error)) == chunks,
        copy_result(broken_body(chunks, error)) == Some(
            Err::<(), ClientServiceError>(ClientServiceError::PayloadError(error)),
        ),
    decreases chunks.len(),
{
    let items = broken_body(chunks, error);
    if chunks.len() == 0 {
        assert(written_chunks(items) =~= chunks);
    } else {
        let rest = chunks.drop_first();
        law_copy_stops_at_broken_body(rest, error);
        assert(items.drop_first() =~= broken_body(rest, error));
        assert(written_chunks(items) =~= chunks);
    }
}

/// Decides what the copy does with an item of the body.
pub fn next_step<B>(item: BodyItem<B>) -> (step: CopyStep<B>)
    ensures
        step == step_for(item),
{
    match item {
        Some(Ok(chunk)) => CopyStep::Write(chunk),
        Some(Err(error)) => CopyStep::Finish(Err(ClientServiceError::from(error))),
        None => CopyStep::Finish(Ok(())),
    }
}

/// Decides whether the copy goes on after a write. `Some` holds the error
/// with which it stops.
pub fn after_write(written: Result<(), std::io::Error>) -> (stop: Option<ClientServiceError>)
    ensures
        stop == stop_after_write(written),
{
    match written {
        Ok(_) => None,
        Err(error) => Some(ClientServiceError::from(error)),
    }
}

} // verus!
