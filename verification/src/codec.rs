//! The codec that an application supplies.

use crate::message::Message;
use vstd::prelude::*;

verus! {

/// What an application brings to the transport: how a raw chunk becomes an
/// outbound unit, how that unit becomes a frame, and how an inbound frame
/// becomes a result.
///
/// The transport never looks into a chunk, a unit or a result. It hands them
/// to these three functions and passes on what they return. The functions
/// promise nothing, so the transport's contracts speak of their results as of
/// "a value that this call can return".
pub trait WebSocketIO: Send + Sized + 'static {
    /// The encoded outbound unit. Its default value marks the end of the
    /// outbound sequence.
    type Input: Send + Default;

    /// The decoded inbound unit.
    type Output;

    /// Encodes one raw chunk.
    fn to_input(data: Vec<u8>) -> Self::Input;

    /// Wraps an outbound unit into a frame.
    fn to_message(input: Self::Input) -> Message;

    /// Decodes an inbound frame. `None` means that the frame holds nothing for
    /// the consumer.
    fn from_message(msg: Message) -> Option<Self::Output>;
}

/// `msg` is a frame that the codec can make of the chunk `data`: the wrapping
/// of a unit that is an encoding of the chunk.
pub open spec fn encodes<T: WebSocketIO>(data: Vec<u8>, msg: Message) -> bool {
    exists|input: T::Input| #[trigger]
        call_ensures(T::to_input, (data,), input) && call_ensures(T::to_message, (input,), msg)
}

/// `msg` is an end marker of the codec: the wrapping of a default unit.
pub open spec fn marks_end<T: WebSocketIO>(msg: Message) -> bool {
    exists|input: T::Input| #[trigger]
        call_ensures(<T::Input as Default>::default, (), input) && call_ensures(
            T::to_message,
            (input,),
            msg,
        )
}

/// `output` is what the codec can make of the inbound frame `msg`.
pub open spec fn decodes<T: WebSocketIO>(msg: Message, output: Option<T::Output>) -> bool {
    call_ensures(T::from_message, (msg,), output)
}

/// Encodes a chunk and wraps it into a frame.
pub fn encode<T: WebSocketIO>(data: Vec<u8>) -> (msg: Message)
    ensures
        encodes::<T>(data, msg),
{
    let input = T::to_input(data);
    T::to_message(input)
}

/// Makes the frame that tells the remote side that the outbound sequence is
/// over: the wrapping of a default unit. It is a data frame like any other,
/// not a `Close`, so the remote side can go on answering.
pub fn end_marker<T: WebSocketIO>() -> (msg: Message)
    ensures
        marks_end::<T>(msg),
{
    let input = <T::Input as Default>::default();
    T::to_message(input)
}

} // verus!
