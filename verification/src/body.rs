//! Response bodies and the values written to the object store.

use vstd::prelude::*;

verus! {

/// What a body holds, whatever carries it: nothing, bytes in memory, or a
/// stream that has not been read.
pub enum Payload<S> {
    Empty,
    Bytes(Seq<u8>),
    Stream(S),
}

/// The body of an HTTP response. `S` is the transport's stream type; this
/// library moves a stream and never reads it.
#[derive(Debug, Clone, PartialEq, Eq)]
pub enum ResponseBody<S> {
    Empty,
    Body(Vec<u8>),
    Stream(S),
}

/// A value to be written to the object store.
#[derive(Debug, Clone, PartialEq, Eq)]
pub enum Data<S> {
    Empty,
    Bytes(Vec<u8>),
    ReadableStream(S),
}

/// An object as the store hands it back.
#[derive(Debug, Clone, PartialEq, Eq)]
pub struct StoredObject<S> {
    /// The object's body. A store may answer with an object's metadata
    /// alone; the body is then missing.
    pub body: Option<ResponseBody<S>>,
}

impl<S> View for ResponseBody<S> {
    type V = Payload<S>;

    open spec fn view(&self) -> Payload<S> {
        match *self {
            ResponseBody::Empty => Payload::Empty,
            ResponseBody::Body(bytes) => Payload::Bytes(bytes@),
            ResponseBody::Stream(stream) => Payload::Stream(stream),
        }
    }
}

impl<S> View for Data<S> {
    type V = Payload<S>;

    open spec fn view(&self) -> Payload<S> {
        match *self {
            Data::Empty => Payload::Empty,
            Data::Bytes(bytes) => Payload::Bytes(bytes@),
            Data::ReadableStream(stream) => Payload::Stream(stream),
        }
    }
}

impl<S> View for StoredObject<S> {
    type V = Option<Payload<S>>;

    open spec fn view(&self) -> Option<Payload<S>> {
        match self.body {
            Some(body) => Some(body@),
            None => None,
        }
    }
}

impl<S> ResponseBody<S> {
    /// The value that stores this body: an empty body as an empty value,
    /// bytes as the same bytes, and a stream as the stream itself, which is
    /// not read into memory.
    pub fn into_data(self) -> (data: Data<S>)
        ensures
            data@ == self@,
    {
        match self {
            ResponseBody::Empty => Data::Empty,
            ResponseBody::Body(items) => Data::Bytes(items),
            ResponseBody::Stream(readable_stream) => Data::ReadableStream(readable_stream),
        }
    }
}

} // verus!
