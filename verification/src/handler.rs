//! The handlers that are told of encoded and decoded frames.
use std::marker::PhantomData;
use vstd::prelude::*;

use crate::decode_worker::DecodedFrame;
use crate::encode_worker::EncodedFrame;
use crate::error::Error;

verus! {

/// A handler that is told of encoded frames.
///
/// [`EncodeHandler::on_encoded`] is called once for each notice of the worker.
pub trait EncodeHandler: Send + 'static {
    /// What the caller hands in with a frame.
    type UserData: Send + 'static;

    /// What errors are reported as.
    type Error: From<Error> + Send + 'static;

    /// Whether the handler can be told this.
    spec fn accepts(&self, result: Result<EncodedFrame<Self::UserData>, Self::Error>) -> bool;

    /// Takes a notice.
    fn on_encoded(&mut self, result: Result<EncodedFrame<Self::UserData>, Self::Error>)
        requires
            old(self).accepts(result),
    ;
}

/// A function as an [`EncodeHandler`].
pub struct FnEncodeHandler<T, E, F> {
    f: F,
    notice: PhantomData<(T, E)>,
}

impl<T, E, F> FnEncodeHandler<T, E, F> where F: FnMut(Result<EncodedFrame<T>, E>) + Send + 'static {
    /// The function that is called.
    pub closed spec fn function(self) -> F {
        self.f
    }

    /// Makes a handler of a function.
    pub fn new(f: F) -> (r: Self)
        ensures
            r.function() == f,
    {
        FnEncodeHandler { f, notice: PhantomData }
    }
}

impl<T, E, F> EncodeHandler for FnEncodeHandler<T, E, F> where
    T: Send + 'static,
    E: From<Error> + Send + 'static,
    F: FnMut(Result<EncodedFrame<T>, E>) + Send + 'static,
 {
    type UserData = T;

    type Error = E;

    closed spec fn accepts(&self, result: Result<EncodedFrame<T>, E>) -> bool {
        call_requires(self.f, (result,))
    }

    fn on_encoded(&mut self, result: Result<EncodedFrame<T>, E>)
        ensures
            call_ensures(old(self).function(), (result,), ()),
    {
        (self.f)(result);
    }
}

/// A handler that is told of decoded frames.
///
/// [`DecodeHandler::on_decoded`] is called once for each notice of the worker. A frame borrows the
/// surface that it was decoded to, for as long as the call lasts.
pub trait DecodeHandler: Send + 'static {
    /// What the caller hands in with a bitstream.
    type UserData: Send + 'static;

    /// What errors are reported as.
    type Error: From<Error> + Send + 'static;

    /// Whether the handler can be told this.
    spec fn accepts(&self, result: Result<DecodedFrame<'_, Self::UserData>, Self::Error>) -> bool;

    /// Takes a notice.
    fn on_decoded(&mut self, result: Result<DecodedFrame<'_, Self::UserData>, Self::Error>)
        requires
            old(self).accepts(result),
    ;
}

/// A function as a [`DecodeHandler`].
pub struct FnDecodeHandler<T, E, F> {
    f: F,
    notice: PhantomData<(T, E)>,
}

impl<T, E, F> FnDecodeHandler<T, E, F> where
    F: for<'a>FnMut(Result<DecodedFrame<'a, T>, E>) + Send + 'static,
 {
    /// The function that is called.
    pub closed spec fn function(self) -> F {
        self.f
    }

    /// Makes a handler of a function.
    pub fn new(f: F) -> (r: Self)
        ensures
            r.function() == f,
    {
        FnDecodeHandler { f, notice: PhantomData }
    }
}

impl<T, E, F> DecodeHandler for FnDecodeHandler<T, E, F> where
    T: Send + 'static,
    E: From<Error> + Send + 'static,
    F: for<'a>FnMut(Result<DecodedFrame<'a, T>, E>) + Send + 'static,
 {
    type UserData = T;

    type Error = E;

    closed spec fn accepts(&self, result: Result<DecodedFrame<'_, T>, E>) -> bool {
        call_requires(self.f, (result,))
    }

    fn on_decoded(&mut self, result: Result<DecodedFrame<'_, T>, E>)
        ensures
            call_ensures(old(self).function(), (result,), ()),
    {
        (self.f)(result);
    }
}

} // verus!
