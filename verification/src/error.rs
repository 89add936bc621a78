//! The errors that the binding reports.
//!
//! Each error type is written once, over the types of the text and of the bytes in it: `String`
//! and `Vec<u8>` when the library runs, sequences in contracts.

use vstd::prelude::*;

use crate::value::JsValueOf;

verus! {

/// A zero byte in a string that has to become a C string.
#[derive(Debug, PartialEq, Eq)]
pub struct NulErrorOf<B> {
    /// Where the first zero byte stands.
    pub position: usize,
    /// The refused bytes.
    pub bytes: B,
}

/// A value could not be converted.
#[derive(Debug, PartialEq, Eq)]
pub enum ValueErrorOf<S, B> {
    /// A string holds a zero byte.
    StringWithZeroBytes(NulErrorOf<B>),
    /// Something went wrong inside the binding.
    Internal(S),
    /// The value has another type than the one asked for.
    UnexpectedType,
    /// An error of the conversion layer, by its text.
    Other(S),
}

/// Code could not be run to its end.
#[derive(Debug, PartialEq, Eq)]
pub enum ExecutionErrorOf<S, B> {
    /// A value on the way in or out could not be converted.
    Conversion(ValueErrorOf<S, B>),
    /// Something went wrong inside the binding.
    Internal(S),
    /// The code threw this value.
    Exception(JsValueOf<S>),
    /// The engine ran out of the memory it may use.
    OutOfMemory,
}

/// A context could not be set up.
#[derive(Debug, Clone, Copy, PartialEq, Eq, Structural)]
pub enum ContextError {
    RuntimeCreationFailed,
    ContextCreationFailed,
}

pub type NulError = NulErrorOf<Vec<u8>>;

pub type ValueError = ValueErrorOf<String, Vec<u8>>;

pub type ExecutionError = ExecutionErrorOf<String, Vec<u8>>;

pub type SpecValueError = ValueErrorOf<Seq<char>, Seq<u8>>;

pub type SpecExecutionError = ExecutionErrorOf<Seq<char>, Seq<u8>>;

impl View for ValueErrorOf<String, Vec<u8>> {
    type V = SpecValueError;

    open spec fn view(&self) -> SpecValueError {
        match *self {
            ValueErrorOf::StringWithZeroBytes(nul) => ValueErrorOf::StringWithZeroBytes(
                NulErrorOf { position: nul.position, bytes: nul.bytes@ },
            ),
            ValueErrorOf::Internal(text) => ValueErrorOf::Internal(text@),
            ValueErrorOf::UnexpectedType => ValueErrorOf::UnexpectedType,
            ValueErrorOf::Other(text) => ValueErrorOf::Other(text@),
        }
    }
}

impl View for ExecutionErrorOf<String, Vec<u8>> {
    type V = SpecExecutionError;

    open spec fn view(&self) -> SpecExecutionError {
        match *self {
            ExecutionErrorOf::Conversion(error) => ExecutionErrorOf::Conversion(error@),
            ExecutionErrorOf::Internal(text) => ExecutionErrorOf::Internal(text@),
            ExecutionErrorOf::Exception(value) => ExecutionErrorOf::Exception(value@),
            ExecutionErrorOf::OutOfMemory => ExecutionErrorOf::OutOfMemory,
        }
    }
}

/// A result, its error seen through the error's view.
pub open spec fn seen<T>(result: Result<T, ExecutionError>) -> Result<T, SpecExecutionError> {
    match result {
        Ok(value) => Ok(value),
        Err(error) => Err(error@),
    }
}

/// A conversion result, its error seen through the error's view.
pub open spec fn seen_value<T>(result: Result<T, ValueError>) -> Result<T, SpecValueError> {
    match result {
        Ok(value) => Ok(value),
        Err(error) => Err(error@),
    }
}

/// The exception whose value is `text`.
pub open spec fn exception_text(text: Seq<char>) -> SpecExecutionError {
    ExecutionErrorOf::Exception(JsValueOf::String(text))
}

} // verus!
