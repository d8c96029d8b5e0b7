//! Wire values: the discriminated union that crosses the boundary between
//! this binding and the remote automation runtime, together with the error
//! taxonomy of the conversion and invocation layers.

use vstd::prelude::*;

verus! {

/// An opaque reference to a remote automation object.
///
/// The remote runtime owns the object; a handle is only a name for it.  A
/// handle stays usable exactly as long as the remote object is alive, and
/// using a stale handle surfaces as an invocation failure, never as
/// undefined behavior.
#[derive(Clone, Copy, PartialEq, Eq, Structural, Debug)]
pub struct ObjectHandle {
    pub id: usize,
}

/// The abstract shape of a wire value, used by every contract in the crate.
pub ghost enum ValueView {
    Null,
    Bool(bool),
    Int32(int),
    Int64(int),
    Str(Seq<char>),
    Object(int),
}

/// A wire value: exactly one variant is active, and every value that crosses
/// the invocation boundary is one of these.  Anything richer than the listed
/// variants must be encoded as a string or as a chain of object references.
#[derive(Debug)]
pub enum ComValue {
    /// No value (the remote null/empty marker).
    Null,
    /// A boolean.
    Bool(bool),
    /// A 32-bit signed integer.
    Int32(i32),
    /// A 64-bit signed integer.
    Int64(i64),
    /// A string.
    Str(String),
    /// A reference to a remote object.
    Object(ObjectHandle),
}

impl ComValue {
    /// A copy of this value with the same abstract content.
    pub fn duplicate(&self) -> (r: ComValue)
        ensures
            r@ == self@,
    {
        match self {
            ComValue::Null => ComValue::Null,
            ComValue::Bool(b) => ComValue::Bool(*b),
            ComValue::Int32(n) => ComValue::Int32(*n),
            ComValue::Int64(n) => ComValue::Int64(*n),
            ComValue::Str(s) => ComValue::Str(s.clone()),
            ComValue::Object(h) => ComValue::Object(*h),
        }
    }
}

impl View for ComValue {
    type V = ValueView;

    open spec fn view(&self) -> ValueView {
        match self {
            ComValue::Null => ValueView::Null,
            ComValue::Bool(b) => ValueView::Bool(*b),
            ComValue::Int32(n) => ValueView::Int32(*n as int),
            ComValue::Int64(n) => ValueView::Int64(*n as int),
            ComValue::Str(s) => ValueView::Str(s@),
            ComValue::Object(h) => ValueView::Object(h.id as int),
        }
    }
}

impl DeepView for ComValue {
    type V = ValueView;

    open spec fn deep_view(&self) -> ValueView {
        self.view()
    }
}

/// Failure of a conversion between the wire union and a native type.
#[derive(Clone, Copy, PartialEq, Eq, Structural, Debug)]
pub enum ConversionError {
    /// The active variant can never convert to the requested type
    /// (an object reference asked for as a primitive, or the reverse).
    TypeMismatch,
    /// The variants are compatible in principle, but this particular value
    /// was rejected by the coercion rules (a non-numeric string asked for
    /// as an integer, or an integer too large for the requested width).
    RuntimeCoercionFailed,
}

/// The abstract shape of an invocation failure.
pub ghost enum InvokeErrView {
    UnknownMember,
    HandleInvalid,
    RemoteFailure(int, Seq<char>),
    Marshal(ConversionError),
}

/// Failure of one dynamic invocation.  The four kinds are distinguishable
/// and none is ever silently swallowed; no operation is retried, since the
/// remote protocol gives no idempotence guarantee for mutating calls.
#[derive(Debug)]
pub enum InvocationError {
    /// The remote object does not expose a member with the requested name.
    UnknownMember,
    /// The handle no longer refers to a live remote object.
    HandleInvalid,
    /// The remote object rejected the call on its own terms; the code and
    /// description are surfaced verbatim.
    RemoteFailure { code: i32, description: String },
    /// The reply could not be marshaled into the expected native shape.
    Marshal(ConversionError),
}

impl View for InvocationError {
    type V = InvokeErrView;

    open spec fn view(&self) -> InvokeErrView {
        match self {
            InvocationError::UnknownMember => InvokeErrView::UnknownMember,
            InvocationError::HandleInvalid => InvokeErrView::HandleInvalid,
            InvocationError::RemoteFailure { code, description } => InvokeErrView::RemoteFailure(
                *code as int,
                description@,
            ),
            InvocationError::Marshal(e) => InvokeErrView::Marshal(*e),
        }
    }
}

impl DeepView for InvocationError {
    type V = InvokeErrView;

    open spec fn deep_view(&self) -> InvokeErrView {
        self.view()
    }
}

} // verus!
