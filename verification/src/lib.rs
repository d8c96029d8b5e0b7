//! A statically typed binding layer for a remote automation object model.
//!
//! Remote objects are reached only through dynamic dispatch: a member is
//! resolved by name, invoked with a list of wire values, and the reply is
//! converted back into a native value.  This crate verifies that bridging
//! logic, layer by layer:
//!
//! - [`value`] and [`codec`]: the wire value union and the fallible,
//!   coercion-tolerant conversions between it and native values;
//! - [`runtime`]: the invocation primitive — resolve a member by name,
//!   then call, read or write it — specified and verified against a
//!   scripted model of the remote runtime, with a transcript of every
//!   issued operation;
//! - [`traits`]: the capability traits whose accessors are sugar over the
//!   invocation primitive plus the codec;
//! - [`component`]: runtime type discrimination — from an opaque handle
//!   to the most specific typed wrapper, with a generic fallback — and
//!   the downcasts in both directions;
//! - [`instance`]: the environment lifecycle and the entry-point
//!   navigation to the scripting engine.
//!
//! The foreign dispatch transport itself (a cross-process call interface)
//! cannot be verified; it lives outside this crate and mirrors the same
//! operations against the real automation runtime.

pub mod codec;
pub mod component;
pub mod instance;
pub mod numeric;
pub mod runtime;
pub mod traits;
pub mod value;

pub use component::{GuiComponent, SAPComponent, SapObject};
pub use instance::{ComSubsystem, EnvError, SAPComInstance, SAPWrapper};
pub use runtime::{MockRuntime, MemberBehavior};
pub use traits::{
    GuiBoxMethods, GuiComponentMethods, GuiContainerMethods, GuiFrameWindowMethods,
    GuiTextFieldMethods, GuiVComponentMethods, GuiVContainerMethods, HasDispatch,
};
pub use value::{ComValue, ConversionError, InvocationError, ObjectHandle};
