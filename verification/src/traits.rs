//! Capability traits.
//!
//! Each trait bundles the accessors of one facet of the remote object
//! model.  Every method body is exactly "encode the arguments, resolve the
//! member by its fixed literal name, issue the operation, decode the
//! reply": the traits add no branching of their own, and their contracts
//! are stated over the runtime model of the invocation layer.  A concrete
//! wrapper type advertises a capability by implementing the trait; the
//! promise is verified lazily by the remote side at call time, so every
//! accessor returns a `Result`.
//!
//! The traits are flat: each one requires only "this object has a
//! handle", so composing many of them onto one wrapper raises no diamond
//! ambiguity.

use vstd::prelude::*;

use crate::codec::{spec_decode_bool, spec_decode_int, spec_decode_string};
use crate::component::{find_component, find_log, find_result};
use crate::component::{component_handle, component_kind, ComponentKind, GuiComponent,
    SAPComponent};
use crate::runtime::{
    log_after, objects_after_set, spec_get, spec_get_indexed, spec_invoke, spec_set, DispatchOp,
    MockRuntime, RuntimeView,
};
use crate::value::{ComValue, ConversionError, InvocationError, InvokeErrView, ObjectHandle,
    ValueView};

verus! {

/// What reading member `n` as a string yields: the property reply, then
/// the string coercion; a coercion failure surfaces as a marshal error.
pub open spec fn str_get_result(rt: RuntimeView, h: ObjectHandle, n: Seq<char>) -> Result<
    Seq<char>,
    InvokeErrView,
> {
    match spec_get(rt, h, n) {
        Err(e) => Err(e),
        Ok(v) => match spec_decode_string(v) {
            Ok(s) => Ok(s),
            Err(ce) => Err(InvokeErrView::Marshal(ce)),
        },
    }
}

/// What reading member `n` as a 64-bit integer yields.
pub open spec fn int_get_result(rt: RuntimeView, h: ObjectHandle, n: Seq<char>) -> Result<
    int,
    InvokeErrView,
> {
    match spec_get(rt, h, n) {
        Err(e) => Err(e),
        Ok(v) => match spec_decode_int(v, i64::MIN as int, i64::MAX as int) {
            Ok(x) => Ok(x),
            Err(ce) => Err(InvokeErrView::Marshal(ce)),
        },
    }
}

/// What reading member `n` as a boolean yields.
pub open spec fn bool_get_result(rt: RuntimeView, h: ObjectHandle, n: Seq<char>) -> Result<
    bool,
    InvokeErrView,
> {
    match spec_get(rt, h, n) {
        Err(e) => Err(e),
        Ok(v) => match spec_decode_bool(v) {
            Ok(b) => Ok(b),
            Err(ce) => Err(InvokeErrView::Marshal(ce)),
        },
    }
}

/// What reading member `n` as an object reference yields.
pub open spec fn handle_get_result(rt: RuntimeView, h: ObjectHandle, n: Seq<char>) -> Result<
    ObjectHandle,
    InvokeErrView,
> {
    match spec_get(rt, h, n) {
        Err(e) => Err(e),
        Ok(v) => match v {
            ValueView::Object(id) => Ok(ObjectHandle { id: id as usize }),
            _ => Err(InvokeErrView::Marshal(ConversionError::TypeMismatch)),
        },
    }
}

/// What an indexed read of member `n` as an object reference yields.
pub open spec fn handle_get_indexed_result(
    rt: RuntimeView,
    h: ObjectHandle,
    n: Seq<char>,
    idx: ValueView,
) -> Result<ObjectHandle, InvokeErrView> {
    match spec_get_indexed(rt, h, n, idx) {
        Err(e) => Err(e),
        Ok(v) => match v {
            ValueView::Object(id) => Ok(ObjectHandle { id: id as usize }),
            _ => Err(InvokeErrView::Marshal(ConversionError::TypeMismatch)),
        },
    }
}

/// What invoking member `n` for effect alone yields: the reply value is
/// discarded, only failure is surfaced.
pub open spec fn unit_call_result(
    rt: RuntimeView,
    h: ObjectHandle,
    n: Seq<char>,
    args: Seq<ValueView>,
) -> Result<(), InvokeErrView> {
    match spec_invoke(rt, h, n, args) {
        Err(e) => Err(e),
        Ok(_) => Ok(()),
    }
}

/// What invoking member `n` and decoding the reply as a boolean yields.
pub open spec fn bool_call_result(
    rt: RuntimeView,
    h: ObjectHandle,
    n: Seq<char>,
    args: Seq<ValueView>,
) -> Result<bool, InvokeErrView> {
    match spec_invoke(rt, h, n, args) {
        Err(e) => Err(e),
        Ok(v) => match spec_decode_bool(v) {
            Ok(b) => Ok(b),
            Err(ce) => Err(InvokeErrView::Marshal(ce)),
        },
    }
}

/// Does the exec string reply match the specified one?
pub open spec fn m_str(
    r: Result<String, InvocationError>,
    m: Result<Seq<char>, InvokeErrView>,
) -> bool {
    match (r, m) {
        (Ok(s), Ok(t)) => s@ == t,
        (Err(e), Err(f)) => e@ == f,
        _ => false,
    }
}

/// Does the exec integer reply match the specified one?
pub open spec fn m_i64(r: Result<i64, InvocationError>, m: Result<int, InvokeErrView>) -> bool {
    match (r, m) {
        (Ok(x), Ok(y)) => x as int == y,
        (Err(e), Err(f)) => e@ == f,
        _ => false,
    }
}

/// Does the exec boolean reply match the specified one?
pub open spec fn m_bool(r: Result<bool, InvocationError>, m: Result<bool, InvokeErrView>) -> bool {
    match (r, m) {
        (Ok(x), Ok(y)) => x == y,
        (Err(e), Err(f)) => e@ == f,
        _ => false,
    }
}

/// Does the exec unit reply match the specified one?
pub open spec fn m_unit(r: Result<(), InvocationError>, m: Result<(), InvokeErrView>) -> bool {
    match (r, m) {
        (Ok(_), Ok(_)) => true,
        (Err(e), Err(f)) => e@ == f,
        _ => false,
    }
}

/// Does the exec component reply match the specified find outcome?
pub open spec fn m_component(
    r: Result<SAPComponent, InvocationError>,
    m: Result<(ComponentKind, ObjectHandle), InvokeErrView>,
) -> bool {
    match (r, m) {
        (Ok(c), Ok(p)) => component_kind(c) == p.0 && component_handle(c) == p.1,
        (Err(e), Err(f)) => e@ == f,
        _ => false,
    }
}

/// Does the exec generic-wrapper reply match the specified handle?
pub open spec fn m_handle(
    r: Result<GuiComponent, InvocationError>,
    m: Result<ObjectHandle, InvokeErrView>,
) -> bool {
    match (r, m) {
        (Ok(c), Ok(g)) => c.handle == g,
        (Err(e), Err(f)) => e@ == f,
        _ => false,
    }
}

/// A component that owns a handle to a remote object.  Every capability
/// trait requires this and nothing else.
pub trait HasDispatch: Sized {
    /// The handle, as the contracts see it.
    spec fn handle_spec(&self) -> ObjectHandle;

    /// The handle of the remote object this component is a view over.
    fn dispatch_handle(&self) -> (h: ObjectHandle)
        ensures
            h == self.handle_spec(),
    ;
}

/// Read the property `name` of `obj` and decode it as a string.
fn get_string_property<T: HasDispatch>(obj: &T, rt: &mut MockRuntime, name: &str) -> (r: Result<
    String,
    InvocationError,
>)
    ensures
        final(rt)@.objects == old(rt)@.objects,
        final(rt)@.rot_wrapper == old(rt)@.rot_wrapper,
        final(rt)@.log == log_after(
            old(rt)@,
            obj.handle_spec(),
            DispatchOp::PropertyGet,
            name@,
            Seq::<ValueView>::empty(),
        ),
        m_str(r, str_get_result(old(rt)@, obj.handle_spec(), name@)),
{
    let v = match rt.get(obj.dispatch_handle(), name) {
        Ok(v) => v,
        Err(e) => {
            return Err(e);
        },
    };
    match v.to_string() {
        Ok(s) => Ok(s),
        Err(ce) => Err(InvocationError::Marshal(ce)),
    }
}

/// Read the property `name` of `obj` and decode it as a 64-bit integer.
fn get_int_property<T: HasDispatch>(obj: &T, rt: &mut MockRuntime, name: &str) -> (r: Result<
    i64,
    InvocationError,
>)
    ensures
        final(rt)@.objects == old(rt)@.objects,
        final(rt)@.rot_wrapper == old(rt)@.rot_wrapper,
        final(rt)@.log == log_after(
            old(rt)@,
            obj.handle_spec(),
            DispatchOp::PropertyGet,
            name@,
            Seq::<ValueView>::empty(),
        ),
        m_i64(r, int_get_result(old(rt)@, obj.handle_spec(), name@)),
{
    let v = match rt.get(obj.dispatch_handle(), name) {
        Ok(v) => v,
        Err(e) => {
            return Err(e);
        },
    };
    match v.to_i64() {
        Ok(x) => Ok(x),
        Err(ce) => Err(InvocationError::Marshal(ce)),
    }
}

/// Read the property `name` of `obj` and decode it as a boolean.
fn get_bool_property<T: HasDispatch>(obj: &T, rt: &mut MockRuntime, name: &str) -> (r: Result<
    bool,
    InvocationError,
>)
    ensures
        final(rt)@.objects == old(rt)@.objects,
        final(rt)@.rot_wrapper == old(rt)@.rot_wrapper,
        final(rt)@.log == log_after(
            old(rt)@,
            obj.handle_spec(),
            DispatchOp::PropertyGet,
            name@,
            Seq::<ValueView>::empty(),
        ),
        m_bool(r, bool_get_result(old(rt)@, obj.handle_spec(), name@)),
{
    let v = match rt.get(obj.dispatch_handle(), name) {
        Ok(v) => v,
        Err(e) => {
            return Err(e);
        },
    };
    match v.to_bool() {
        Ok(b) => Ok(b),
        Err(ce) => Err(InvocationError::Marshal(ce)),
    }
}

/// Read the property `name` of `obj` and decode it as an object handle
/// wrapped as a generic component.
fn get_component_property<T: HasDispatch>(obj: &T, rt: &mut MockRuntime, name: &str) -> (r: Result<
    GuiComponent,
    InvocationError,
>)
    ensures
        final(rt)@.objects == old(rt)@.objects,
        final(rt)@.rot_wrapper == old(rt)@.rot_wrapper,
        final(rt)@.log == log_after(
            old(rt)@,
            obj.handle_spec(),
            DispatchOp::PropertyGet,
            name@,
            Seq::<ValueView>::empty(),
        ),
        m_handle(r, handle_get_result(old(rt)@, obj.handle_spec(), name@)),
{
    let v = match rt.get(obj.dispatch_handle(), name) {
        Ok(v) => v,
        Err(e) => {
            return Err(e);
        },
    };
    match v.to_object() {
        Ok(h) => Ok(GuiComponent { handle: h }),
        Err(ce) => Err(InvocationError::Marshal(ce)),
    }
}

/// Read one element of the indexed property `name` of `obj` and decode it
/// as an object handle wrapped as a generic component.
fn get_component_indexed<T: HasDispatch>(
    obj: &T,
    rt: &mut MockRuntime,
    name: &str,
    index: ComValue,
) -> (r: Result<GuiComponent, InvocationError>)
    ensures
        final(rt)@.objects == old(rt)@.objects,
        final(rt)@.rot_wrapper == old(rt)@.rot_wrapper,
        final(rt)@.log == log_after(
            old(rt)@,
            obj.handle_spec(),
            DispatchOp::PropertyGet,
            name@,
            seq![index@],
        ),
        m_handle(r, handle_get_indexed_result(old(rt)@, obj.handle_spec(), name@, index@)),
{
    let v = match rt.get_indexed(obj.dispatch_handle(), name, index) {
        Ok(v) => v,
        Err(e) => {
            return Err(e);
        },
    };
    match v.to_object() {
        Ok(h) => Ok(GuiComponent { handle: h }),
        Err(ce) => Err(InvocationError::Marshal(ce)),
    }
}

/// Write the string property `name` of `obj`.
fn set_string_property<T: HasDispatch>(
    obj: &T,
    rt: &mut MockRuntime,
    name: &str,
    value: &str,
) -> (r: Result<(), InvocationError>)
    ensures
        final(rt)@.objects == objects_after_set(
            old(rt)@,
            obj.handle_spec(),
            name@,
            ValueView::Str(value@),
        ),
        final(rt)@.rot_wrapper == old(rt)@.rot_wrapper,
        final(rt)@.log == log_after(
            old(rt)@,
            obj.handle_spec(),
            DispatchOp::PropertyPut,
            name@,
            seq![ValueView::Str(value@)],
        ),
        m_unit(r, spec_set(old(rt)@, obj.handle_spec(), name@, ValueView::Str(value@))),
{
    rt.set(obj.dispatch_handle(), name, ComValue::from_str(value))
}

/// Invoke the member `name` of `obj` for effect, discarding the reply.
fn call_for_effect<T: HasDispatch>(
    obj: &T,
    rt: &mut MockRuntime,
    name: &str,
    args: Vec<ComValue>,
) -> (r: Result<(), InvocationError>)
    ensures
        final(rt)@.objects == old(rt)@.objects,
        final(rt)@.rot_wrapper == old(rt)@.rot_wrapper,
        final(rt)@.log == log_after(
            old(rt)@,
            obj.handle_spec(),
            DispatchOp::Method,
            name@,
            args.deep_view(),
        ),
        m_unit(r, unit_call_result(old(rt)@, obj.handle_spec(), name@, args.deep_view())),
{
    match rt.invoke(obj.dispatch_handle(), name, args) {
        Ok(_) => Ok(()),
        Err(e) => Err(e),
    }
}

/// Invoke the member `name` of `obj` and decode the reply as a boolean.
fn call_for_bool<T: HasDispatch>(
    obj: &T,
    rt: &mut MockRuntime,
    name: &str,
    args: Vec<ComValue>,
) -> (r: Result<bool, InvocationError>)
    ensures
        final(rt)@.objects == old(rt)@.objects,
        final(rt)@.rot_wrapper == old(rt)@.rot_wrapper,
        final(rt)@.log == log_after(
            old(rt)@,
            obj.handle_spec(),
            DispatchOp::Method,
            name@,
            args.deep_view(),
        ),
        m_bool(r, bool_call_result(old(rt)@, obj.handle_spec(), name@, args.deep_view())),
{
    let v = match rt.invoke(obj.dispatch_handle(), name, args) {
        Ok(v) => v,
        Err(e) => {
            return Err(e);
        },
    };
    match v.to_bool() {
        Ok(b) => Ok(b),
        Err(ce) => Err(InvocationError::Marshal(ce)),
    }
}

/// The basic facet every component exposes: identity and type
/// information, designed for generic programming over objects of unknown
/// concrete kind.
pub trait GuiComponentMethods: HasDispatch {
    /// True if the object is a container and therefore has the children
    /// property.
    fn container_type(&self, rt: &mut MockRuntime) -> (r: Result<bool, InvocationError>)
        ensures
            final(rt)@.objects == old(rt)@.objects,
            final(rt)@.rot_wrapper == old(rt)@.rot_wrapper,
            final(rt)@.log == log_after(
                old(rt)@,
                self.handle_spec(),
                DispatchOp::PropertyGet,
                "ContainerType"@,
                Seq::<ValueView>::empty(),
            ),
            m_bool(r, bool_get_result(old(rt)@, self.handle_spec(), "ContainerType"@)),
    {
        get_bool_property(self, rt, "ContainerType")
    }

    /// The unique textual identifier of the object, built in URL-like form
    /// from the root object down.
    fn id(&self, rt: &mut MockRuntime) -> (r: Result<String, InvocationError>)
        ensures
            final(rt)@.objects == old(rt)@.objects,
            final(rt)@.rot_wrapper == old(rt)@.rot_wrapper,
            final(rt)@.log == log_after(
                old(rt)@,
                self.handle_spec(),
                DispatchOp::PropertyGet,
                "Id"@,
                Seq::<ValueView>::empty(),
            ),
            m_str(r, str_get_result(old(rt)@, self.handle_spec(), "Id"@)),
    {
        get_string_property(self, rt, "Id")
    }

    /// The name of the object; handy for simple scripts, though nothing
    /// guarantees it unique.
    fn name(&self, rt: &mut MockRuntime) -> (r: Result<String, InvocationError>)
        ensures
            final(rt)@.objects == old(rt)@.objects,
            final(rt)@.rot_wrapper == old(rt)@.rot_wrapper,
            final(rt)@.log == log_after(
                old(rt)@,
                self.handle_spec(),
                DispatchOp::PropertyGet,
                "Name"@,
                Seq::<ValueView>::empty(),
            ),
            m_str(r, str_get_result(old(rt)@, self.handle_spec(), "Name"@)),
    {
        get_string_property(self, rt, "Name")
    }

    /// The type tag of the object, which decides the properties and methods
    /// it supports.
    fn kind(&self, rt: &mut MockRuntime) -> (r: Result<String, InvocationError>)
        ensures
            final(rt)@.objects == old(rt)@.objects,
            final(rt)@.rot_wrapper == old(rt)@.rot_wrapper,
            final(rt)@.log == log_after(
                old(rt)@,
                self.handle_spec(),
                DispatchOp::PropertyGet,
                "Type"@,
                Seq::<ValueView>::empty(),
            ),
            m_str(r, str_get_result(old(rt)@, self.handle_spec(), "Type"@)),
    {
        get_string_property(self, rt, "Type")
    }

    /// The numeric form of the type tag, kept for faster comparisons.
    fn kind_as_number(&self, rt: &mut MockRuntime) -> (r: Result<i64, InvocationError>)
        ensures
            final(rt)@.objects == old(rt)@.objects,
            final(rt)@.rot_wrapper == old(rt)@.rot_wrapper,
            final(rt)@.log == log_after(
                old(rt)@,
                self.handle_spec(),
                DispatchOp::PropertyGet,
                "TypeAsNumber"@,
                Seq::<ValueView>::empty(),
            ),
            m_i64(r, int_get_result(old(rt)@, self.handle_spec(), "TypeAsNumber"@)),
    {
        get_int_property(self, rt, "TypeAsNumber")
    }
}

/// The facet of every visual object: position, text, tooltips, focus.
pub trait GuiVComponentMethods: GuiComponentMethods {
    /// Move the focus onto this object.  Some screens behave differently
    /// depending on the focused object, so scripted interaction may need to
    /// set it explicitly.
    fn set_focus(&self, rt: &mut MockRuntime) -> (r: Result<(), InvocationError>)
        ensures
            final(rt)@.objects == old(rt)@.objects,
            final(rt)@.rot_wrapper == old(rt)@.rot_wrapper,
            final(rt)@.log == log_after(
                old(rt)@,
                self.handle_spec(),
                DispatchOp::Method,
                "SetFocus"@,
                Seq::<ValueView>::empty(),
            ),
            m_unit(r, unit_call_result(
                old(rt)@,
                self.handle_spec(),
                "SetFocus"@,
                Seq::<ValueView>::empty(),
            )),
    {
        let args: Vec<ComValue> = Vec::new();
        proof {
            assert(args.deep_view() =~= Seq::<ValueView>::empty());
        }
        call_for_effect(self, rt, "SetFocus", args)
    }

    /// Display a red frame around the component if `on` is true, and
    /// remove it again if `on` is false.
    fn visualize(&self, rt: &mut MockRuntime, on: bool) -> (r: Result<(), InvocationError>)
        ensures
            final(rt)@.objects == old(rt)@.objects,
            final(rt)@.rot_wrapper == old(rt)@.rot_wrapper,
            final(rt)@.log == log_after(
                old(rt)@,
                self.handle_spec(),
                DispatchOp::Method,
                "Visualize"@,
                seq![ValueView::Bool(on)],
            ),
            m_unit(r, unit_call_result(
                old(rt)@,
                self.handle_spec(),
                "Visualize"@,
                seq![ValueView::Bool(on)],
            )),
    {
        let mut args: Vec<ComValue> = Vec::new();
        args.push(ComValue::from_bool(on));
        proof {
            assert(args.deep_view() =~= seq![ValueView::Bool(on)]);
        }
        call_for_effect(self, rt, "Visualize", args)
    }

    /// An additional text for accessibility support.
    fn acc_text(&self, rt: &mut MockRuntime) -> (r: Result<String, InvocationError>)
        ensures
            final(rt)@.objects == old(rt)@.objects,
            final(rt)@.rot_wrapper == old(rt)@.rot_wrapper,
            final(rt)@.log == log_after(
                old(rt)@,
                self.handle_spec(),
                DispatchOp::PropertyGet,
                "AccText"@,
                Seq::<ValueView>::empty(),
            ),
            m_str(r, str_get_result(old(rt)@, self.handle_spec(), "AccText"@)),
    {
        get_string_property(self, rt, "AccText")
    }

    /// An additional text for accessibility support.
    fn acc_text_on_request(&self, rt: &mut MockRuntime) -> (r: Result<String, InvocationError>)
        ensures
            final(rt)@.objects == old(rt)@.objects,
            final(rt)@.rot_wrapper == old(rt)@.rot_wrapper,
            final(rt)@.log == log_after(
                old(rt)@,
                self.handle_spec(),
                DispatchOp::PropertyGet,
                "AccTextOnRequest"@,
                Seq::<ValueView>::empty(),
            ),
            m_str(r, str_get_result(old(rt)@, self.handle_spec(), "AccTextOnRequest"@)),
    {
        get_string_property(self, rt, "AccTextOnRequest")
    }

    /// An additional tooltip text for accessibility support.
    fn acc_tooltip(&self, rt: &mut MockRuntime) -> (r: Result<String, InvocationError>)
        ensures
            final(rt)@.objects == old(rt)@.objects,
            final(rt)@.rot_wrapper == old(rt)@.rot_wrapper,
            final(rt)@.log == log_after(
                old(rt)@,
                self.handle_spec(),
                DispatchOp::PropertyGet,
                "AccTooltip"@,
                Seq::<ValueView>::empty(),
            ),
            m_str(r, str_get_result(old(rt)@, self.handle_spec(), "AccTooltip"@)),
    {
        get_string_property(self, rt, "AccTooltip")
    }

    /// True if the object is neither disabled nor read-only.
    fn changeable(&self, rt: &mut MockRuntime) -> (r: Result<bool, InvocationError>)
        ensures
            final(rt)@.objects == old(rt)@.objects,
            final(rt)@.rot_wrapper == old(rt)@.rot_wrapper,
            final(rt)@.log == log_after(
                old(rt)@,
                self.handle_spec(),
                DispatchOp::PropertyGet,
                "Changeable"@,
                Seq::<ValueView>::empty(),
            ),
            m_bool(r, bool_get_result(old(rt)@, self.handle_spec(), "Changeable"@)),
    {
        get_bool_property(self, rt, "Changeable")
    }

    /// The tooltip generated from the data-dictionary short text for this
    /// element type.
    fn default_tooltip(&self, rt: &mut MockRuntime) -> (r: Result<String, InvocationError>)
        ensures
            final(rt)@.objects == old(rt)@.objects,
            final(rt)@.rot_wrapper == old(rt)@.rot_wrapper,
            final(rt)@.log == log_after(
                old(rt)@,
                self.handle_spec(),
                DispatchOp::PropertyGet,
                "DefaultTooltip"@,
                Seq::<ValueView>::empty(),
            ),
            m_str(r, str_get_result(old(rt)@, self.handle_spec(), "DefaultTooltip"@)),
    {
        get_string_property(self, rt, "DefaultTooltip")
    }

    /// Height of the component in pixels.
    fn height(&self, rt: &mut MockRuntime) -> (r: Result<i64, InvocationError>)
        ensures
            final(rt)@.objects == old(rt)@.objects,
            final(rt)@.rot_wrapper == old(rt)@.rot_wrapper,
            final(rt)@.log == log_after(
                old(rt)@,
                self.handle_spec(),
                DispatchOp::PropertyGet,
                "Height"@,
                Seq::<ValueView>::empty(),
            ),
            m_i64(r, int_get_result(old(rt)@, self.handle_spec(), "Height"@)),
    {
        get_int_property(self, rt, "Height")
    }

    /// The name of the icon assigned to the object, or an empty string.
    fn icon_name(&self, rt: &mut MockRuntime) -> (r: Result<String, InvocationError>)
        ensures
            final(rt)@.objects == old(rt)@.objects,
            final(rt)@.rot_wrapper == old(rt)@.rot_wrapper,
            final(rt)@.log == log_after(
                old(rt)@,
                self.handle_spec(),
                DispatchOp::PropertyGet,
                "IconName"@,
                Seq::<ValueView>::empty(),
            ),
            m_str(r, str_get_result(old(rt)@, self.handle_spec(), "IconName"@)),
    {
        get_string_property(self, rt, "IconName")
    }

    /// True if the text is shown in the symbol font.
    fn is_symbol_font(&self, rt: &mut MockRuntime) -> (r: Result<bool, InvocationError>)
        ensures
            final(rt)@.objects == old(rt)@.objects,
            final(rt)@.rot_wrapper == old(rt)@.rot_wrapper,
            final(rt)@.log == log_after(
                old(rt)@,
                self.handle_spec(),
                DispatchOp::PropertyGet,
                "IsSymbolFont"@,
                Seq::<ValueView>::empty(),
            ),
            m_bool(r, bool_get_result(old(rt)@, self.handle_spec(), "IsSymbolFont"@)),
    {
        get_bool_property(self, rt, "IsSymbolFont")
    }

    /// Left position of the element in screen coordinates.
    fn left(&self, rt: &mut MockRuntime) -> (r: Result<i64, InvocationError>)
        ensures
            final(rt)@.objects == old(rt)@.objects,
            final(rt)@.rot_wrapper == old(rt)@.rot_wrapper,
            final(rt)@.log == log_after(
                old(rt)@,
                self.handle_spec(),
                DispatchOp::PropertyGet,
                "Left"@,
                Seq::<ValueView>::empty(),
            ),
            m_i64(r, int_get_result(old(rt)@, self.handle_spec(), "Left"@)),
    {
        get_int_property(self, rt, "Left")
    }

    /// True if the state was changed by the user and not yet sent on.
    fn modified(&self, rt: &mut MockRuntime) -> (r: Result<bool, InvocationError>)
        ensures
            final(rt)@.objects == old(rt)@.objects,
            final(rt)@.rot_wrapper == old(rt)@.rot_wrapper,
            final(rt)@.log == log_after(
                old(rt)@,
                self.handle_spec(),
                DispatchOp::PropertyGet,
                "Modified"@,
                Seq::<ValueView>::empty(),
            ),
            m_bool(r, bool_get_result(old(rt)@, self.handle_spec(), "Modified"@)),
    {
        get_bool_property(self, rt, "Modified")
    }

    /// The hosting frame of the control, where one exists.
    fn parent_frame(&self, rt: &mut MockRuntime) -> (r: Result<GuiComponent, InvocationError>)
        ensures
            final(rt)@.objects == old(rt)@.objects,
            final(rt)@.rot_wrapper == old(rt)@.rot_wrapper,
            final(rt)@.log == log_after(
                old(rt)@,
                self.handle_spec(),
                DispatchOp::PropertyGet,
                "ParentFrame"@,
                Seq::<ValueView>::empty(),
            ),
            m_handle(r, handle_get_result(old(rt)@, self.handle_spec(), "ParentFrame"@)),
    {
        get_component_property(self, rt, "ParentFrame")
    }

    /// The horizontal position of the component in screen coordinates.
    fn screen_left(&self, rt: &mut MockRuntime) -> (r: Result<i64, InvocationError>)
        ensures
            final(rt)@.objects == old(rt)@.objects,
            final(rt)@.rot_wrapper == old(rt)@.rot_wrapper,
            final(rt)@.log == log_after(
                old(rt)@,
                self.handle_spec(),
                DispatchOp::PropertyGet,
                "ScreenLeft"@,
                Seq::<ValueView>::empty(),
            ),
            m_i64(r, int_get_result(old(rt)@, self.handle_spec(), "ScreenLeft"@)),
    {
        get_int_property(self, rt, "ScreenLeft")
    }

    /// The vertical position of the component in screen coordinates.
    fn screen_top(&self, rt: &mut MockRuntime) -> (r: Result<i64, InvocationError>)
        ensures
            final(rt)@.objects == old(rt)@.objects,
            final(rt)@.rot_wrapper == old(rt)@.rot_wrapper,
            final(rt)@.log == log_after(
                old(rt)@,
                self.handle_spec(),
                DispatchOp::PropertyGet,
                "ScreenTop"@,
                Seq::<ValueView>::empty(),
            ),
            m_i64(r, int_get_result(old(rt)@, self.handle_spec(), "ScreenTop"@)),
    {
        get_int_property(self, rt, "ScreenTop")
    }

    /// The text of the component; what it holds depends on the concrete
    /// kind (field content, label text, class id for shells).
    fn text(&self, rt: &mut MockRuntime) -> (r: Result<String, InvocationError>)
        ensures
            final(rt)@.objects == old(rt)@.objects,
            final(rt)@.rot_wrapper == old(rt)@.rot_wrapper,
            final(rt)@.log == log_after(
                old(rt)@,
                self.handle_spec(),
                DispatchOp::PropertyGet,
                "Text"@,
                Seq::<ValueView>::empty(),
            ),
            m_str(r, str_get_result(old(rt)@, self.handle_spec(), "Text"@)),
    {
        get_string_property(self, rt, "Text")
    }

    /// Write the text of the component.  Which components accept a write
    /// depends on the concrete kind; a password field, for example, can be
    /// written but never read back.
    fn set_text(&self, rt: &mut MockRuntime, value: &str) -> (r: Result<(), InvocationError>)
        ensures
            final(rt)@.objects == objects_after_set(
                old(rt)@,
                self.handle_spec(),
                "Text"@,
                ValueView::Str(value@),
            ),
            final(rt)@.rot_wrapper == old(rt)@.rot_wrapper,
            final(rt)@.log == log_after(
                old(rt)@,
                self.handle_spec(),
                DispatchOp::PropertyPut,
                "Text"@,
                seq![ValueView::Str(value@)],
            ),
            m_unit(r, spec_set(old(rt)@, self.handle_spec(), "Text"@, ValueView::Str(value@))),
    {
        set_string_property(self, rt, "Text", value)
    }

    /// The tooltip explaining the meaning of the field or button.
    fn tooltip(&self, rt: &mut MockRuntime) -> (r: Result<String, InvocationError>)
        ensures
            final(rt)@.objects == old(rt)@.objects,
            final(rt)@.rot_wrapper == old(rt)@.rot_wrapper,
            final(rt)@.log == log_after(
                old(rt)@,
                self.handle_spec(),
                DispatchOp::PropertyGet,
                "Tooltip"@,
                Seq::<ValueView>::empty(),
            ),
            m_str(r, str_get_result(old(rt)@, self.handle_spec(), "Tooltip"@)),
    {
        get_string_property(self, rt, "Tooltip")
    }

    /// Top coordinate of the element in screen coordinates.
    fn top(&self, rt: &mut MockRuntime) -> (r: Result<i64, InvocationError>)
        ensures
            final(rt)@.objects == old(rt)@.objects,
            final(rt)@.rot_wrapper == old(rt)@.rot_wrapper,
            final(rt)@.log == log_after(
                old(rt)@,
                self.handle_spec(),
                DispatchOp::PropertyGet,
                "Top"@,
                Seq::<ValueView>::empty(),
            ),
            m_i64(r, int_get_result(old(rt)@, self.handle_spec(), "Top"@)),
    {
        get_int_property(self, rt, "Top")
    }

    /// Width of the component in pixels.
    fn width(&self, rt: &mut MockRuntime) -> (r: Result<i64, InvocationError>)
        ensures
            final(rt)@.objects == old(rt)@.objects,
            final(rt)@.rot_wrapper == old(rt)@.rot_wrapper,
            final(rt)@.log == log_after(
                old(rt)@,
                self.handle_spec(),
                DispatchOp::PropertyGet,
                "Width"@,
                Seq::<ValueView>::empty(),
            ),
            m_i64(r, int_get_result(old(rt)@, self.handle_spec(), "Width"@)),
    {
        get_int_property(self, rt, "Width")
    }
}

/// The facet of administrative containers (connections, sessions):
/// navigation to descendants.
pub trait GuiContainerMethods: GuiComponentMethods {
    /// Search the object's descendants for the given id and wrap the
    /// result in its most specific typed wrapper.  The remote side raises
    /// its own error when no descendant matches.
    fn find_by_id(&self, rt: &mut MockRuntime, id: &str) -> (r: Result<
        SAPComponent,
        InvocationError,
    >)
        ensures
            final(rt)@.objects == old(rt)@.objects,
            final(rt)@.rot_wrapper == old(rt)@.rot_wrapper,
            final(rt)@.log == find_log(
                old(rt)@,
                self.handle_spec(),
                "FindById"@,
                seq![ValueView::Str(id@)],
            ),
            m_component(r, find_result(
                old(rt)@,
                self.handle_spec(),
                "FindById"@,
                seq![ValueView::Str(id@)],
            )),
    {
        let mut args: Vec<ComValue> = Vec::new();
        args.push(ComValue::from_str(id));
        proof {
            assert(args.deep_view() =~= seq![ValueView::Str(id@)]);
        }
        find_component(rt, self.dispatch_handle(), "FindById", args)
    }

    /// The direct child at position `n` of the children collection, as a
    /// generic handle.  Each access is a fresh remote round trip; nothing
    /// is cached.
    fn children(&self, rt: &mut MockRuntime, n: i32) -> (r: Result<
        GuiComponent,
        InvocationError,
    >)
        ensures
            final(rt)@.objects == old(rt)@.objects,
            final(rt)@.rot_wrapper == old(rt)@.rot_wrapper,
            final(rt)@.log == log_after(
                old(rt)@,
                self.handle_spec(),
                DispatchOp::PropertyGet,
                "Children"@,
                seq![ValueView::Int32(n as int)],
            ),
            m_handle(r, handle_get_indexed_result(
                old(rt)@,
                self.handle_spec(),
                "Children"@,
                ValueView::Int32(n as int),
            )),
    {
        get_component_indexed(self, rt, "Children", ComValue::from_i32(n))
    }
}

/// The facet of visible containers: server-side search by name.
pub trait GuiVContainerMethods: GuiVComponentMethods + GuiContainerMethods {
    /// Return the first descendant matching both the name and the kind.
    /// Unlike the id search this does not guarantee a unique result; the
    /// remote side raises its own error when nothing matches.
    fn find_by_name(&self, rt: &mut MockRuntime, name: &str, kind: &str) -> (r: Result<
        SAPComponent,
        InvocationError,
    >)
        ensures
            final(rt)@.objects == old(rt)@.objects,
            final(rt)@.rot_wrapper == old(rt)@.rot_wrapper,
            final(rt)@.log == find_log(
                old(rt)@,
                self.handle_spec(),
                "FindByName"@,
                seq![ValueView::Str(name@), ValueView::Str(kind@)],
            ),
            m_component(r, find_result(
                old(rt)@,
                self.handle_spec(),
                "FindByName"@,
                seq![ValueView::Str(name@), ValueView::Str(kind@)],
            )),
    {
        let mut args: Vec<ComValue> = Vec::new();
        args.push(ComValue::from_str(name));
        args.push(ComValue::from_str(kind));
        proof {
            assert(args.deep_view() =~= seq![ValueView::Str(name@), ValueView::Str(kind@)]);
        }
        find_component(rt, self.dispatch_handle(), "FindByName", args)
    }

    /// Like the name search, but the kind is given as the numeric form of
    /// the type tag.
    fn find_by_name_ex(&self, rt: &mut MockRuntime, name: &str, kind: i64) -> (r: Result<
        SAPComponent,
        InvocationError,
    >)
        ensures
            final(rt)@.objects == old(rt)@.objects,
            final(rt)@.rot_wrapper == old(rt)@.rot_wrapper,
            final(rt)@.log == find_log(
                old(rt)@,
                self.handle_spec(),
                "FindByNameEx"@,
                seq![ValueView::Str(name@), ValueView::Int64(kind as int)],
            ),
            m_component(r, find_result(
                old(rt)@,
                self.handle_spec(),
                "FindByNameEx"@,
                seq![ValueView::Str(name@), ValueView::Int64(kind as int)],
            )),
    {
        let mut args: Vec<ComValue> = Vec::new();
        args.push(ComValue::from_str(name));
        args.push(ComValue::from_i64(kind));
        proof {
            assert(args.deep_view() =~= seq![ValueView::Str(name@), ValueView::Int64(
                kind as int,
            )]);
        }
        find_component(rt, self.dispatch_handle(), "FindByNameEx", args)
    }
}

/// The facet of high-level windows: the main window or a modal popup.
pub trait GuiFrameWindowMethods: GuiVContainerMethods {
    /// Attempt to close the window.  Closing the last main window of a
    /// session first shows the log-off confirmation.
    fn close(&self, rt: &mut MockRuntime) -> (r: Result<(), InvocationError>)
        ensures
            final(rt)@.objects == old(rt)@.objects,
            final(rt)@.rot_wrapper == old(rt)@.rot_wrapper,
            final(rt)@.log == log_after(
                old(rt)@,
                self.handle_spec(),
                DispatchOp::Method,
                "Close"@,
                Seq::<ValueView>::empty(),
            ),
            m_unit(r, unit_call_result(
                old(rt)@,
                self.handle_spec(),
                "Close"@,
                Seq::<ValueView>::empty(),
            )),
    {
        let args: Vec<ComValue> = Vec::new();
        proof {
            assert(args.deep_view() =~= Seq::<ValueView>::empty());
        }
        call_for_effect(self, rt, "Close", args)
    }

    /// Set the window to the iconified state; the whole session iconifies
    /// with it.
    fn iconify(&self, rt: &mut MockRuntime) -> (r: Result<(), InvocationError>)
        ensures
            final(rt)@.objects == old(rt)@.objects,
            final(rt)@.rot_wrapper == old(rt)@.rot_wrapper,
            final(rt)@.log == log_after(
                old(rt)@,
                self.handle_spec(),
                DispatchOp::Method,
                "Iconify"@,
                Seq::<ValueView>::empty(),
            ),
            m_unit(r, unit_call_result(
                old(rt)@,
                self.handle_spec(),
                "Iconify"@,
                Seq::<ValueView>::empty(),
            )),
    {
        let args: Vec<ComValue> = Vec::new();
        proof {
            assert(args.deep_view() =~= Seq::<ValueView>::empty());
        }
        call_for_effect(self, rt, "Iconify", args)
    }

    /// True if the virtual key `vkey` is currently available on this
    /// window.
    fn is_vkey_allowed(&self, rt: &mut MockRuntime, vkey: i32) -> (r: Result<
        bool,
        InvocationError,
    >)
        ensures
            final(rt)@.objects == old(rt)@.objects,
            final(rt)@.rot_wrapper == old(rt)@.rot_wrapper,
            final(rt)@.log == log_after(
                old(rt)@,
                self.handle_spec(),
                DispatchOp::Method,
                "IsVKeyAllowed"@,
                seq![ValueView::Int32(vkey as int)],
            ),
            m_bool(r, bool_call_result(
                old(rt)@,
                self.handle_spec(),
                "IsVKeyAllowed"@,
                seq![ValueView::Int32(vkey as int)],
            )),
    {
        let mut args: Vec<ComValue> = Vec::new();
        args.push(ComValue::from_i32(vkey));
        proof {
            assert(args.deep_view() =~= seq![ValueView::Int32(vkey as int)]);
        }
        call_for_bool(self, rt, "IsVKeyAllowed", args)
    }

    /// Jump backward one block, as the keyboard shortcut would.
    fn jump_backward(&self, rt: &mut MockRuntime) -> (r: Result<(), InvocationError>)
        ensures
            final(rt)@.objects == old(rt)@.objects,
            final(rt)@.rot_wrapper == old(rt)@.rot_wrapper,
            final(rt)@.log == log_after(
                old(rt)@,
                self.handle_spec(),
                DispatchOp::Method,
                "JumpBackward"@,
                Seq::<ValueView>::empty(),
            ),
            m_unit(r, unit_call_result(
                old(rt)@,
                self.handle_spec(),
                "JumpBackward"@,
                Seq::<ValueView>::empty(),
            )),
    {
        let args: Vec<ComValue> = Vec::new();
        proof {
            assert(args.deep_view() =~= Seq::<ValueView>::empty());
        }
        call_for_effect(self, rt, "JumpBackward", args)
    }

    /// Jump forward one block, as the keyboard shortcut would.
    fn jump_forward(&self, rt: &mut MockRuntime) -> (r: Result<(), InvocationError>)
        ensures
            final(rt)@.objects == old(rt)@.objects,
            final(rt)@.rot_wrapper == old(rt)@.rot_wrapper,
            final(rt)@.log == log_after(
                old(rt)@,
                self.handle_spec(),
                DispatchOp::Method,
                "JumpForward"@,
                Seq::<ValueView>::empty(),
            ),
            m_unit(r, unit_call_result(
                old(rt)@,
                self.handle_spec(),
                "JumpForward"@,
                Seq::<ValueView>::empty(),
            )),
    {
        let args: Vec<ComValue> = Vec::new();
        proof {
            assert(args.deep_view() =~= Seq::<ValueView>::empty());
        }
        call_for_effect(self, rt, "JumpForward", args)
    }

    /// Maximize the window.  A modal window cannot be maximized; the main
    /// window is maximized in its place.
    fn maximize(&self, rt: &mut MockRuntime) -> (r: Result<(), InvocationError>)
        ensures
            final(rt)@.objects == old(rt)@.objects,
            final(rt)@.rot_wrapper == old(rt)@.rot_wrapper,
            final(rt)@.log == log_after(
                old(rt)@,
                self.handle_spec(),
                DispatchOp::Method,
                "Maximize"@,
                Seq::<ValueView>::empty(),
            ),
            m_unit(r, unit_call_result(
                old(rt)@,
                self.handle_spec(),
                "Maximize"@,
                Seq::<ValueView>::empty(),
            )),
    {
        let args: Vec<ComValue> = Vec::new();
        proof {
            assert(args.deep_view() =~= Seq::<ValueView>::empty());
        }
        call_for_effect(self, rt, "Maximize", args)
    }

    /// Restore the window from its iconified state; the whole session is
    /// restored with it.
    fn restore(&self, rt: &mut MockRuntime) -> (r: Result<(), InvocationError>)
        ensures
            final(rt)@.objects == old(rt)@.objects,
            final(rt)@.rot_wrapper == old(rt)@.rot_wrapper,
            final(rt)@.log == log_after(
                old(rt)@,
                self.handle_spec(),
                DispatchOp::Method,
                "Restore"@,
                Seq::<ValueView>::empty(),
            ),
            m_unit(r, unit_call_result(
                old(rt)@,
                self.handle_spec(),
                "Restore"@,
                Seq::<ValueView>::empty(),
            )),
    {
        let args: Vec<ComValue> = Vec::new();
        proof {
            assert(args.deep_view() =~= Seq::<ValueView>::empty());
        }
        call_for_effect(self, rt, "Restore", args)
    }

    /// Send the virtual key `vkey` to the window.
    fn send_vkey(&self, rt: &mut MockRuntime, vkey: i32) -> (r: Result<(), InvocationError>)
        ensures
            final(rt)@.objects == old(rt)@.objects,
            final(rt)@.rot_wrapper == old(rt)@.rot_wrapper,
            final(rt)@.log == log_after(
                old(rt)@,
                self.handle_spec(),
                DispatchOp::Method,
                "SendVKey"@,
                seq![ValueView::Int32(vkey as int)],
            ),
            m_unit(r, unit_call_result(
                old(rt)@,
                self.handle_spec(),
                "SendVKey"@,
                seq![ValueView::Int32(vkey as int)],
            )),
    {
        let mut args: Vec<ComValue> = Vec::new();
        args.push(ComValue::from_i32(vkey));
        proof {
            assert(args.deep_view() =~= seq![ValueView::Int32(vkey as int)]);
        }
        call_for_effect(self, rt, "SendVKey", args)
    }

    /// Move backward one element, as the reverse tab key would.
    fn tab_backward(&self, rt: &mut MockRuntime) -> (r: Result<(), InvocationError>)
        ensures
            final(rt)@.objects == old(rt)@.objects,
            final(rt)@.rot_wrapper == old(rt)@.rot_wrapper,
            final(rt)@.log == log_after(
                old(rt)@,
                self.handle_spec(),
                DispatchOp::Method,
                "TabBackward"@,
                Seq::<ValueView>::empty(),
            ),
            m_unit(r, unit_call_result(
                old(rt)@,
                self.handle_spec(),
                "TabBackward"@,
                Seq::<ValueView>::empty(),
            )),
    {
        let args: Vec<ComValue> = Vec::new();
        proof {
            assert(args.deep_view() =~= Seq::<ValueView>::empty());
        }
        call_for_effect(self, rt, "TabBackward", args)
    }

    /// Move forward one element, as the tab key would.
    fn tab_forward(&self, rt: &mut MockRuntime) -> (r: Result<(), InvocationError>)
        ensures
            final(rt)@.objects == old(rt)@.objects,
            final(rt)@.rot_wrapper == old(rt)@.rot_wrapper,
            final(rt)@.log == log_after(
                old(rt)@,
                self.handle_spec(),
                DispatchOp::Method,
                "TabForward"@,
                Seq::<ValueView>::empty(),
            ),
            m_unit(r, unit_call_result(
                old(rt)@,
                self.handle_spec(),
                "TabForward"@,
                Seq::<ValueView>::empty(),
            )),
    {
        let args: Vec<ComValue> = Vec::new();
        proof {
            assert(args.deep_view() =~= Seq::<ValueView>::empty());
        }
        call_for_effect(self, rt, "TabForward", args)
    }

    /// The height of the working pane in character metric.
    fn working_pane_height(&self, rt: &mut MockRuntime) -> (r: Result<i64, InvocationError>)
        ensures
            final(rt)@.objects == old(rt)@.objects,
            final(rt)@.rot_wrapper == old(rt)@.rot_wrapper,
            final(rt)@.log == log_after(
                old(rt)@,
                self.handle_spec(),
                DispatchOp::PropertyGet,
                "WorkingPaneHeight"@,
                Seq::<ValueView>::empty(),
            ),
            m_i64(r, int_get_result(old(rt)@, self.handle_spec(), "WorkingPaneHeight"@)),
    {
        get_int_property(self, rt, "WorkingPaneHeight")
    }

    /// The width of the working pane — the area between the toolbars and
    /// the status bar — in character metric.
    fn working_pane_width(&self, rt: &mut MockRuntime) -> (r: Result<i64, InvocationError>)
        ensures
            final(rt)@.objects == old(rt)@.objects,
            final(rt)@.rot_wrapper == old(rt)@.rot_wrapper,
            final(rt)@.log == log_after(
                old(rt)@,
                self.handle_spec(),
                DispatchOp::PropertyGet,
                "WorkingPaneWidth"@,
                Seq::<ValueView>::empty(),
            ),
            m_i64(r, int_get_result(old(rt)@, self.handle_spec(), "WorkingPaneWidth"@)),
    {
        get_int_property(self, rt, "WorkingPaneWidth")
    }
}

/// The facet of the simple named frame (group box).  The items inside the
/// frame are not children of the box.
pub trait GuiBoxMethods: GuiVComponentMethods {
    /// Height of the box in character metric.
    fn char_height(&self, rt: &mut MockRuntime) -> (r: Result<i64, InvocationError>)
        ensures
            final(rt)@.objects == old(rt)@.objects,
            final(rt)@.rot_wrapper == old(rt)@.rot_wrapper,
            final(rt)@.log == log_after(
                old(rt)@,
                self.handle_spec(),
                DispatchOp::PropertyGet,
                "CharHeight"@,
                Seq::<ValueView>::empty(),
            ),
            m_i64(r, int_get_result(old(rt)@, self.handle_spec(), "CharHeight"@)),
    {
        get_int_property(self, rt, "CharHeight")
    }

    /// Left coordinate of the box in character metric.
    fn char_left(&self, rt: &mut MockRuntime) -> (r: Result<i64, InvocationError>)
        ensures
            final(rt)@.objects == old(rt)@.objects,
            final(rt)@.rot_wrapper == old(rt)@.rot_wrapper,
            final(rt)@.log == log_after(
                old(rt)@,
                self.handle_spec(),
                DispatchOp::PropertyGet,
                "CharLeft"@,
                Seq::<ValueView>::empty(),
            ),
            m_i64(r, int_get_result(old(rt)@, self.handle_spec(), "CharLeft"@)),
    {
        get_int_property(self, rt, "CharLeft")
    }

    /// Top coordinate of the box in character metric.
    fn char_top(&self, rt: &mut MockRuntime) -> (r: Result<i64, InvocationError>)
        ensures
            final(rt)@.objects == old(rt)@.objects,
            final(rt)@.rot_wrapper == old(rt)@.rot_wrapper,
            final(rt)@.log == log_after(
                old(rt)@,
                self.handle_spec(),
                DispatchOp::PropertyGet,
                "CharTop"@,
                Seq::<ValueView>::empty(),
            ),
            m_i64(r, int_get_result(old(rt)@, self.handle_spec(), "CharTop"@)),
    {
        get_int_property(self, rt, "CharTop")
    }

    /// Width of the box in character metric.
    fn char_width(&self, rt: &mut MockRuntime) -> (r: Result<i64, InvocationError>)
        ensures
            final(rt)@.objects == old(rt)@.objects,
            final(rt)@.rot_wrapper == old(rt)@.rot_wrapper,
            final(rt)@.log == log_after(
                old(rt)@,
                self.handle_spec(),
                DispatchOp::PropertyGet,
                "CharWidth"@,
                Seq::<ValueView>::empty(),
            ),
            m_i64(r, int_get_result(old(rt)@, self.handle_spec(), "CharWidth"@)),
    {
        get_int_property(self, rt, "CharWidth")
    }
}

/// The facet of text fields.  Beyond the visual-component accessors the
/// remote model adds history and list metadata, none of which this
/// binding wraps yet.
pub trait GuiTextFieldMethods: GuiVComponentMethods {

}

} // verus!
