//! The scripting session entry points and the runtime-environment
//! lifecycle.
//!
//! The process-wide automation environment must be acquired once before
//! any handle is created and torn down exactly once at shutdown.  The
//! acquisition itself is a foreign call; this module models its state as
//! a pair of counters and makes the pairing discipline checkable: an
//! instance is acquired against the environment, and releasing it
//! consumes the instance, so a second teardown through the same instance
//! cannot be written.  The unverified transport mirrors this with a
//! scoped guard whose destructor tears the real environment down on
//! every exit path.

use vstd::prelude::*;

use crate::component::{with_log, GuiApplication};
use crate::runtime::{log_after, spec_invoke, CallView, DispatchOp, MockRuntime, RuntimeView};
use crate::value::{ComValue, ConversionError, InvocationError, InvokeErrView, ObjectHandle,
    ValueView};

verus! {

/// The abstract shape of an environment failure.
pub ghost enum EnvErrView {
    WrapperUnavailable,
    Invocation(InvokeErrView),
    Conversion(ConversionError),
}

/// Failure of environment acquisition or of the entry-point navigation.
/// Lower-layer errors are carried unchanged, never reinterpreted.
#[derive(Debug)]
pub enum EnvError {
    /// No scripting wrapper object is reachable: the remote side is not
    /// running or has not registered one.
    WrapperUnavailable,
    /// An invocation on the way to the scripting engine failed.
    Invocation(InvocationError),
    /// A reply on the way to the scripting engine had the wrong shape.
    Conversion(ConversionError),
}

impl View for EnvError {
    type V = EnvErrView;

    open spec fn view(&self) -> EnvErrView {
        match self {
            EnvError::WrapperUnavailable => EnvErrView::WrapperUnavailable,
            EnvError::Invocation(e) => EnvErrView::Invocation(e@),
            EnvError::Conversion(e) => EnvErrView::Conversion(*e),
        }
    }
}

/// The abstract state of the process-wide automation environment: how
/// often it was acquired and how often it was torn down.
#[verifier::ext_equal]
pub ghost struct SubsystemView {
    pub init_calls: int,
    pub teardown_calls: int,
}

/// The process-wide automation environment, modeled by its acquisition
/// and teardown counters.  The real environment is process state behind
/// a foreign call; the counters make the pairing discipline visible to
/// the contracts.
pub struct ComSubsystem {
    init_calls: u32,
    teardown_calls: u32,
}

impl View for ComSubsystem {
    type V = SubsystemView;

    closed spec fn view(&self) -> SubsystemView {
        SubsystemView {
            init_calls: self.init_calls as int,
            teardown_calls: self.teardown_calls as int,
        }
    }
}

impl ComSubsystem {
    /// A fresh environment: never acquired, never torn down.
    pub fn new() -> (r: ComSubsystem)
        ensures
            r@.init_calls == 0,
            r@.teardown_calls == 0,
    {
        ComSubsystem { init_calls: 0, teardown_calls: 0 }
    }

    /// How often the environment was acquired.
    pub fn acquisitions(&self) -> (n: u32)
        ensures
            n as int == self@.init_calls,
    {
        self.init_calls
    }

    /// How often the environment was torn down.
    pub fn teardowns(&self) -> (n: u32)
        ensures
            n as int == self@.teardown_calls,
    {
        self.teardown_calls
    }
}

/// One acquisition of the automation environment.  It must stay alive for
/// the whole lifetime of every handle created under it, and `release`
/// consumes it, so exactly one teardown is issued per instance.
pub struct SAPComInstance {
    marker: bool,
}

impl SAPComInstance {
    /// Acquire the automation environment.  Acquisition itself always
    /// succeeds against the modeled environment; the result is fallible
    /// because the underlying runtime's initializer is.
    pub fn new(com: &mut ComSubsystem) -> (r: Result<SAPComInstance, EnvError>)
        requires
            old(com)@.init_calls < u32::MAX,
        ensures
            r is Ok,
            final(com)@.init_calls == old(com)@.init_calls + 1,
            final(com)@.teardown_calls == old(com)@.teardown_calls,
    {
        com.init_calls = com.init_calls + 1;
        Ok(SAPComInstance { marker: true })
    }

    /// Obtain the scripting wrapper this environment hands out: the entry
    /// object from which the scripting engine is reached.  Fails exactly
    /// when no wrapper object is installed.
    pub fn sap_wrapper(&self, rt: &MockRuntime) -> (r: Result<SAPWrapper, EnvError>)
        ensures
            match r {
                Ok(w) => rt@.rot_wrapper == Some(w.handle),
                Err(e) => rt@.rot_wrapper is None && e@ == EnvErrView::WrapperUnavailable,
            },
    {
        match rt.wrapper_entry() {
            Some(h) => Ok(SAPWrapper { handle: h }),
            None => Err(EnvError::WrapperUnavailable),
        }
    }

    /// Tear the environment down.  The instance is consumed: exactly one
    /// teardown call is issued for it, and none can follow.
    pub fn release(self, com: &mut ComSubsystem)
        requires
            old(com)@.teardown_calls < u32::MAX,
        ensures
            final(com)@.teardown_calls == old(com)@.teardown_calls + 1,
            final(com)@.init_calls == old(com)@.init_calls,
    {
        com.teardown_calls = com.teardown_calls + 1;
    }
}

/// Law: one acquisition followed by one release leaves the number of
/// outstanding acquisitions unchanged — the pairing that the scoped
/// environment type enforces by consuming itself on release.
pub proof fn lemma_acquire_release_balance(
    s0: SubsystemView,
    s1: SubsystemView,
    s2: SubsystemView,
)
    requires
        s1.init_calls == s0.init_calls + 1,
        s1.teardown_calls == s0.teardown_calls,
        s2.teardown_calls == s1.teardown_calls + 1,
        s2.init_calls == s1.init_calls,
    ensures
        s2.init_calls - s2.teardown_calls == s0.init_calls - s0.teardown_calls,
{
}

/// What navigating from the wrapper to the scripting engine yields: the
/// running-object entry for the scripting target, then the engine object
/// from it; the first failure along the way is carried unchanged.
pub open spec fn scripting_engine_result(rt: RuntimeView, w: ObjectHandle) -> Result<
    ObjectHandle,
    EnvErrView,
> {
    match spec_invoke(rt, w, "GetROTEntry"@, seq![ValueView::Str("SAPGUI"@)]) {
        Err(e) => Err(EnvErrView::Invocation(e)),
        Ok(v) => match v {
            ValueView::Object(id) => {
                let g = ObjectHandle { id: id as usize };
                match spec_invoke(rt, g, "GetScriptingEngine"@, Seq::<ValueView>::empty()) {
                    Err(e) => Err(EnvErrView::Invocation(e)),
                    Ok(v2) => match v2 {
                        ValueView::Object(id2) => Ok(ObjectHandle { id: id2 as usize }),
                        _ => Err(EnvErrView::Conversion(ConversionError::TypeMismatch)),
                    },
                }
            },
            _ => Err(EnvErrView::Conversion(ConversionError::TypeMismatch)),
        },
    }
}

/// The transcript after the engine navigation: the entry lookup, then the
/// engine call when the lookup returned an object.
pub open spec fn scripting_engine_log(rt: RuntimeView, w: ObjectHandle) -> Seq<CallView> {
    let l1 = log_after(rt, w, DispatchOp::Method, "GetROTEntry"@, seq![ValueView::Str("SAPGUI"@)]);
    match spec_invoke(rt, w, "GetROTEntry"@, seq![ValueView::Str("SAPGUI"@)]) {
        Err(_) => l1,
        Ok(v) => match v {
            ValueView::Object(id) => log_after(
                with_log(rt, l1),
                ObjectHandle { id: id as usize },
                DispatchOp::Method,
                "GetScriptingEngine"@,
                Seq::<ValueView>::empty(),
            ),
            _ => l1,
        },
    }
}

/// The wrapper over the scripting runtime's registration object: the
/// entry point from which the scripting engine is obtained.
pub struct SAPWrapper {
    pub handle: ObjectHandle,
}

impl SAPWrapper {
    /// Navigate to the scripting engine: look the scripting target up in
    /// the running-object table, then ask it for the engine, and wrap the
    /// engine handle as the application root.
    pub fn scripting_engine(&self, rt: &mut MockRuntime) -> (r: Result<GuiApplication, EnvError>)
        ensures
            final(rt)@.objects == old(rt)@.objects,
            final(rt)@.rot_wrapper == old(rt)@.rot_wrapper,
            final(rt)@.log == scripting_engine_log(old(rt)@, self.handle),
            match r {
                Ok(app) => scripting_engine_result(old(rt)@, self.handle) == Ok::<
                    ObjectHandle,
                    EnvErrView,
                >(app.handle),
                Err(e) => scripting_engine_result(old(rt)@, self.handle) == Err::<
                    ObjectHandle,
                    EnvErrView,
                >(e@),
            },
    {
        let mut args: Vec<ComValue> = Vec::new();
        args.push(ComValue::from_str("SAPGUI"));
        proof {
            assert(args.deep_view() =~= seq![ValueView::Str("SAPGUI"@)]);
        }
        let v = match rt.invoke(self.handle, "GetROTEntry", args) {
            Ok(v) => v,
            Err(e) => {
                return Err(EnvError::Invocation(e));
            },
        };
        let sap_gui = match v.to_object() {
            Ok(h) => h,
            Err(ce) => {
                return Err(EnvError::Conversion(ce));
            },
        };
        let no_args: Vec<ComValue> = Vec::new();
        proof {
            assert(no_args.deep_view() =~= Seq::<ValueView>::empty());
        }
        let v2 = match rt.invoke(sap_gui, "GetScriptingEngine", no_args) {
            Ok(v) => v,
            Err(e) => {
                return Err(EnvError::Invocation(e));
            },
        };
        match v2.to_object() {
            Ok(h) => Ok(GuiApplication { handle: h }),
            Err(ce) => Err(EnvError::Conversion(ce)),
        }
    }
}

} // verus!
