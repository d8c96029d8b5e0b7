//! The environment lifecycle and the entry-point navigation.

use sap_scripting::{
    ComSubsystem, ComValue, EnvError, MemberBehavior, MockRuntime, SAPComInstance,
};

#[test]
fn acquire_then_release_pairs_exactly_once() {
    let mut com = ComSubsystem::new();
    let instance = SAPComInstance::new(&mut com).unwrap();
    assert_eq!(com.acquisitions(), 1);
    assert_eq!(com.teardowns(), 0);
    instance.release(&mut com);
    assert_eq!(com.acquisitions(), 1);
    assert_eq!(com.teardowns(), 1);
}

#[test]
fn release_after_failed_call_still_happens_once() {
    let mut com = ComSubsystem::new();
    let mut rt = MockRuntime::new();
    let instance = SAPComInstance::new(&mut com).unwrap();
    let h = rt.add_object();
    rt.add_member(h, "Press", MemberBehavior::Fails(1, "rejected".to_owned()));
    let _ = rt.invoke(h, "Press", Vec::new());
    instance.release(&mut com);
    assert_eq!(com.teardowns(), 1);
}

#[test]
fn wrapper_unavailable_without_registration() {
    let mut com = ComSubsystem::new();
    let rt = MockRuntime::new();
    let instance = SAPComInstance::new(&mut com).unwrap();
    match instance.sap_wrapper(&rt) {
        Err(EnvError::WrapperUnavailable) => {},
        other => panic!("expected WrapperUnavailable, got {:?}", other.map(|w| w.handle)),
    }
    instance.release(&mut com);
}

#[test]
fn scripting_engine_navigation() {
    let mut com = ComSubsystem::new();
    let mut rt = MockRuntime::new();
    let wrapper_h = rt.add_object();
    let sap_gui_h = rt.add_object();
    let engine_h = rt.add_object();
    rt.add_member(
        wrapper_h,
        "GetROTEntry",
        MemberBehavior::Value(ComValue::from_object(sap_gui_h)),
    );
    rt.add_member(
        sap_gui_h,
        "GetScriptingEngine",
        MemberBehavior::Value(ComValue::from_object(engine_h)),
    );
    rt.install_wrapper(wrapper_h);

    let instance = SAPComInstance::new(&mut com).unwrap();
    let wrapper = instance.sap_wrapper(&rt).unwrap();
    let app = wrapper.scripting_engine(&mut rt).unwrap();
    assert_eq!(app.handle, engine_h);

    let log = rt.transcript();
    assert_eq!(log.len(), 2);
    assert_eq!(log[0].member, "GetROTEntry");
    assert_eq!(log[0].target, wrapper_h);
    assert!(matches!(&log[0].args[0], ComValue::Str(s) if s == "SAPGUI"));
    assert_eq!(log[1].member, "GetScriptingEngine");
    assert_eq!(log[1].target, sap_gui_h);

    instance.release(&mut com);
}

#[test]
fn scripting_engine_bad_reply_is_conversion_error() {
    let mut rt = MockRuntime::new();
    let wrapper_h = rt.add_object();
    rt.add_member(
        wrapper_h,
        "GetROTEntry",
        MemberBehavior::Value(ComValue::from_str("not an object")),
    );
    rt.install_wrapper(wrapper_h);
    let wrapper = sap_scripting::SAPWrapper { handle: wrapper_h };
    match wrapper.scripting_engine(&mut rt) {
        Err(EnvError::Conversion(_)) => {},
        Err(other) => panic!("expected Conversion, got {:?}", other),
        Ok(_) => panic!("expected Conversion, got an application"),
    }
}

#[test]
fn scripting_engine_missing_entry_is_invocation_error() {
    let mut rt = MockRuntime::new();
    let wrapper_h = rt.add_object();
    rt.install_wrapper(wrapper_h);
    let wrapper = sap_scripting::SAPWrapper { handle: wrapper_h };
    match wrapper.scripting_engine(&mut rt) {
        Err(EnvError::Invocation(sap_scripting::InvocationError::UnknownMember)) => {},
        Err(other) => panic!("expected Invocation, got {:?}", other),
        Ok(_) => panic!("expected Invocation, got an application"),
    }
}
