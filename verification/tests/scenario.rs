//! End-to-end: navigate from a session handle to the main window and
//! maximize it, checking the exact sequence of issued operations.

use sap_scripting::component::{GuiMainWindow, GuiSession};
use sap_scripting::runtime::DispatchOp;
use sap_scripting::traits::{GuiContainerMethods, GuiFrameWindowMethods};
use sap_scripting::{ComValue, MemberBehavior, MockRuntime, SAPComponent};

#[test]
fn find_downcast_maximize() {
    let mut rt = MockRuntime::new();
    let session_h = rt.add_object();
    let window_h = rt.add_object();
    rt.add_member(
        session_h,
        "FindById",
        MemberBehavior::Value(ComValue::from_object(window_h)),
    );
    rt.add_member(
        window_h,
        "Type",
        MemberBehavior::Value(ComValue::from_str("GuiMainWindow")),
    );
    rt.add_member(window_h, "Maximize", MemberBehavior::Value(ComValue::null()));

    let session = GuiSession { handle: session_h };
    let comp: SAPComponent = session.find_by_id(&mut rt, "wnd[0]").unwrap();
    let window: GuiMainWindow = comp.downcast().unwrap();
    window.maximize(&mut rt).unwrap();

    let log = rt.transcript();
    assert_eq!(log.len(), 3);

    assert_eq!(log[0].target, session_h);
    assert_eq!(log[0].op, DispatchOp::Method);
    assert_eq!(log[0].member, "FindById");
    assert_eq!(log[0].args.len(), 1);
    assert!(matches!(&log[0].args[0], ComValue::Str(s) if s == "wnd[0]"));

    assert_eq!(log[1].target, window_h);
    assert_eq!(log[1].op, DispatchOp::PropertyGet);
    assert_eq!(log[1].member, "Type");
    assert!(log[1].args.is_empty());

    assert_eq!(log[2].target, window_h);
    assert_eq!(log[2].op, DispatchOp::Method);
    assert_eq!(log[2].member, "Maximize");
    assert!(log[2].args.is_empty());
}

#[test]
fn find_failure_is_not_found_style_remote_error() {
    let mut rt = MockRuntime::new();
    let session_h = rt.add_object();
    rt.add_member(
        session_h,
        "FindById",
        MemberBehavior::Fails(614, "control not found".to_owned()),
    );
    let session = GuiSession { handle: session_h };
    match session.find_by_id(&mut rt, "wnd[7]") {
        Err(sap_scripting::InvocationError::RemoteFailure { code, .. }) => assert_eq!(code, 614),
        Err(other) => panic!("expected RemoteFailure, got {:?}", other),
        Ok(_) => panic!("expected RemoteFailure, got a component"),
    }
    assert_eq!(rt.transcript().len(), 1);
}
