//! The capability-trait accessors: reads, writes, calls and the
//! coercions and failures they surface.

use sap_scripting::component::{GuiButton, GuiMainWindow, GuiSession, GuiTextField};
use sap_scripting::traits::{
    GuiComponentMethods, GuiContainerMethods, GuiFrameWindowMethods, GuiVComponentMethods,
    GuiVContainerMethods, HasDispatch,
};
use sap_scripting::{ComValue, ConversionError, InvocationError, MemberBehavior, MockRuntime};

#[test]
fn string_and_int_getters() {
    let mut rt = MockRuntime::new();
    let h = rt.add_object();
    rt.add_member(h, "Id", MemberBehavior::Value(ComValue::from_str("/app/con[0]/ses[0]/btn")));
    rt.add_member(h, "Name", MemberBehavior::Value(ComValue::from_str("OK_BUTTON")));
    rt.add_member(h, "Type", MemberBehavior::Value(ComValue::from_str("GuiButton")));
    rt.add_member(h, "TypeAsNumber", MemberBehavior::Value(ComValue::from_i32(40)));
    rt.add_member(h, "Height", MemberBehavior::Value(ComValue::from_i64(24)));
    let b = GuiButton { handle: h };
    assert_eq!(b.id(&mut rt).unwrap(), "/app/con[0]/ses[0]/btn");
    assert_eq!(b.name(&mut rt).unwrap(), "OK_BUTTON");
    assert_eq!(b.kind(&mut rt).unwrap(), "GuiButton");
    assert_eq!(b.kind_as_number(&mut rt).unwrap(), 40);
    assert_eq!(b.height(&mut rt).unwrap(), 24);
}

#[test]
fn getters_apply_remote_coercion() {
    let mut rt = MockRuntime::new();
    let h = rt.add_object();
    // the remote side may hand numbers back as strings and the reverse
    rt.add_member(h, "Left", MemberBehavior::Value(ComValue::from_str("42")));
    rt.add_member(h, "Text", MemberBehavior::Value(ComValue::from_i32(7)));
    rt.add_member(h, "Changeable", MemberBehavior::Value(ComValue::from_i32(1)));
    let b = GuiButton { handle: h };
    assert_eq!(b.left(&mut rt).unwrap(), 42);
    assert_eq!(b.text(&mut rt).unwrap(), "7");
    assert_eq!(b.changeable(&mut rt).unwrap(), true);
}

#[test]
fn getter_surfaces_marshal_failure() {
    let mut rt = MockRuntime::new();
    let h = rt.add_object();
    rt.add_member(h, "Height", MemberBehavior::Value(ComValue::from_str("tall")));
    let b = GuiButton { handle: h };
    match b.height(&mut rt) {
        Err(InvocationError::Marshal(ConversionError::RuntimeCoercionFailed)) => {},
        other => panic!("expected Marshal, got {:?}", other),
    }
}

#[test]
fn set_text_then_read_back() {
    let mut rt = MockRuntime::new();
    let h = rt.add_object();
    rt.add_member(h, "Text", MemberBehavior::Value(ComValue::from_str("")));
    let f = GuiTextField { handle: h };
    f.set_text(&mut rt, "hello").unwrap();
    assert_eq!(f.text(&mut rt).unwrap(), "hello");
}

#[test]
fn visualize_and_set_focus() {
    let mut rt = MockRuntime::new();
    let h = rt.add_object();
    rt.add_member(h, "Visualize", MemberBehavior::Value(ComValue::from_bool(true)));
    rt.add_member(h, "SetFocus", MemberBehavior::Value(ComValue::null()));
    let b = GuiButton { handle: h };
    b.visualize(&mut rt, true).unwrap();
    b.set_focus(&mut rt).unwrap();
    assert_eq!(rt.transcript().len(), 2);
    assert!(matches!(&rt.transcript()[0].args[0], ComValue::Bool(true)));
}

#[test]
fn children_returns_generic_handle() {
    let mut rt = MockRuntime::new();
    let session_h = rt.add_object();
    let kid = rt.add_object();
    rt.add_member(
        session_h,
        "Children",
        MemberBehavior::Indexed(vec![ComValue::from_object(kid)]),
    );
    let s = GuiSession { handle: session_h };
    let c = s.children(&mut rt, 0).unwrap();
    assert_eq!(c.handle, kid);
}

#[test]
fn parent_frame_wraps_handle() {
    let mut rt = MockRuntime::new();
    let h = rt.add_object();
    let frame = rt.add_object();
    rt.add_member(h, "ParentFrame", MemberBehavior::Value(ComValue::from_object(frame)));
    let b = GuiButton { handle: h };
    assert_eq!(b.parent_frame(&mut rt).unwrap().handle, frame);
}

#[test]
fn find_by_name_discriminates_result() {
    let mut rt = MockRuntime::new();
    let w_h = rt.add_object();
    let field_h = rt.add_object();
    rt.add_member(w_h, "FindByName", MemberBehavior::Value(ComValue::from_object(field_h)));
    rt.add_member(field_h, "Type", MemberBehavior::Value(ComValue::from_str("GuiTextField")));
    let w = GuiMainWindow { handle: w_h };
    let comp = w.find_by_name(&mut rt, "RSYST-BNAME", "GuiTextField").unwrap();
    let field: Option<GuiTextField> = comp.downcast();
    assert!(field.is_some());
    assert_eq!(field.unwrap().dispatch_handle(), field_h);
}

#[test]
fn find_by_name_ex_passes_numeric_kind() {
    let mut rt = MockRuntime::new();
    let w_h = rt.add_object();
    let field_h = rt.add_object();
    rt.add_member(w_h, "FindByNameEx", MemberBehavior::Value(ComValue::from_object(field_h)));
    rt.add_member(field_h, "Type", MemberBehavior::Value(ComValue::from_str("GuiTextField")));
    let w = GuiMainWindow { handle: w_h };
    let _ = w.find_by_name_ex(&mut rt, "RSYST-BNAME", 31).unwrap();
    assert!(matches!(rt.transcript()[0].args[1], ComValue::Int64(31)));
}

#[test]
fn frame_window_calls() {
    let mut rt = MockRuntime::new();
    let h = rt.add_object();
    rt.add_member(h, "Maximize", MemberBehavior::Value(ComValue::null()));
    rt.add_member(h, "IsVKeyAllowed", MemberBehavior::Value(ComValue::from_bool(true)));
    rt.add_member(h, "SendVKey", MemberBehavior::Value(ComValue::null()));
    rt.add_member(h, "WorkingPaneHeight", MemberBehavior::Value(ComValue::from_i32(30)));
    let w = GuiMainWindow { handle: h };
    w.maximize(&mut rt).unwrap();
    assert_eq!(w.is_vkey_allowed(&mut rt, 0).unwrap(), true);
    w.send_vkey(&mut rt, 0).unwrap();
    assert_eq!(w.working_pane_height(&mut rt).unwrap(), 30);
}

#[test]
fn press_issues_one_method_call() {
    let mut rt = MockRuntime::new();
    let h = rt.add_object();
    rt.add_member(h, "Press", MemberBehavior::Value(ComValue::null()));
    let b = GuiButton { handle: h };
    b.press(&mut rt).unwrap();
    assert_eq!(rt.transcript().len(), 1);
    assert_eq!(rt.transcript()[0].member, "Press");
    rt.close_object(h);
    assert!(matches!(b.press(&mut rt), Err(InvocationError::HandleInvalid)));
    assert_eq!(rt.transcript().len(), 1);
}

#[test]
fn accessor_on_missing_member_is_unknown_member() {
    let mut rt = MockRuntime::new();
    let h = rt.add_object();
    let b = GuiButton { handle: h };
    assert!(matches!(b.tooltip(&mut rt), Err(InvocationError::UnknownMember)));
}
