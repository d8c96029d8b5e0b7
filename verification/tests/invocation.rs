//! The invocation primitive against the scripted runtime: resolution,
//! the error taxonomy, property writes, indexed access, the transcript.

use sap_scripting::runtime::{DispatchOp, CODE_BAD_INDEX, CODE_NEEDS_INDEX};
use sap_scripting::{ComValue, InvocationError, MemberBehavior, MockRuntime, ObjectHandle};

#[test]
fn resolve_known_member() {
    let mut rt = MockRuntime::new();
    let h = rt.add_object();
    rt.add_member(h, "Text", MemberBehavior::Value(ComValue::from_str("hi")));
    assert!(rt.resolve_member(h, "Text").is_ok());
}

#[test]
fn resolve_unknown_member() {
    let mut rt = MockRuntime::new();
    let h = rt.add_object();
    rt.add_member(h, "Text", MemberBehavior::Value(ComValue::from_str("hi")));
    match rt.resolve_member(h, "NoSuchMember") {
        Err(InvocationError::UnknownMember) => {},
        other => panic!("expected UnknownMember, got {:?}", other),
    }
}

#[test]
fn resolution_is_case_sensitive() {
    let mut rt = MockRuntime::new();
    let h = rt.add_object();
    rt.add_member(h, "Text", MemberBehavior::Value(ComValue::from_str("hi")));
    match rt.resolve_member(h, "text") {
        Err(InvocationError::UnknownMember) => {},
        other => panic!("expected UnknownMember, got {:?}", other),
    }
}

#[test]
fn closed_object_is_invalid() {
    let mut rt = MockRuntime::new();
    let h = rt.add_object();
    rt.add_member(h, "Press", MemberBehavior::Value(ComValue::null()));
    rt.close_object(h);
    match rt.invoke(h, "Press", Vec::new()) {
        Err(InvocationError::HandleInvalid) => {},
        other => panic!("expected HandleInvalid, got {:?}", other),
    }
    match rt.resolve_member(h, "Press") {
        Err(InvocationError::HandleInvalid) => {},
        other => panic!("expected HandleInvalid, got {:?}", other),
    }
}

#[test]
fn stale_handle_is_invalid() {
    let mut rt = MockRuntime::new();
    let forged = ObjectHandle { id: 99 };
    match rt.get(forged, "Text") {
        Err(InvocationError::HandleInvalid) => {},
        other => panic!("expected HandleInvalid, got {:?}", other),
    }
}

#[test]
fn unknown_and_invalid_are_distinct() {
    let mut rt = MockRuntime::new();
    let live = rt.add_object();
    let dead = rt.add_object();
    rt.add_member(dead, "Press", MemberBehavior::Value(ComValue::null()));
    rt.close_object(dead);
    let a = rt.invoke(live, "Press", Vec::new());
    let b = rt.invoke(dead, "Press", Vec::new());
    assert!(matches!(a, Err(InvocationError::UnknownMember)));
    assert!(matches!(b, Err(InvocationError::HandleInvalid)));
}

#[test]
fn remote_failure_is_surfaced_verbatim() {
    let mut rt = MockRuntime::new();
    let h = rt.add_object();
    rt.add_member(
        h,
        "FindById",
        MemberBehavior::Fails(614, "The control could not be found by id.".to_owned()),
    );
    match rt.invoke(h, "FindById", vec![ComValue::from_str("wnd[9]")]) {
        Err(InvocationError::RemoteFailure { code, description }) => {
            assert_eq!(code, 614);
            assert_eq!(description, "The control could not be found by id.");
        },
        other => panic!("expected RemoteFailure, got {:?}", other),
    }
}

#[test]
fn get_returns_scripted_value() {
    let mut rt = MockRuntime::new();
    let h = rt.add_object();
    rt.add_member(h, "Height", MemberBehavior::Value(ComValue::from_i64(24)));
    let v = rt.get(h, "Height").unwrap();
    assert_eq!(v.to_i64(), Ok(24));
}

#[test]
fn set_replaces_value() {
    let mut rt = MockRuntime::new();
    let h = rt.add_object();
    rt.add_member(h, "Text", MemberBehavior::Value(ComValue::from_str("old")));
    rt.set(h, "Text", ComValue::from_str("new")).unwrap();
    let v = rt.get(h, "Text").unwrap();
    assert_eq!(v.to_string(), Ok("new".to_owned()));
}

#[test]
fn indexed_access() {
    let mut rt = MockRuntime::new();
    let parent = rt.add_object();
    let kid0 = rt.add_object();
    let kid1 = rt.add_object();
    rt.add_member(
        parent,
        "Children",
        MemberBehavior::Indexed(vec![
            ComValue::from_object(kid0),
            ComValue::from_object(kid1),
        ]),
    );
    let v = rt.get_indexed(parent, "Children", ComValue::from_i32(1)).unwrap();
    assert_eq!(v.to_object(), Ok(kid1));
    match rt.get_indexed(parent, "Children", ComValue::from_i32(2)) {
        Err(InvocationError::RemoteFailure { code, .. }) => assert_eq!(code, CODE_BAD_INDEX),
        other => panic!("expected RemoteFailure, got {:?}", other),
    }
    match rt.get_indexed(parent, "Children", ComValue::from_str("x")) {
        Err(InvocationError::RemoteFailure { code, .. }) => assert_eq!(code, CODE_BAD_INDEX),
        other => panic!("expected RemoteFailure, got {:?}", other),
    }
}

#[test]
fn set_indexed_replaces_one_element() {
    let mut rt = MockRuntime::new();
    let h = rt.add_object();
    rt.add_member(
        h,
        "Entries",
        MemberBehavior::Indexed(vec![ComValue::from_i32(10), ComValue::from_i32(20)]),
    );
    rt.set_indexed(h, "Entries", ComValue::from_i32(0), ComValue::from_i32(11)).unwrap();
    assert_eq!(
        rt.get_indexed(h, "Entries", ComValue::from_i32(0)).unwrap().to_i32(),
        Ok(11)
    );
    assert_eq!(
        rt.get_indexed(h, "Entries", ComValue::from_i32(1)).unwrap().to_i32(),
        Ok(20)
    );
}

#[test]
fn plain_get_of_indexed_member_fails() {
    let mut rt = MockRuntime::new();
    let h = rt.add_object();
    rt.add_member(h, "Children", MemberBehavior::Indexed(Vec::new()));
    match rt.get(h, "Children") {
        Err(InvocationError::RemoteFailure { code, .. }) => assert_eq!(code, CODE_NEEDS_INDEX),
        other => panic!("expected RemoteFailure, got {:?}", other),
    }
}

#[test]
fn transcript_records_issued_operations_in_order() {
    let mut rt = MockRuntime::new();
    let h = rt.add_object();
    rt.add_member(h, "Text", MemberBehavior::Value(ComValue::from_str("hi")));
    rt.get(h, "Text").unwrap();
    rt.set(h, "Text", ComValue::from_str("ho")).unwrap();
    rt.invoke(h, "Text", Vec::new()).unwrap();
    // a failed resolution issues nothing
    let _ = rt.get(h, "Missing");
    let log = rt.transcript();
    assert_eq!(log.len(), 3);
    assert_eq!(log[0].op, DispatchOp::PropertyGet);
    assert_eq!(log[0].member, "Text");
    assert!(log[0].args.is_empty());
    assert_eq!(log[1].op, DispatchOp::PropertyPut);
    assert_eq!(log[1].args.len(), 1);
    assert_eq!(log[2].op, DispatchOp::Method);
    assert_eq!(log[0].target, h);
}

#[test]
fn transcript_records_failed_remote_calls() {
    let mut rt = MockRuntime::new();
    let h = rt.add_object();
    rt.add_member(h, "Press", MemberBehavior::Fails(1, "no".to_owned()));
    let _ = rt.invoke(h, "Press", Vec::new());
    assert_eq!(rt.transcript().len(), 1);
}

#[test]
fn first_member_wins_resolution() {
    let mut rt = MockRuntime::new();
    let h = rt.add_object();
    rt.add_member(h, "Text", MemberBehavior::Value(ComValue::from_str("first")));
    rt.add_member(h, "Text", MemberBehavior::Value(ComValue::from_str("second")));
    assert_eq!(rt.get(h, "Text").unwrap().to_string(), Ok("first".to_owned()));
}
