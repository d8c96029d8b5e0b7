//! Runtime type discrimination: the static table, the generic fallback,
//! the two-step subtype resolution, and the downcasts.

use sap_scripting::component::{GuiGridView, GuiMainWindow, GuiSession, GuiShell, GuiTextField};
use sap_scripting::component::GuiButton;
use sap_scripting::{ComValue, MemberBehavior, MockRuntime, SAPComponent, GuiComponent};

fn object_with_tag(rt: &mut MockRuntime, tag: &str) -> sap_scripting::ObjectHandle {
    let h = rt.add_object();
    rt.add_member(h, "Type", MemberBehavior::Value(ComValue::from_str(tag)));
    h
}

#[test]
fn known_tags_resolve_to_their_wrappers() {
    let mut rt = MockRuntime::new();
    let b = object_with_tag(&mut rt, "GuiButton");
    let s = object_with_tag(&mut rt, "GuiSession");
    let w = object_with_tag(&mut rt, "GuiMainWindow");
    let t = object_with_tag(&mut rt, "GuiTextField");
    assert!(matches!(SAPComponent::from_handle(&mut rt, b), SAPComponent::GuiButton(_)));
    assert!(matches!(SAPComponent::from_handle(&mut rt, s), SAPComponent::GuiSession(_)));
    assert!(matches!(SAPComponent::from_handle(&mut rt, w), SAPComponent::GuiMainWindow(_)));
    assert!(matches!(SAPComponent::from_handle(&mut rt, t), SAPComponent::GuiTextField(_)));
}

#[test]
fn wrapped_handle_is_shared_not_copied() {
    let mut rt = MockRuntime::new();
    let b = object_with_tag(&mut rt, "GuiButton");
    let comp = SAPComponent::from_handle(&mut rt, b);
    assert_eq!(comp.handle(), b);
}

#[test]
fn unknown_tag_falls_back_to_generic() {
    let mut rt = MockRuntime::new();
    let h = object_with_tag(&mut rt, "GuiHologram");
    assert!(matches!(SAPComponent::from_handle(&mut rt, h), SAPComponent::GuiComponent(_)));
}

#[test]
fn missing_tag_falls_back_to_generic() {
    let mut rt = MockRuntime::new();
    let h = rt.add_object();
    assert!(matches!(SAPComponent::from_handle(&mut rt, h), SAPComponent::GuiComponent(_)));
}

#[test]
fn shell_subtype_resolves_two_step() {
    let mut rt = MockRuntime::new();
    let h = object_with_tag(&mut rt, "GuiShell");
    rt.add_member(h, "SubType", MemberBehavior::Value(ComValue::from_str("GridView")));
    let comp = SAPComponent::from_handle(&mut rt, h);
    assert!(matches!(comp, SAPComponent::GuiGridView(_)));
    assert!(!matches!(comp, SAPComponent::GuiShell(_)));
}

#[test]
fn shell_without_subtype_stays_shell() {
    let mut rt = MockRuntime::new();
    let h = object_with_tag(&mut rt, "GuiShell");
    assert!(matches!(SAPComponent::from_handle(&mut rt, h), SAPComponent::GuiShell(_)));
}

#[test]
fn shell_with_unknown_subtype_falls_back() {
    let mut rt = MockRuntime::new();
    let h = object_with_tag(&mut rt, "GuiShell");
    rt.add_member(h, "SubType", MemberBehavior::Value(ComValue::from_str("Hologram")));
    assert!(matches!(SAPComponent::from_handle(&mut rt, h), SAPComponent::GuiComponent(_)));
}

#[test]
fn non_shell_tag_skips_subtype_query() {
    let mut rt = MockRuntime::new();
    let h = object_with_tag(&mut rt, "GuiButton");
    rt.add_member(h, "SubType", MemberBehavior::Value(ComValue::from_str("GridView")));
    let _ = SAPComponent::from_handle(&mut rt, h);
    // only the primary tag read was issued
    assert_eq!(rt.transcript().len(), 1);
    assert_eq!(rt.transcript()[0].member, "Type");
}

#[test]
fn value_discriminates_object_references_only() {
    let mut rt = MockRuntime::new();
    let h = object_with_tag(&mut rt, "GuiButton");
    let v = ComValue::from_object(h);
    let comp = SAPComponent::from_value(&mut rt, &v).unwrap();
    assert!(matches!(comp, SAPComponent::GuiButton(_)));
    match SAPComponent::from_value(&mut rt, &ComValue::from_str("GuiButton")) {
        Err(sap_scripting::ConversionError::TypeMismatch) => {},
        Err(other) => panic!("expected TypeMismatch, got {:?}", other),
        Ok(_) => panic!("expected TypeMismatch, got a component"),
    }
}

#[test]
fn downcast_by_tag_matches() {
    let mut rt = MockRuntime::new();
    let h = object_with_tag(&mut rt, "GuiButton");
    let generic = GuiComponent { handle: h };
    let button: Option<GuiButton> = generic.downcast(&mut rt);
    assert!(button.is_some());
    assert_eq!(button.unwrap().handle, h);
}

#[test]
fn downcast_by_tag_rejects_other_tags() {
    let mut rt = MockRuntime::new();
    let h = object_with_tag(&mut rt, "GuiTextField");
    let generic = GuiComponent { handle: h };
    let button: Option<GuiButton> = generic.downcast(&mut rt);
    assert!(button.is_none());
    let field: Option<GuiTextField> = generic.downcast(&mut rt);
    assert!(field.is_some());
}

#[test]
fn downcast_by_tag_on_failed_query_is_none() {
    let mut rt = MockRuntime::new();
    let h = rt.add_object();
    let generic = GuiComponent { handle: h };
    let button: Option<GuiButton> = generic.downcast(&mut rt);
    assert!(button.is_none());
}

#[test]
fn downcast_by_tag_resolves_subtypes() {
    let mut rt = MockRuntime::new();
    let h = object_with_tag(&mut rt, "GuiShell");
    rt.add_member(h, "SubType", MemberBehavior::Value(ComValue::from_str("GridView")));
    let generic = GuiComponent { handle: h };
    let grid: Option<GuiGridView> = generic.downcast(&mut rt);
    assert!(grid.is_some());
    let shell: Option<GuiShell> = generic.downcast(&mut rt);
    assert!(shell.is_none());
}

#[test]
fn variant_downcast_matches_variant() {
    let mut rt = MockRuntime::new();
    let h = object_with_tag(&mut rt, "GuiMainWindow");
    let comp = SAPComponent::from_handle(&mut rt, h);
    let issued = rt.transcript().len();
    let w: Option<GuiMainWindow> = comp.downcast();
    assert!(w.is_some());
    // the variant test issues no remote operation
    assert_eq!(rt.transcript().len(), issued);
}

#[test]
fn variant_downcast_rejects_other_variants() {
    let mut rt = MockRuntime::new();
    let h = object_with_tag(&mut rt, "GuiMainWindow");
    let comp = SAPComponent::from_handle(&mut rt, h);
    let b: Option<GuiButton> = comp.downcast();
    assert!(b.is_none());
}
