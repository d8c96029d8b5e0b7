//! Runtime type discrimination and the typed wrapper catalog.
//!
//! A handle freshly returned by a find or element access has an unknown
//! concrete kind.  Discrimination queries its type tag (and, for the one
//! ambiguous generic-shell category, a secondary subtype tag), then matches
//! the resolved tag against the static table mapping tags to concrete
//! wrappers.  An unrecognized tag degrades to the generic wrapper rather
//! than failing: newer object-model revisions are expected to expose tags
//! this table does not know.  Tag comparison is exact; no normalization.
//!
//! Every wrapper is a thin view over a shared handle: constructing one
//! copies no remote state, and its capability traits are the statically
//! advertised subset of what the remote object supports.  Kinds whose
//! tag carries no prefix extend the generic shell and are keyed by their
//! subtype tag.

use vstd::prelude::*;

use crate::codec::str_eq;
use crate::runtime::{
    log_after, spec_invoke, CallView, DispatchOp, MockRuntime, RuntimeView,
};
use crate::traits::{
    str_get_result, GuiBoxMethods, GuiComponentMethods, GuiContainerMethods,
    GuiFrameWindowMethods, GuiTextFieldMethods, GuiVComponentMethods, GuiVContainerMethods,
    HasDispatch,
};
use crate::value::{
    ComValue, ConversionError, InvocationError, InvokeErrView, ObjectHandle, ValueView,
};

verus! {

/// The ambiguous primary tag that requires the secondary subtype query.
pub open spec fn shell_tag() -> Seq<char> {
    "GuiShell"@
}

/// The tag of the generic fallback wrapper.
pub open spec fn fallback_tag() -> Seq<char> {
    "GuiComponent"@
}

/// A runtime copied except for its transcript.
pub open spec fn with_log(rt: RuntimeView, l: Seq<CallView>) -> RuntimeView {
    RuntimeView { objects: rt.objects, log: l, rot_wrapper: rt.rot_wrapper }
}

/// The tag that discrimination resolves for `h`: the primary type tag,
/// overridden by the secondary subtype tag when the primary tag is the
/// generic-shell sentinel and the secondary query succeeds.  A failed
/// primary query resolves to the fallback tag.
pub open spec fn discriminate_tag(rt: RuntimeView, h: ObjectHandle) -> Seq<char> {
    match str_get_result(rt, h, "Type"@) {
        Err(_) => fallback_tag(),
        Ok(t) => if t == shell_tag() {
            match str_get_result(rt, h, "SubType"@) {
                Err(_) => t,
                Ok(st) => st,
            }
        } else {
            t
        },
    }
}

/// The transcript after discrimination: the primary tag read, then the
/// secondary read exactly when the primary tag resolved to the sentinel.
pub open spec fn discriminate_log(rt: RuntimeView, h: ObjectHandle) -> Seq<CallView> {
    let l1 = log_after(rt, h, DispatchOp::PropertyGet, "Type"@, Seq::<ValueView>::empty());
    match str_get_result(rt, h, "Type"@) {
        Err(_) => l1,
        Ok(t) => if t == shell_tag() {
            log_after(with_log(rt, l1), h, DispatchOp::PropertyGet, "SubType"@, Seq::<
                ValueView,
            >::empty())
        } else {
            l1
        },
    }
}

/// The concrete kinds the static table knows, plus the generic fallback.
#[derive(PartialEq, Eq, Structural)]
pub ghost enum ComponentKind {
    GuiApplication,
    GuiBarChart,
    GuiBox,
    GuiButton,
    GuiCalendar,
    GuiChart,
    GuiCheckBox,
    GuiColorSelector,
    GuiComboBox,
    GuiComboBoxControl,
    GuiComboBoxEntry,
    GuiComponent,
    GuiConnection,
    GuiContainer,
    GuiContainerShell,
    GuiCTextField,
    GuiCustomControl,
    GuiDialogShell,
    GuiEAIViewer2D,
    GuiEAIViewer3D,
    GuiFrameWindow,
    GuiGOSShell,
    GuiGraphAdapt,
    GuiGridView,
    GuiHTMLViewer,
    GuiInputFieldControl,
    GuiLabel,
    GuiMainWindow,
    GuiMap,
    GuiMenu,
    GuiMenubar,
    GuiModalWindow,
    GuiNetChart,
    GuiOfficeIntegration,
    GuiOkCodeField,
    GuiPasswordField,
    GuiPicture,
    GuiRadioButton,
    GuiSapChart,
    GuiScrollbar,
    GuiScrollContainer,
    GuiSession,
    GuiShell,
    GuiSimpleContainer,
    GuiSplit,
    GuiSplitterContainer,
    GuiStage,
    GuiStatusbar,
    GuiStatusPane,
    GuiTab,
    GuiTableControl,
    GuiTabStrip,
    GuiTextedit,
    GuiTextField,
    GuiTitlebar,
    GuiToolbar,
    GuiTree,
    GuiUserArea,
    GuiVComponent,
    GuiVContainer,
    GuiVHViewSwitch,
}

/// The tag string of each kind: the key under which the static table
/// reaches it.  Kinds that extend the generic shell are keyed by their
/// subtype tag, which carries no prefix.
pub open spec fn tag_of_kind(k: ComponentKind) -> Seq<char> {
    match k {
        ComponentKind::GuiApplication => "GuiApplication"@,
        ComponentKind::GuiBarChart => "BarChart"@,
        ComponentKind::GuiBox => "GuiBox"@,
        ComponentKind::GuiButton => "GuiButton"@,
        ComponentKind::GuiCalendar => "Calendar"@,
        ComponentKind::GuiChart => "Chart"@,
        ComponentKind::GuiCheckBox => "GuiCheckBox"@,
        ComponentKind::GuiColorSelector => "ColorSelector"@,
        ComponentKind::GuiComboBox => "GuiComboBox"@,
        ComponentKind::GuiComboBoxControl => "ComboBoxControl"@,
        ComponentKind::GuiComboBoxEntry => "GuiComboBoxEntry"@,
        ComponentKind::GuiComponent => "GuiComponent"@,
        ComponentKind::GuiConnection => "GuiConnection"@,
        ComponentKind::GuiContainer => "GuiContainer"@,
        ComponentKind::GuiContainerShell => "ContainerShell"@,
        ComponentKind::GuiCTextField => "GuiCTextField"@,
        ComponentKind::GuiCustomControl => "GuiCustomControl"@,
        ComponentKind::GuiDialogShell => "GuiDialogShell"@,
        ComponentKind::GuiEAIViewer2D => "EAIViewer2D"@,
        ComponentKind::GuiEAIViewer3D => "EAIViewer3D"@,
        ComponentKind::GuiFrameWindow => "GuiFrameWindow"@,
        ComponentKind::GuiGOSShell => "GuiGOSShell"@,
        ComponentKind::GuiGraphAdapt => "GraphAdapt"@,
        ComponentKind::GuiGridView => "GridView"@,
        ComponentKind::GuiHTMLViewer => "HTMLViewer"@,
        ComponentKind::GuiInputFieldControl => "InputFieldControl"@,
        ComponentKind::GuiLabel => "GuiLabel"@,
        ComponentKind::GuiMainWindow => "GuiMainWindow"@,
        ComponentKind::GuiMap => "Map"@,
        ComponentKind::GuiMenu => "GuiMenu"@,
        ComponentKind::GuiMenubar => "GuiMenubar"@,
        ComponentKind::GuiModalWindow => "GuiModalWindow"@,
        ComponentKind::GuiNetChart => "NetChart"@,
        ComponentKind::GuiOfficeIntegration => "OfficeIntegration"@,
        ComponentKind::GuiOkCodeField => "GuiOkCodeField"@,
        ComponentKind::GuiPasswordField => "GuiPasswordField"@,
        ComponentKind::GuiPicture => "Picture"@,
        ComponentKind::GuiRadioButton => "GuiRadioButton"@,
        ComponentKind::GuiSapChart => "SapChart"@,
        ComponentKind::GuiScrollbar => "GuiScrollbar"@,
        ComponentKind::GuiScrollContainer => "GuiScrollContainer"@,
        ComponentKind::GuiSession => "GuiSession"@,
        ComponentKind::GuiShell => "GuiShell"@,
        ComponentKind::GuiSimpleContainer => "GuiSimpleContainer"@,
        ComponentKind::GuiSplit => "Split"@,
        ComponentKind::GuiSplitterContainer => "SplitterContainer"@,
        ComponentKind::GuiStage => "Stage"@,
        ComponentKind::GuiStatusbar => "GuiStatusbar"@,
        ComponentKind::GuiStatusPane => "GuiStatusPane"@,
        ComponentKind::GuiTab => "GuiTab"@,
        ComponentKind::GuiTableControl => "GuiTableControl"@,
        ComponentKind::GuiTabStrip => "GuiTabStrip"@,
        ComponentKind::GuiTextedit => "Textedit"@,
        ComponentKind::GuiTextField => "GuiTextField"@,
        ComponentKind::GuiTitlebar => "GuiTitlebar"@,
        ComponentKind::GuiToolbar => "GuiToolbar"@,
        ComponentKind::GuiTree => "Tree"@,
        ComponentKind::GuiUserArea => "GuiUserArea"@,
        ComponentKind::GuiVComponent => "GuiVComponent"@,
        ComponentKind::GuiVContainer => "GuiVContainer"@,
        ComponentKind::GuiVHViewSwitch => "GuiVHViewSwitch"@,
    }
}

/// The static table: which kind a resolved tag constructs.  An unknown
/// tag falls back to the generic component kind.
pub open spec fn table_kind(t: Seq<char>) -> ComponentKind {
    if t == "GuiComponent"@ {
        ComponentKind::GuiComponent
    } else if t == "GridView"@ {
        ComponentKind::GuiGridView
    } else if t == "GuiApplication"@ {
        ComponentKind::GuiApplication
    } else if t == "BarChart"@ {
        ComponentKind::GuiBarChart
    } else if t == "GuiBox"@ {
        ComponentKind::GuiBox
    } else if t == "GuiButton"@ {
        ComponentKind::GuiButton
    } else if t == "Calendar"@ {
        ComponentKind::GuiCalendar
    } else if t == "Chart"@ {
        ComponentKind::GuiChart
    } else if t == "GuiCheckBox"@ {
        ComponentKind::GuiCheckBox
    } else if t == "ColorSelector"@ {
        ComponentKind::GuiColorSelector
    } else if t == "GuiComboBox"@ {
        ComponentKind::GuiComboBox
    } else if t == "ComboBoxControl"@ {
        ComponentKind::GuiComboBoxControl
    } else if t == "GuiComboBoxEntry"@ {
        ComponentKind::GuiComboBoxEntry
    } else if t == "GuiConnection"@ {
        ComponentKind::GuiConnection
    } else if t == "GuiContainer"@ {
        ComponentKind::GuiContainer
    } else if t == "ContainerShell"@ {
        ComponentKind::GuiContainerShell
    } else if t == "GuiCTextField"@ {
        ComponentKind::GuiCTextField
    } else if t == "GuiCustomControl"@ {
        ComponentKind::GuiCustomControl
    } else if t == "GuiDialogShell"@ {
        ComponentKind::GuiDialogShell
    } else if t == "EAIViewer2D"@ {
        ComponentKind::GuiEAIViewer2D
    } else if t == "EAIViewer3D"@ {
        ComponentKind::GuiEAIViewer3D
    } else if t == "GuiFrameWindow"@ {
        ComponentKind::GuiFrameWindow
    } else if t == "GuiGOSShell"@ {
        ComponentKind::GuiGOSShell
    } else if t == "GraphAdapt"@ {
        ComponentKind::GuiGraphAdapt
    } else if t == "HTMLViewer"@ {
        ComponentKind::GuiHTMLViewer
    } else if t == "InputFieldControl"@ {
        ComponentKind::GuiInputFieldControl
    } else if t == "GuiLabel"@ {
        ComponentKind::GuiLabel
    } else if t == "GuiMainWindow"@ {
        ComponentKind::GuiMainWindow
    } else if t == "Map"@ {
        ComponentKind::GuiMap
    } else if t == "GuiMenu"@ {
        ComponentKind::GuiMenu
    } else if t == "GuiMenubar"@ {
        ComponentKind::GuiMenubar
    } else if t == "GuiModalWindow"@ {
        ComponentKind::GuiModalWindow
    } else if t == "NetChart"@ {
        ComponentKind::GuiNetChart
    } else if t == "OfficeIntegration"@ {
        ComponentKind::GuiOfficeIntegration
    } else if t == "GuiOkCodeField"@ {
        ComponentKind::GuiOkCodeField
    } else if t == "GuiPasswordField"@ {
        ComponentKind::GuiPasswordField
    } else if t == "Picture"@ {
        ComponentKind::GuiPicture
    } else if t == "GuiRadioButton"@ {
        ComponentKind::GuiRadioButton
    } else if t == "SapChart"@ {
        ComponentKind::GuiSapChart
    } else if t == "GuiScrollbar"@ {
        ComponentKind::GuiScrollbar
    } else if t == "GuiScrollContainer"@ {
        ComponentKind::GuiScrollContainer
    } else if t == "GuiSession"@ {
        ComponentKind::GuiSession
    } else if t == "GuiShell"@ {
        ComponentKind::GuiShell
    } else if t == "GuiSimpleContainer"@ {
        ComponentKind::GuiSimpleContainer
    } else if t == "Split"@ {
        ComponentKind::GuiSplit
    } else if t == "SplitterContainer"@ {
        ComponentKind::GuiSplitterContainer
    } else if t == "Stage"@ {
        ComponentKind::GuiStage
    } else if t == "GuiStatusbar"@ {
        ComponentKind::GuiStatusbar
    } else if t == "GuiStatusPane"@ {
        ComponentKind::GuiStatusPane
    } else if t == "GuiTab"@ {
        ComponentKind::GuiTab
    } else if t == "GuiTableControl"@ {
        ComponentKind::GuiTableControl
    } else if t == "GuiTabStrip"@ {
        ComponentKind::GuiTabStrip
    } else if t == "Textedit"@ {
        ComponentKind::GuiTextedit
    } else if t == "GuiTextField"@ {
        ComponentKind::GuiTextField
    } else if t == "GuiTitlebar"@ {
        ComponentKind::GuiTitlebar
    } else if t == "GuiToolbar"@ {
        ComponentKind::GuiToolbar
    } else if t == "Tree"@ {
        ComponentKind::GuiTree
    } else if t == "GuiUserArea"@ {
        ComponentKind::GuiUserArea
    } else if t == "GuiVComponent"@ {
        ComponentKind::GuiVComponent
    } else if t == "GuiVContainer"@ {
        ComponentKind::GuiVContainer
    } else if t == "GuiVHViewSwitch"@ {
        ComponentKind::GuiVHViewSwitch
    } else {
        ComponentKind::GuiComponent
    }
}

/// Does the static table know tag `t`?
pub open spec fn is_known_tag(t: Seq<char>) -> bool {
    table_kind(t) != ComponentKind::GuiComponent || t == fallback_tag()
}

/// A member of the wrapper catalog: a concrete type discrimination can
/// construct and downcasts can test for.
pub trait SapObject: HasDispatch {
    /// The kind this type stands for.
    spec fn kind_spec() -> ComponentKind;

    /// The tag string of this type, as the table keys it.
    spec fn tag_spec() -> Seq<char>;

    /// The tag and the kind name the same table entry.
    proof fn tag_coherent()
        ensures
            Self::tag_spec() == tag_of_kind(Self::kind_spec()),
    ;

    /// The tag a handle must resolve to for a downcast to this type.
    fn expected_tag() -> (t: &'static str)
        ensures
            t@ == Self::tag_spec(),
    ;

    /// Wrap a handle without any remote query.
    fn wrap(h: ObjectHandle) -> (r: Self)
        ensures
            r.handle_spec() == h,
    ;

    /// Recover this concrete type from the discriminated union: the
    /// variant test, without any remote query.
    fn from_component(c: SAPComponent) -> (r: Option<Self>)
        ensures
            match r {
                Some(x) => component_kind(c) == Self::kind_spec() && x.handle_spec()
                    == component_handle(c),
                None => component_kind(c) != Self::kind_spec(),
            },
    ;
}

/// The root object of the scripting engine: the process in which all scripting activity takes place.
pub struct GuiApplication {
    pub handle: ObjectHandle,
}

impl HasDispatch for GuiApplication {
    open spec fn handle_spec(&self) -> ObjectHandle {
        self.handle
    }

    fn dispatch_handle(&self) -> ObjectHandle {
        self.handle
    }
}

impl SapObject for GuiApplication {
    open spec fn kind_spec() -> ComponentKind {
        ComponentKind::GuiApplication
    }

    open spec fn tag_spec() -> Seq<char> {
        "GuiApplication"@
    }

    proof fn tag_coherent() {
    }

    fn expected_tag() -> &'static str {
        "GuiApplication"
    }

    fn wrap(h: ObjectHandle) -> Self {
        GuiApplication { handle: h }
    }

    fn from_component(c: SAPComponent) -> Option<Self> {
        match c {
            SAPComponent::GuiApplication(x) => Some(x),
            _ => None,
        }
    }
}

impl GuiComponentMethods for GuiApplication {

}

impl GuiContainerMethods for GuiApplication {

}

/// The bar chart control for time-scale diagrams.
pub struct GuiBarChart {
    pub handle: ObjectHandle,
}

impl HasDispatch for GuiBarChart {
    open spec fn handle_spec(&self) -> ObjectHandle {
        self.handle
    }

    fn dispatch_handle(&self) -> ObjectHandle {
        self.handle
    }
}

impl SapObject for GuiBarChart {
    open spec fn kind_spec() -> ComponentKind {
        ComponentKind::GuiBarChart
    }

    open spec fn tag_spec() -> Seq<char> {
        "BarChart"@
    }

    proof fn tag_coherent() {
    }

    fn expected_tag() -> &'static str {
        "BarChart"
    }

    fn wrap(h: ObjectHandle) -> Self {
        GuiBarChart { handle: h }
    }

    fn from_component(c: SAPComponent) -> Option<Self> {
        match c {
            SAPComponent::GuiBarChart(x) => Some(x),
            _ => None,
        }
    }
}

impl GuiComponentMethods for GuiBarChart {

}

impl GuiVComponentMethods for GuiBarChart {

}

impl GuiContainerMethods for GuiBarChart {

}

impl GuiVContainerMethods for GuiBarChart {

}

/// A simple named frame (group box); the items inside are not its children.
pub struct GuiBox {
    pub handle: ObjectHandle,
}

impl HasDispatch for GuiBox {
    open spec fn handle_spec(&self) -> ObjectHandle {
        self.handle
    }

    fn dispatch_handle(&self) -> ObjectHandle {
        self.handle
    }
}

impl SapObject for GuiBox {
    open spec fn kind_spec() -> ComponentKind {
        ComponentKind::GuiBox
    }

    open spec fn tag_spec() -> Seq<char> {
        "GuiBox"@
    }

    proof fn tag_coherent() {
    }

    fn expected_tag() -> &'static str {
        "GuiBox"
    }

    fn wrap(h: ObjectHandle) -> Self {
        GuiBox { handle: h }
    }

    fn from_component(c: SAPComponent) -> Option<Self> {
        match c {
            SAPComponent::GuiBox(x) => Some(x),
            _ => None,
        }
    }
}

impl GuiComponentMethods for GuiBox {

}

impl GuiVComponentMethods for GuiBox {

}

impl GuiBoxMethods for GuiBox {

}

/// A push button on a dynpro, a toolbar or a table control.
pub struct GuiButton {
    pub handle: ObjectHandle,
}

impl HasDispatch for GuiButton {
    open spec fn handle_spec(&self) -> ObjectHandle {
        self.handle
    }

    fn dispatch_handle(&self) -> ObjectHandle {
        self.handle
    }
}

impl SapObject for GuiButton {
    open spec fn kind_spec() -> ComponentKind {
        ComponentKind::GuiButton
    }

    open spec fn tag_spec() -> Seq<char> {
        "GuiButton"@
    }

    proof fn tag_coherent() {
    }

    fn expected_tag() -> &'static str {
        "GuiButton"
    }

    fn wrap(h: ObjectHandle) -> Self {
        GuiButton { handle: h }
    }

    fn from_component(c: SAPComponent) -> Option<Self> {
        match c {
            SAPComponent::GuiButton(x) => Some(x),
            _ => None,
        }
    }
}

impl GuiComponentMethods for GuiButton {

}

impl GuiVComponentMethods for GuiButton {

}

/// The calendar control for selecting dates or periods.
pub struct GuiCalendar {
    pub handle: ObjectHandle,
}

impl HasDispatch for GuiCalendar {
    open spec fn handle_spec(&self) -> ObjectHandle {
        self.handle
    }

    fn dispatch_handle(&self) -> ObjectHandle {
        self.handle
    }
}

impl SapObject for GuiCalendar {
    open spec fn kind_spec() -> ComponentKind {
        ComponentKind::GuiCalendar
    }

    open spec fn tag_spec() -> Seq<char> {
        "Calendar"@
    }

    proof fn tag_coherent() {
    }

    fn expected_tag() -> &'static str {
        "Calendar"
    }

    fn wrap(h: ObjectHandle) -> Self {
        GuiCalendar { handle: h }
    }

    fn from_component(c: SAPComponent) -> Option<Self> {
        match c {
            SAPComponent::GuiCalendar(x) => Some(x),
            _ => None,
        }
    }
}

impl GuiComponentMethods for GuiCalendar {

}

impl GuiVComponentMethods for GuiCalendar {

}

impl GuiContainerMethods for GuiCalendar {

}

impl GuiVContainerMethods for GuiCalendar {

}

/// The chart control, mainly of use to recording and playback.
pub struct GuiChart {
    pub handle: ObjectHandle,
}

impl HasDispatch for GuiChart {
    open spec fn handle_spec(&self) -> ObjectHandle {
        self.handle
    }

    fn dispatch_handle(&self) -> ObjectHandle {
        self.handle
    }
}

impl SapObject for GuiChart {
    open spec fn kind_spec() -> ComponentKind {
        ComponentKind::GuiChart
    }

    open spec fn tag_spec() -> Seq<char> {
        "Chart"@
    }

    proof fn tag_coherent() {
    }

    fn expected_tag() -> &'static str {
        "Chart"
    }

    fn wrap(h: ObjectHandle) -> Self {
        GuiChart { handle: h }
    }

    fn from_component(c: SAPComponent) -> Option<Self> {
        match c {
            SAPComponent::GuiChart(x) => Some(x),
            _ => None,
        }
    }
}

impl GuiComponentMethods for GuiChart {

}

impl GuiVComponentMethods for GuiChart {

}

impl GuiContainerMethods for GuiChart {

}

impl GuiVContainerMethods for GuiChart {

}

/// A checkbox.
pub struct GuiCheckBox {
    pub handle: ObjectHandle,
}

impl HasDispatch for GuiCheckBox {
    open spec fn handle_spec(&self) -> ObjectHandle {
        self.handle
    }

    fn dispatch_handle(&self) -> ObjectHandle {
        self.handle
    }
}

impl SapObject for GuiCheckBox {
    open spec fn kind_spec() -> ComponentKind {
        ComponentKind::GuiCheckBox
    }

    open spec fn tag_spec() -> Seq<char> {
        "GuiCheckBox"@
    }

    proof fn tag_coherent() {
    }

    fn expected_tag() -> &'static str {
        "GuiCheckBox"
    }

    fn wrap(h: ObjectHandle) -> Self {
        GuiCheckBox { handle: h }
    }

    fn from_component(c: SAPComponent) -> Option<Self> {
        match c {
            SAPComponent::GuiCheckBox(x) => Some(x),
            _ => None,
        }
    }
}

impl GuiComponentMethods for GuiCheckBox {

}

impl GuiVComponentMethods for GuiCheckBox {

}

/// A set of colors offered for selection.
pub struct GuiColorSelector {
    pub handle: ObjectHandle,
}

impl HasDispatch for GuiColorSelector {
    open spec fn handle_spec(&self) -> ObjectHandle {
        self.handle
    }

    fn dispatch_handle(&self) -> ObjectHandle {
        self.handle
    }
}

impl SapObject for GuiColorSelector {
    open spec fn kind_spec() -> ComponentKind {
        ComponentKind::GuiColorSelector
    }

    open spec fn tag_spec() -> Seq<char> {
        "ColorSelector"@
    }

    proof fn tag_coherent() {
    }

    fn expected_tag() -> &'static str {
        "ColorSelector"
    }

    fn wrap(h: ObjectHandle) -> Self {
        GuiColorSelector { handle: h }
    }

    fn from_component(c: SAPComponent) -> Option<Self> {
        match c {
            SAPComponent::GuiColorSelector(x) => Some(x),
            _ => None,
        }
    }
}

impl GuiComponentMethods for GuiColorSelector {

}

impl GuiVComponentMethods for GuiColorSelector {

}

impl GuiContainerMethods for GuiColorSelector {

}

impl GuiVContainerMethods for GuiColorSelector {

}

/// A combo box whose entries are retrieved from the server on initialization.
pub struct GuiComboBox {
    pub handle: ObjectHandle,
}

impl HasDispatch for GuiComboBox {
    open spec fn handle_spec(&self) -> ObjectHandle {
        self.handle
    }

    fn dispatch_handle(&self) -> ObjectHandle {
        self.handle
    }
}

impl SapObject for GuiComboBox {
    open spec fn kind_spec() -> ComponentKind {
        ComponentKind::GuiComboBox
    }

    open spec fn tag_spec() -> Seq<char> {
        "GuiComboBox"@
    }

    proof fn tag_coherent() {
    }

    fn expected_tag() -> &'static str {
        "GuiComboBox"
    }

    fn wrap(h: ObjectHandle) -> Self {
        GuiComboBox { handle: h }
    }

    fn from_component(c: SAPComponent) -> Option<Self> {
        match c {
            SAPComponent::GuiComboBox(x) => Some(x),
            _ => None,
        }
    }
}

impl GuiComponentMethods for GuiComboBox {

}

impl GuiVComponentMethods for GuiComboBox {

}

/// The combo box control hosted in a shell.
pub struct GuiComboBoxControl {
    pub handle: ObjectHandle,
}

impl HasDispatch for GuiComboBoxControl {
    open spec fn handle_spec(&self) -> ObjectHandle {
        self.handle
    }

    fn dispatch_handle(&self) -> ObjectHandle {
        self.handle
    }
}

impl SapObject for GuiComboBoxControl {
    open spec fn kind_spec() -> ComponentKind {
        ComponentKind::GuiComboBoxControl
    }

    open spec fn tag_spec() -> Seq<char> {
        "ComboBoxControl"@
    }

    proof fn tag_coherent() {
    }

    fn expected_tag() -> &'static str {
        "ComboBoxControl"
    }

    fn wrap(h: ObjectHandle) -> Self {
        GuiComboBoxControl { handle: h }
    }

    fn from_component(c: SAPComponent) -> Option<Self> {
        match c {
            SAPComponent::GuiComboBoxControl(x) => Some(x),
            _ => None,
        }
    }
}

impl GuiComponentMethods for GuiComboBoxControl {

}

impl GuiVComponentMethods for GuiComboBoxControl {

}

impl GuiContainerMethods for GuiComboBoxControl {

}

impl GuiVContainerMethods for GuiComboBoxControl {

}

/// One entry of a combo box's entry collection.
pub struct GuiComboBoxEntry {
    pub handle: ObjectHandle,
}

impl HasDispatch for GuiComboBoxEntry {
    open spec fn handle_spec(&self) -> ObjectHandle {
        self.handle
    }

    fn dispatch_handle(&self) -> ObjectHandle {
        self.handle
    }
}

impl SapObject for GuiComboBoxEntry {
    open spec fn kind_spec() -> ComponentKind {
        ComponentKind::GuiComboBoxEntry
    }

    open spec fn tag_spec() -> Seq<char> {
        "GuiComboBoxEntry"@
    }

    proof fn tag_coherent() {
    }

    fn expected_tag() -> &'static str {
        "GuiComboBoxEntry"
    }

    fn wrap(h: ObjectHandle) -> Self {
        GuiComboBoxEntry { handle: h }
    }

    fn from_component(c: SAPComponent) -> Option<Self> {
        match c {
            SAPComponent::GuiComboBoxEntry(x) => Some(x),
            _ => None,
        }
    }
}

/// The generic component wrapper: the base facet every remote object
/// exposes, and the fallback of discrimination.
pub struct GuiComponent {
    pub handle: ObjectHandle,
}

impl HasDispatch for GuiComponent {
    open spec fn handle_spec(&self) -> ObjectHandle {
        self.handle
    }

    fn dispatch_handle(&self) -> ObjectHandle {
        self.handle
    }
}

impl SapObject for GuiComponent {
    open spec fn kind_spec() -> ComponentKind {
        ComponentKind::GuiComponent
    }

    open spec fn tag_spec() -> Seq<char> {
        "GuiComponent"@
    }

    proof fn tag_coherent() {
    }

    fn expected_tag() -> &'static str {
        "GuiComponent"
    }

    fn wrap(h: ObjectHandle) -> Self {
        GuiComponent { handle: h }
    }

    fn from_component(c: SAPComponent) -> Option<Self> {
        match c {
            SAPComponent::GuiComponent(x) => Some(x),
            _ => None,
        }
    }
}

impl GuiComponentMethods for GuiComponent {

}

/// A connection between the scripting client and an application server.
pub struct GuiConnection {
    pub handle: ObjectHandle,
}

impl HasDispatch for GuiConnection {
    open spec fn handle_spec(&self) -> ObjectHandle {
        self.handle
    }

    fn dispatch_handle(&self) -> ObjectHandle {
        self.handle
    }
}

impl SapObject for GuiConnection {
    open spec fn kind_spec() -> ComponentKind {
        ComponentKind::GuiConnection
    }

    open spec fn tag_spec() -> Seq<char> {
        "GuiConnection"@
    }

    proof fn tag_coherent() {
    }

    fn expected_tag() -> &'static str {
        "GuiConnection"
    }

    fn wrap(h: ObjectHandle) -> Self {
        GuiConnection { handle: h }
    }

    fn from_component(c: SAPComponent) -> Option<Self> {
        match c {
            SAPComponent::GuiConnection(x) => Some(x),
            _ => None,
        }
    }
}

impl GuiComponentMethods for GuiConnection {

}

impl GuiContainerMethods for GuiConnection {

}

/// An administrative container, such as a connection or a session, that is not itself visual.
pub struct GuiContainer {
    pub handle: ObjectHandle,
}

impl HasDispatch for GuiContainer {
    open spec fn handle_spec(&self) -> ObjectHandle {
        self.handle
    }

    fn dispatch_handle(&self) -> ObjectHandle {
        self.handle
    }
}

impl SapObject for GuiContainer {
    open spec fn kind_spec() -> ComponentKind {
        ComponentKind::GuiContainer
    }

    open spec fn tag_spec() -> Seq<char> {
        "GuiContainer"@
    }

    proof fn tag_coherent() {
    }

    fn expected_tag() -> &'static str {
        "GuiContainer"
    }

    fn wrap(h: ObjectHandle) -> Self {
        GuiContainer { handle: h }
    }

    fn from_component(c: SAPComponent) -> Option<Self> {
        match c {
            SAPComponent::GuiContainer(x) => Some(x),
            _ => None,
        }
    }
}

impl GuiComponentMethods for GuiContainer {

}

impl GuiContainerMethods for GuiContainer {

}

/// A wrapper around a set of shells.
pub struct GuiContainerShell {
    pub handle: ObjectHandle,
}

impl HasDispatch for GuiContainerShell {
    open spec fn handle_spec(&self) -> ObjectHandle {
        self.handle
    }

    fn dispatch_handle(&self) -> ObjectHandle {
        self.handle
    }
}

impl SapObject for GuiContainerShell {
    open spec fn kind_spec() -> ComponentKind {
        ComponentKind::GuiContainerShell
    }

    open spec fn tag_spec() -> Seq<char> {
        "ContainerShell"@
    }

    proof fn tag_coherent() {
    }

    fn expected_tag() -> &'static str {
        "ContainerShell"
    }

    fn wrap(h: ObjectHandle) -> Self {
        GuiContainerShell { handle: h }
    }

    fn from_component(c: SAPComponent) -> Option<Self> {
        match c {
            SAPComponent::GuiContainerShell(x) => Some(x),
            _ => None,
        }
    }
}

impl GuiComponentMethods for GuiContainerShell {

}

impl GuiVComponentMethods for GuiContainerShell {

}

impl GuiContainerMethods for GuiContainerShell {

}

impl GuiVContainerMethods for GuiContainerShell {

}

/// A text field with an attached combo box button; otherwise a plain text field.
pub struct GuiCTextField {
    pub handle: ObjectHandle,
}

impl HasDispatch for GuiCTextField {
    open spec fn handle_spec(&self) -> ObjectHandle {
        self.handle
    }

    fn dispatch_handle(&self) -> ObjectHandle {
        self.handle
    }
}

impl SapObject for GuiCTextField {
    open spec fn kind_spec() -> ComponentKind {
        ComponentKind::GuiCTextField
    }

    open spec fn tag_spec() -> Seq<char> {
        "GuiCTextField"@
    }

    proof fn tag_coherent() {
    }

    fn expected_tag() -> &'static str {
        "GuiCTextField"
    }

    fn wrap(h: ObjectHandle) -> Self {
        GuiCTextField { handle: h }
    }

    fn from_component(c: SAPComponent) -> Option<Self> {
        match c {
            SAPComponent::GuiCTextField(x) => Some(x),
            _ => None,
        }
    }
}

impl GuiComponentMethods for GuiCTextField {

}

impl GuiVComponentMethods for GuiCTextField {

}

impl GuiTextFieldMethods for GuiCTextField {

}

/// A wrapper element that places controls onto dynpro screens.
pub struct GuiCustomControl {
    pub handle: ObjectHandle,
}

impl HasDispatch for GuiCustomControl {
    open spec fn handle_spec(&self) -> ObjectHandle {
        self.handle
    }

    fn dispatch_handle(&self) -> ObjectHandle {
        self.handle
    }
}

impl SapObject for GuiCustomControl {
    open spec fn kind_spec() -> ComponentKind {
        ComponentKind::GuiCustomControl
    }

    open spec fn tag_spec() -> Seq<char> {
        "GuiCustomControl"@
    }

    proof fn tag_coherent() {
    }

    fn expected_tag() -> &'static str {
        "GuiCustomControl"
    }

    fn wrap(h: ObjectHandle) -> Self {
        GuiCustomControl { handle: h }
    }

    fn from_component(c: SAPComponent) -> Option<Self> {
        match c {
            SAPComponent::GuiCustomControl(x) => Some(x),
            _ => None,
        }
    }
}

impl GuiComponentMethods for GuiCustomControl {

}

impl GuiVComponentMethods for GuiCustomControl {

}

impl GuiContainerMethods for GuiCustomControl {

}

impl GuiVContainerMethods for GuiCustomControl {

}

/// An external window used as a container for other shells.
pub struct GuiDialogShell {
    pub handle: ObjectHandle,
}

impl HasDispatch for GuiDialogShell {
    open spec fn handle_spec(&self) -> ObjectHandle {
        self.handle
    }

    fn dispatch_handle(&self) -> ObjectHandle {
        self.handle
    }
}

impl SapObject for GuiDialogShell {
    open spec fn kind_spec() -> ComponentKind {
        ComponentKind::GuiDialogShell
    }

    open spec fn tag_spec() -> Seq<char> {
        "GuiDialogShell"@
    }

    proof fn tag_coherent() {
    }

    fn expected_tag() -> &'static str {
        "GuiDialogShell"
    }

    fn wrap(h: ObjectHandle) -> Self {
        GuiDialogShell { handle: h }
    }

    fn from_component(c: SAPComponent) -> Option<Self> {
        match c {
            SAPComponent::GuiDialogShell(x) => Some(x),
            _ => None,
        }
    }
}

impl GuiComponentMethods for GuiDialogShell {

}

impl GuiVComponentMethods for GuiDialogShell {

}

impl GuiContainerMethods for GuiDialogShell {

}

impl GuiVContainerMethods for GuiDialogShell {

}

/// The viewer for two-dimensional graphic images with redlining.
pub struct GuiEAIViewer2D {
    pub handle: ObjectHandle,
}

impl HasDispatch for GuiEAIViewer2D {
    open spec fn handle_spec(&self) -> ObjectHandle {
        self.handle
    }

    fn dispatch_handle(&self) -> ObjectHandle {
        self.handle
    }
}

impl SapObject for GuiEAIViewer2D {
    open spec fn kind_spec() -> ComponentKind {
        ComponentKind::GuiEAIViewer2D
    }

    open spec fn tag_spec() -> Seq<char> {
        "EAIViewer2D"@
    }

    proof fn tag_coherent() {
    }

    fn expected_tag() -> &'static str {
        "EAIViewer2D"
    }

    fn wrap(h: ObjectHandle) -> Self {
        GuiEAIViewer2D { handle: h }
    }

    fn from_component(c: SAPComponent) -> Option<Self> {
        match c {
            SAPComponent::GuiEAIViewer2D(x) => Some(x),
            _ => None,
        }
    }
}

impl GuiComponentMethods for GuiEAIViewer2D {

}

impl GuiVComponentMethods for GuiEAIViewer2D {

}

impl GuiContainerMethods for GuiEAIViewer2D {

}

impl GuiVContainerMethods for GuiEAIViewer2D {

}

/// The viewer for three-dimensional graphic images.
pub struct GuiEAIViewer3D {
    pub handle: ObjectHandle,
}

impl HasDispatch for GuiEAIViewer3D {
    open spec fn handle_spec(&self) -> ObjectHandle {
        self.handle
    }

    fn dispatch_handle(&self) -> ObjectHandle {
        self.handle
    }
}

impl SapObject for GuiEAIViewer3D {
    open spec fn kind_spec() -> ComponentKind {
        ComponentKind::GuiEAIViewer3D
    }

    open spec fn tag_spec() -> Seq<char> {
        "EAIViewer3D"@
    }

    proof fn tag_coherent() {
    }

    fn expected_tag() -> &'static str {
        "EAIViewer3D"
    }

    fn wrap(h: ObjectHandle) -> Self {
        GuiEAIViewer3D { handle: h }
    }

    fn from_component(c: SAPComponent) -> Option<Self> {
        match c {
            SAPComponent::GuiEAIViewer3D(x) => Some(x),
            _ => None,
        }
    }
}

impl GuiComponentMethods for GuiEAIViewer3D {

}

impl GuiVComponentMethods for GuiEAIViewer3D {

}

impl GuiContainerMethods for GuiEAIViewer3D {

}

impl GuiVContainerMethods for GuiEAIViewer3D {

}

/// A high-level window: the main window or a modal popup.
pub struct GuiFrameWindow {
    pub handle: ObjectHandle,
}

impl HasDispatch for GuiFrameWindow {
    open spec fn handle_spec(&self) -> ObjectHandle {
        self.handle
    }

    fn dispatch_handle(&self) -> ObjectHandle {
        self.handle
    }
}

impl SapObject for GuiFrameWindow {
    open spec fn kind_spec() -> ComponentKind {
        ComponentKind::GuiFrameWindow
    }

    open spec fn tag_spec() -> Seq<char> {
        "GuiFrameWindow"@
    }

    proof fn tag_coherent() {
    }

    fn expected_tag() -> &'static str {
        "GuiFrameWindow"
    }

    fn wrap(h: ObjectHandle) -> Self {
        GuiFrameWindow { handle: h }
    }

    fn from_component(c: SAPComponent) -> Option<Self> {
        match c {
            SAPComponent::GuiFrameWindow(x) => Some(x),
            _ => None,
        }
    }
}

impl GuiComponentMethods for GuiFrameWindow {

}

impl GuiVComponentMethods for GuiFrameWindow {

}

impl GuiContainerMethods for GuiFrameWindow {

}

impl GuiVContainerMethods for GuiFrameWindow {

}

impl GuiFrameWindowMethods for GuiFrameWindow {

}

/// The generic object services shell.
pub struct GuiGOSShell {
    pub handle: ObjectHandle,
}

impl HasDispatch for GuiGOSShell {
    open spec fn handle_spec(&self) -> ObjectHandle {
        self.handle
    }

    fn dispatch_handle(&self) -> ObjectHandle {
        self.handle
    }
}

impl SapObject for GuiGOSShell {
    open spec fn kind_spec() -> ComponentKind {
        ComponentKind::GuiGOSShell
    }

    open spec fn tag_spec() -> Seq<char> {
        "GuiGOSShell"@
    }

    proof fn tag_coherent() {
    }

    fn expected_tag() -> &'static str {
        "GuiGOSShell"
    }

    fn wrap(h: ObjectHandle) -> Self {
        GuiGOSShell { handle: h }
    }

    fn from_component(c: SAPComponent) -> Option<Self> {
        match c {
            SAPComponent::GuiGOSShell(x) => Some(x),
            _ => None,
        }
    }
}

impl GuiComponentMethods for GuiGOSShell {

}

impl GuiVComponentMethods for GuiGOSShell {

}

impl GuiContainerMethods for GuiGOSShell {

}

impl GuiVContainerMethods for GuiGOSShell {

}

/// The graphic adapter control.
pub struct GuiGraphAdapt {
    pub handle: ObjectHandle,
}

impl HasDispatch for GuiGraphAdapt {
    open spec fn handle_spec(&self) -> ObjectHandle {
        self.handle
    }

    fn dispatch_handle(&self) -> ObjectHandle {
        self.handle
    }
}

impl SapObject for GuiGraphAdapt {
    open spec fn kind_spec() -> ComponentKind {
        ComponentKind::GuiGraphAdapt
    }

    open spec fn tag_spec() -> Seq<char> {
        "GraphAdapt"@
    }

    proof fn tag_coherent() {
    }

    fn expected_tag() -> &'static str {
        "GraphAdapt"
    }

    fn wrap(h: ObjectHandle) -> Self {
        GuiGraphAdapt { handle: h }
    }

    fn from_component(c: SAPComponent) -> Option<Self> {
        match c {
            SAPComponent::GuiGraphAdapt(x) => Some(x),
            _ => None,
        }
    }
}

impl GuiComponentMethods for GuiGraphAdapt {

}

impl GuiVComponentMethods for GuiGraphAdapt {

}

impl GuiContainerMethods for GuiGraphAdapt {

}

impl GuiVContainerMethods for GuiGraphAdapt {

}

/// The grid view: like the table control, but considerably more powerful.
pub struct GuiGridView {
    pub handle: ObjectHandle,
}

impl HasDispatch for GuiGridView {
    open spec fn handle_spec(&self) -> ObjectHandle {
        self.handle
    }

    fn dispatch_handle(&self) -> ObjectHandle {
        self.handle
    }
}

impl SapObject for GuiGridView {
    open spec fn kind_spec() -> ComponentKind {
        ComponentKind::GuiGridView
    }

    open spec fn tag_spec() -> Seq<char> {
        "GridView"@
    }

    proof fn tag_coherent() {
    }

    fn expected_tag() -> &'static str {
        "GridView"
    }

    fn wrap(h: ObjectHandle) -> Self {
        GuiGridView { handle: h }
    }

    fn from_component(c: SAPComponent) -> Option<Self> {
        match c {
            SAPComponent::GuiGridView(x) => Some(x),
            _ => None,
        }
    }
}

impl GuiComponentMethods for GuiGridView {

}

impl GuiVComponentMethods for GuiGridView {

}

impl GuiContainerMethods for GuiGridView {

}

impl GuiVContainerMethods for GuiGridView {

}

/// The control that displays an HTML document.
pub struct GuiHTMLViewer {
    pub handle: ObjectHandle,
}

impl HasDispatch for GuiHTMLViewer {
    open spec fn handle_spec(&self) -> ObjectHandle {
        self.handle
    }

    fn dispatch_handle(&self) -> ObjectHandle {
        self.handle
    }
}

impl SapObject for GuiHTMLViewer {
    open spec fn kind_spec() -> ComponentKind {
        ComponentKind::GuiHTMLViewer
    }

    open spec fn tag_spec() -> Seq<char> {
        "HTMLViewer"@
    }

    proof fn tag_coherent() {
    }

    fn expected_tag() -> &'static str {
        "HTMLViewer"
    }

    fn wrap(h: ObjectHandle) -> Self {
        GuiHTMLViewer { handle: h }
    }

    fn from_component(c: SAPComponent) -> Option<Self> {
        match c {
            SAPComponent::GuiHTMLViewer(x) => Some(x),
            _ => None,
        }
    }
}

impl GuiComponentMethods for GuiHTMLViewer {

}

impl GuiVComponentMethods for GuiHTMLViewer {

}

impl GuiContainerMethods for GuiHTMLViewer {

}

impl GuiVContainerMethods for GuiHTMLViewer {

}

/// The input field hosted in a shell.
pub struct GuiInputFieldControl {
    pub handle: ObjectHandle,
}

impl HasDispatch for GuiInputFieldControl {
    open spec fn handle_spec(&self) -> ObjectHandle {
        self.handle
    }

    fn dispatch_handle(&self) -> ObjectHandle {
        self.handle
    }
}

impl SapObject for GuiInputFieldControl {
    open spec fn kind_spec() -> ComponentKind {
        ComponentKind::GuiInputFieldControl
    }

    open spec fn tag_spec() -> Seq<char> {
        "InputFieldControl"@
    }

    proof fn tag_coherent() {
    }

    fn expected_tag() -> &'static str {
        "InputFieldControl"
    }

    fn wrap(h: ObjectHandle) -> Self {
        GuiInputFieldControl { handle: h }
    }

    fn from_component(c: SAPComponent) -> Option<Self> {
        match c {
            SAPComponent::GuiInputFieldControl(x) => Some(x),
            _ => None,
        }
    }
}

impl GuiComponentMethods for GuiInputFieldControl {

}

impl GuiVComponentMethods for GuiInputFieldControl {

}

impl GuiContainerMethods for GuiInputFieldControl {

}

impl GuiVContainerMethods for GuiInputFieldControl {

}

/// A label.
pub struct GuiLabel {
    pub handle: ObjectHandle,
}

impl HasDispatch for GuiLabel {
    open spec fn handle_spec(&self) -> ObjectHandle {
        self.handle
    }

    fn dispatch_handle(&self) -> ObjectHandle {
        self.handle
    }
}

impl SapObject for GuiLabel {
    open spec fn kind_spec() -> ComponentKind {
        ComponentKind::GuiLabel
    }

    open spec fn tag_spec() -> Seq<char> {
        "GuiLabel"@
    }

    proof fn tag_coherent() {
    }

    fn expected_tag() -> &'static str {
        "GuiLabel"
    }

    fn wrap(h: ObjectHandle) -> Self {
        GuiLabel { handle: h }
    }

    fn from_component(c: SAPComponent) -> Option<Self> {
        match c {
            SAPComponent::GuiLabel(x) => Some(x),
            _ => None,
        }
    }
}

impl GuiComponentMethods for GuiLabel {

}

impl GuiVComponentMethods for GuiLabel {

}

/// The main window of a session.
pub struct GuiMainWindow {
    pub handle: ObjectHandle,
}

impl HasDispatch for GuiMainWindow {
    open spec fn handle_spec(&self) -> ObjectHandle {
        self.handle
    }

    fn dispatch_handle(&self) -> ObjectHandle {
        self.handle
    }
}

impl SapObject for GuiMainWindow {
    open spec fn kind_spec() -> ComponentKind {
        ComponentKind::GuiMainWindow
    }

    open spec fn tag_spec() -> Seq<char> {
        "GuiMainWindow"@
    }

    proof fn tag_coherent() {
    }

    fn expected_tag() -> &'static str {
        "GuiMainWindow"
    }

    fn wrap(h: ObjectHandle) -> Self {
        GuiMainWindow { handle: h }
    }

    fn from_component(c: SAPComponent) -> Option<Self> {
        match c {
            SAPComponent::GuiMainWindow(x) => Some(x),
            _ => None,
        }
    }
}

impl GuiComponentMethods for GuiMainWindow {

}

impl GuiVComponentMethods for GuiMainWindow {

}

impl GuiContainerMethods for GuiMainWindow {

}

impl GuiVContainerMethods for GuiMainWindow {

}

impl GuiFrameWindowMethods for GuiMainWindow {

}

/// The map control.
pub struct GuiMap {
    pub handle: ObjectHandle,
}

impl HasDispatch for GuiMap {
    open spec fn handle_spec(&self) -> ObjectHandle {
        self.handle
    }

    fn dispatch_handle(&self) -> ObjectHandle {
        self.handle
    }
}

impl SapObject for GuiMap {
    open spec fn kind_spec() -> ComponentKind {
        ComponentKind::GuiMap
    }

    open spec fn tag_spec() -> Seq<char> {
        "Map"@
    }

    proof fn tag_coherent() {
    }

    fn expected_tag() -> &'static str {
        "Map"
    }

    fn wrap(h: ObjectHandle) -> Self {
        GuiMap { handle: h }
    }

    fn from_component(c: SAPComponent) -> Option<Self> {
        match c {
            SAPComponent::GuiMap(x) => Some(x),
            _ => None,
        }
    }
}

impl GuiComponentMethods for GuiMap {

}

impl GuiVComponentMethods for GuiMap {

}

impl GuiContainerMethods for GuiMap {

}

impl GuiVContainerMethods for GuiMap {

}

/// A menu, whose children may be menus in turn.
pub struct GuiMenu {
    pub handle: ObjectHandle,
}

impl HasDispatch for GuiMenu {
    open spec fn handle_spec(&self) -> ObjectHandle {
        self.handle
    }

    fn dispatch_handle(&self) -> ObjectHandle {
        self.handle
    }
}

impl SapObject for GuiMenu {
    open spec fn kind_spec() -> ComponentKind {
        ComponentKind::GuiMenu
    }

    open spec fn tag_spec() -> Seq<char> {
        "GuiMenu"@
    }

    proof fn tag_coherent() {
    }

    fn expected_tag() -> &'static str {
        "GuiMenu"
    }

    fn wrap(h: ObjectHandle) -> Self {
        GuiMenu { handle: h }
    }

    fn from_component(c: SAPComponent) -> Option<Self> {
        match c {
            SAPComponent::GuiMenu(x) => Some(x),
            _ => None,
        }
    }
}

impl GuiComponentMethods for GuiMenu {

}

impl GuiVComponentMethods for GuiMenu {

}

impl GuiContainerMethods for GuiMenu {

}

impl GuiVContainerMethods for GuiMenu {

}

/// The menu bar of the main window.
pub struct GuiMenubar {
    pub handle: ObjectHandle,
}

impl HasDispatch for GuiMenubar {
    open spec fn handle_spec(&self) -> ObjectHandle {
        self.handle
    }

    fn dispatch_handle(&self) -> ObjectHandle {
        self.handle
    }
}

impl SapObject for GuiMenubar {
    open spec fn kind_spec() -> ComponentKind {
        ComponentKind::GuiMenubar
    }

    open spec fn tag_spec() -> Seq<char> {
        "GuiMenubar"@
    }

    proof fn tag_coherent() {
    }

    fn expected_tag() -> &'static str {
        "GuiMenubar"
    }

    fn wrap(h: ObjectHandle) -> Self {
        GuiMenubar { handle: h }
    }

    fn from_component(c: SAPComponent) -> Option<Self> {
        match c {
            SAPComponent::GuiMenubar(x) => Some(x),
            _ => None,
        }
    }
}

impl GuiComponentMethods for GuiMenubar {

}

impl GuiVComponentMethods for GuiMenubar {

}

impl GuiContainerMethods for GuiMenubar {

}

impl GuiVContainerMethods for GuiMenubar {

}

/// A dialog popup window.
pub struct GuiModalWindow {
    pub handle: ObjectHandle,
}

impl HasDispatch for GuiModalWindow {
    open spec fn handle_spec(&self) -> ObjectHandle {
        self.handle
    }

    fn dispatch_handle(&self) -> ObjectHandle {
        self.handle
    }
}

impl SapObject for GuiModalWindow {
    open spec fn kind_spec() -> ComponentKind {
        ComponentKind::GuiModalWindow
    }

    open spec fn tag_spec() -> Seq<char> {
        "GuiModalWindow"@
    }

    proof fn tag_coherent() {
    }

    fn expected_tag() -> &'static str {
        "GuiModalWindow"
    }

    fn wrap(h: ObjectHandle) -> Self {
        GuiModalWindow { handle: h }
    }

    fn from_component(c: SAPComponent) -> Option<Self> {
        match c {
            SAPComponent::GuiModalWindow(x) => Some(x),
            _ => None,
        }
    }
}

impl GuiComponentMethods for GuiModalWindow {

}

impl GuiVComponentMethods for GuiModalWindow {

}

impl GuiContainerMethods for GuiModalWindow {

}

impl GuiVContainerMethods for GuiModalWindow {

}

impl GuiFrameWindowMethods for GuiModalWindow {

}

/// The network chart for entity-relationship diagrams.
pub struct GuiNetChart {
    pub handle: ObjectHandle,
}

impl HasDispatch for GuiNetChart {
    open spec fn handle_spec(&self) -> ObjectHandle {
        self.handle
    }

    fn dispatch_handle(&self) -> ObjectHandle {
        self.handle
    }
}

impl SapObject for GuiNetChart {
    open spec fn kind_spec() -> ComponentKind {
        ComponentKind::GuiNetChart
    }

    open spec fn tag_spec() -> Seq<char> {
        "NetChart"@
    }

    proof fn tag_coherent() {
    }

    fn expected_tag() -> &'static str {
        "NetChart"
    }

    fn wrap(h: ObjectHandle) -> Self {
        GuiNetChart { handle: h }
    }

    fn from_component(c: SAPComponent) -> Option<Self> {
        match c {
            SAPComponent::GuiNetChart(x) => Some(x),
            _ => None,
        }
    }
}

impl GuiComponentMethods for GuiNetChart {

}

impl GuiVComponentMethods for GuiNetChart {

}

impl GuiContainerMethods for GuiNetChart {

}

impl GuiVContainerMethods for GuiNetChart {

}

/// The office-document integration control.
pub struct GuiOfficeIntegration {
    pub handle: ObjectHandle,
}

impl HasDispatch for GuiOfficeIntegration {
    open spec fn handle_spec(&self) -> ObjectHandle {
        self.handle
    }

    fn dispatch_handle(&self) -> ObjectHandle {
        self.handle
    }
}

impl SapObject for GuiOfficeIntegration {
    open spec fn kind_spec() -> ComponentKind {
        ComponentKind::GuiOfficeIntegration
    }

    open spec fn tag_spec() -> Seq<char> {
        "OfficeIntegration"@
    }

    proof fn tag_coherent() {
    }

    fn expected_tag() -> &'static str {
        "OfficeIntegration"
    }

    fn wrap(h: ObjectHandle) -> Self {
        GuiOfficeIntegration { handle: h }
    }

    fn from_component(c: SAPComponent) -> Option<Self> {
        match c {
            SAPComponent::GuiOfficeIntegration(x) => Some(x),
            _ => None,
        }
    }
}

impl GuiComponentMethods for GuiOfficeIntegration {

}

impl GuiVComponentMethods for GuiOfficeIntegration {

}

impl GuiContainerMethods for GuiOfficeIntegration {

}

impl GuiVContainerMethods for GuiOfficeIntegration {

}

/// The command field on the upper toolbar of the main window.
pub struct GuiOkCodeField {
    pub handle: ObjectHandle,
}

impl HasDispatch for GuiOkCodeField {
    open spec fn handle_spec(&self) -> ObjectHandle {
        self.handle
    }

    fn dispatch_handle(&self) -> ObjectHandle {
        self.handle
    }
}

impl SapObject for GuiOkCodeField {
    open spec fn kind_spec() -> ComponentKind {
        ComponentKind::GuiOkCodeField
    }

    open spec fn tag_spec() -> Seq<char> {
        "GuiOkCodeField"@
    }

    proof fn tag_coherent() {
    }

    fn expected_tag() -> &'static str {
        "GuiOkCodeField"
    }

    fn wrap(h: ObjectHandle) -> Self {
        GuiOkCodeField { handle: h }
    }

    fn from_component(c: SAPComponent) -> Option<Self> {
        match c {
            SAPComponent::GuiOkCodeField(x) => Some(x),
            _ => None,
        }
    }
}

impl GuiComponentMethods for GuiOkCodeField {

}

impl GuiVComponentMethods for GuiOkCodeField {

}

/// A password field; its text can be written but never read back.
pub struct GuiPasswordField {
    pub handle: ObjectHandle,
}

impl HasDispatch for GuiPasswordField {
    open spec fn handle_spec(&self) -> ObjectHandle {
        self.handle
    }

    fn dispatch_handle(&self) -> ObjectHandle {
        self.handle
    }
}

impl SapObject for GuiPasswordField {
    open spec fn kind_spec() -> ComponentKind {
        ComponentKind::GuiPasswordField
    }

    open spec fn tag_spec() -> Seq<char> {
        "GuiPasswordField"@
    }

    proof fn tag_coherent() {
    }

    fn expected_tag() -> &'static str {
        "GuiPasswordField"
    }

    fn wrap(h: ObjectHandle) -> Self {
        GuiPasswordField { handle: h }
    }

    fn from_component(c: SAPComponent) -> Option<Self> {
        match c {
            SAPComponent::GuiPasswordField(x) => Some(x),
            _ => None,
        }
    }
}

impl GuiComponentMethods for GuiPasswordField {

}

impl GuiVComponentMethods for GuiPasswordField {

}

impl GuiTextFieldMethods for GuiPasswordField {

}

/// The picture control.
pub struct GuiPicture {
    pub handle: ObjectHandle,
}

impl HasDispatch for GuiPicture {
    open spec fn handle_spec(&self) -> ObjectHandle {
        self.handle
    }

    fn dispatch_handle(&self) -> ObjectHandle {
        self.handle
    }
}

impl SapObject for GuiPicture {
    open spec fn kind_spec() -> ComponentKind {
        ComponentKind::GuiPicture
    }

    open spec fn tag_spec() -> Seq<char> {
        "Picture"@
    }

    proof fn tag_coherent() {
    }

    fn expected_tag() -> &'static str {
        "Picture"
    }

    fn wrap(h: ObjectHandle) -> Self {
        GuiPicture { handle: h }
    }

    fn from_component(c: SAPComponent) -> Option<Self> {
        match c {
            SAPComponent::GuiPicture(x) => Some(x),
            _ => None,
        }
    }
}

impl GuiComponentMethods for GuiPicture {

}

impl GuiVComponentMethods for GuiPicture {

}

impl GuiContainerMethods for GuiPicture {

}

impl GuiVContainerMethods for GuiPicture {

}

/// A radio button.
pub struct GuiRadioButton {
    pub handle: ObjectHandle,
}

impl HasDispatch for GuiRadioButton {
    open spec fn handle_spec(&self) -> ObjectHandle {
        self.handle
    }

    fn dispatch_handle(&self) -> ObjectHandle {
        self.handle
    }
}

impl SapObject for GuiRadioButton {
    open spec fn kind_spec() -> ComponentKind {
        ComponentKind::GuiRadioButton
    }

    open spec fn tag_spec() -> Seq<char> {
        "GuiRadioButton"@
    }

    proof fn tag_coherent() {
    }

    fn expected_tag() -> &'static str {
        "GuiRadioButton"
    }

    fn wrap(h: ObjectHandle) -> Self {
        GuiRadioButton { handle: h }
    }

    fn from_component(c: SAPComponent) -> Option<Self> {
        match c {
            SAPComponent::GuiRadioButton(x) => Some(x),
            _ => None,
        }
    }
}

impl GuiComponentMethods for GuiRadioButton {

}

impl GuiVComponentMethods for GuiRadioButton {

}

/// The chart control variant.
pub struct GuiSapChart {
    pub handle: ObjectHandle,
}

impl HasDispatch for GuiSapChart {
    open spec fn handle_spec(&self) -> ObjectHandle {
        self.handle
    }

    fn dispatch_handle(&self) -> ObjectHandle {
        self.handle
    }
}

impl SapObject for GuiSapChart {
    open spec fn kind_spec() -> ComponentKind {
        ComponentKind::GuiSapChart
    }

    open spec fn tag_spec() -> Seq<char> {
        "SapChart"@
    }

    proof fn tag_coherent() {
    }

    fn expected_tag() -> &'static str {
        "SapChart"
    }

    fn wrap(h: ObjectHandle) -> Self {
        GuiSapChart { handle: h }
    }

    fn from_component(c: SAPComponent) -> Option<Self> {
        match c {
            SAPComponent::GuiSapChart(x) => Some(x),
            _ => None,
        }
    }
}

impl GuiComponentMethods for GuiSapChart {

}

impl GuiVComponentMethods for GuiSapChart {

}

impl GuiContainerMethods for GuiSapChart {

}

impl GuiVContainerMethods for GuiSapChart {

}

/// A scrollbar of a scroll container or a table control.
pub struct GuiScrollbar {
    pub handle: ObjectHandle,
}

impl HasDispatch for GuiScrollbar {
    open spec fn handle_spec(&self) -> ObjectHandle {
        self.handle
    }

    fn dispatch_handle(&self) -> ObjectHandle {
        self.handle
    }
}

impl SapObject for GuiScrollbar {
    open spec fn kind_spec() -> ComponentKind {
        ComponentKind::GuiScrollbar
    }

    open spec fn tag_spec() -> Seq<char> {
        "GuiScrollbar"@
    }

    proof fn tag_coherent() {
    }

    fn expected_tag() -> &'static str {
        "GuiScrollbar"
    }

    fn wrap(h: ObjectHandle) -> Self {
        GuiScrollbar { handle: h }
    }

    fn from_component(c: SAPComponent) -> Option<Self> {
        match c {
            SAPComponent::GuiScrollbar(x) => Some(x),
            _ => None,
        }
    }
}

/// A scrollable subscreen.
pub struct GuiScrollContainer {
    pub handle: ObjectHandle,
}

impl HasDispatch for GuiScrollContainer {
    open spec fn handle_spec(&self) -> ObjectHandle {
        self.handle
    }

    fn dispatch_handle(&self) -> ObjectHandle {
        self.handle
    }
}

impl SapObject for GuiScrollContainer {
    open spec fn kind_spec() -> ComponentKind {
        ComponentKind::GuiScrollContainer
    }

    open spec fn tag_spec() -> Seq<char> {
        "GuiScrollContainer"@
    }

    proof fn tag_coherent() {
    }

    fn expected_tag() -> &'static str {
        "GuiScrollContainer"
    }

    fn wrap(h: ObjectHandle) -> Self {
        GuiScrollContainer { handle: h }
    }

    fn from_component(c: SAPComponent) -> Option<Self> {
        match c {
            SAPComponent::GuiScrollContainer(x) => Some(x),
            _ => None,
        }
    }
}

impl GuiComponentMethods for GuiScrollContainer {

}

impl GuiVComponentMethods for GuiScrollContainer {

}

impl GuiContainerMethods for GuiScrollContainer {

}

impl GuiVContainerMethods for GuiScrollContainer {

}

/// A session: the self-contained context whose children are the highest-level visible objects.
pub struct GuiSession {
    pub handle: ObjectHandle,
}

impl HasDispatch for GuiSession {
    open spec fn handle_spec(&self) -> ObjectHandle {
        self.handle
    }

    fn dispatch_handle(&self) -> ObjectHandle {
        self.handle
    }
}

impl SapObject for GuiSession {
    open spec fn kind_spec() -> ComponentKind {
        ComponentKind::GuiSession
    }

    open spec fn tag_spec() -> Seq<char> {
        "GuiSession"@
    }

    proof fn tag_coherent() {
    }

    fn expected_tag() -> &'static str {
        "GuiSession"
    }

    fn wrap(h: ObjectHandle) -> Self {
        GuiSession { handle: h }
    }

    fn from_component(c: SAPComponent) -> Option<Self> {
        match c {
            SAPComponent::GuiSession(x) => Some(x),
            _ => None,
        }
    }
}

impl GuiComponentMethods for GuiSession {

}

impl GuiContainerMethods for GuiSession {

}

/// The generic shell, the abstract ancestor of all controls; its concrete kind lives in the secondary subtype tag.
pub struct GuiShell {
    pub handle: ObjectHandle,
}

impl HasDispatch for GuiShell {
    open spec fn handle_spec(&self) -> ObjectHandle {
        self.handle
    }

    fn dispatch_handle(&self) -> ObjectHandle {
        self.handle
    }
}

impl SapObject for GuiShell {
    open spec fn kind_spec() -> ComponentKind {
        ComponentKind::GuiShell
    }

    open spec fn tag_spec() -> Seq<char> {
        "GuiShell"@
    }

    proof fn tag_coherent() {
    }

    fn expected_tag() -> &'static str {
        "GuiShell"
    }

    fn wrap(h: ObjectHandle) -> Self {
        GuiShell { handle: h }
    }

    fn from_component(c: SAPComponent) -> Option<Self> {
        match c {
            SAPComponent::GuiShell(x) => Some(x),
            _ => None,
        }
    }
}

impl GuiComponentMethods for GuiShell {

}

impl GuiVComponentMethods for GuiShell {

}

impl GuiContainerMethods for GuiShell {

}

impl GuiVContainerMethods for GuiShell {

}

/// A non-scrollable subscreen.
pub struct GuiSimpleContainer {
    pub handle: ObjectHandle,
}

impl HasDispatch for GuiSimpleContainer {
    open spec fn handle_spec(&self) -> ObjectHandle {
        self.handle
    }

    fn dispatch_handle(&self) -> ObjectHandle {
        self.handle
    }
}

impl SapObject for GuiSimpleContainer {
    open spec fn kind_spec() -> ComponentKind {
        ComponentKind::GuiSimpleContainer
    }

    open spec fn tag_spec() -> Seq<char> {
        "GuiSimpleContainer"@
    }

    proof fn tag_coherent() {
    }

    fn expected_tag() -> &'static str {
        "GuiSimpleContainer"
    }

    fn wrap(h: ObjectHandle) -> Self {
        GuiSimpleContainer { handle: h }
    }

    fn from_component(c: SAPComponent) -> Option<Self> {
        match c {
            SAPComponent::GuiSimpleContainer(x) => Some(x),
            _ => None,
        }
    }
}

impl GuiComponentMethods for GuiSimpleContainer {

}

impl GuiVComponentMethods for GuiSimpleContainer {

}

impl GuiContainerMethods for GuiSimpleContainer {

}

impl GuiVContainerMethods for GuiSimpleContainer {

}

/// The splitter shell.
pub struct GuiSplit {
    pub handle: ObjectHandle,
}

impl HasDispatch for GuiSplit {
    open spec fn handle_spec(&self) -> ObjectHandle {
        self.handle
    }

    fn dispatch_handle(&self) -> ObjectHandle {
        self.handle
    }
}

impl SapObject for GuiSplit {
    open spec fn kind_spec() -> ComponentKind {
        ComponentKind::GuiSplit
    }

    open spec fn tag_spec() -> Seq<char> {
        "Split"@
    }

    proof fn tag_coherent() {
    }

    fn expected_tag() -> &'static str {
        "Split"
    }

    fn wrap(h: ObjectHandle) -> Self {
        GuiSplit { handle: h }
    }

    fn from_component(c: SAPComponent) -> Option<Self> {
        match c {
            SAPComponent::GuiSplit(x) => Some(x),
            _ => None,
        }
    }
}

impl GuiComponentMethods for GuiSplit {

}

impl GuiVComponentMethods for GuiSplit {

}

impl GuiContainerMethods for GuiSplit {

}

impl GuiVContainerMethods for GuiSplit {

}

/// The dynpro splitter element.
pub struct GuiSplitterContainer {
    pub handle: ObjectHandle,
}

impl HasDispatch for GuiSplitterContainer {
    open spec fn handle_spec(&self) -> ObjectHandle {
        self.handle
    }

    fn dispatch_handle(&self) -> ObjectHandle {
        self.handle
    }
}

impl SapObject for GuiSplitterContainer {
    open spec fn kind_spec() -> ComponentKind {
        ComponentKind::GuiSplitterContainer
    }

    open spec fn tag_spec() -> Seq<char> {
        "SplitterContainer"@
    }

    proof fn tag_coherent() {
    }

    fn expected_tag() -> &'static str {
        "SplitterContainer"
    }

    fn wrap(h: ObjectHandle) -> Self {
        GuiSplitterContainer { handle: h }
    }

    fn from_component(c: SAPComponent) -> Option<Self> {
        match c {
            SAPComponent::GuiSplitterContainer(x) => Some(x),
            _ => None,
        }
    }
}

impl GuiComponentMethods for GuiSplitterContainer {

}

impl GuiVComponentMethods for GuiSplitterContainer {

}

impl GuiContainerMethods for GuiSplitterContainer {

}

impl GuiVContainerMethods for GuiSplitterContainer {

}

/// The stage control.
pub struct GuiStage {
    pub handle: ObjectHandle,
}

impl HasDispatch for GuiStage {
    open spec fn handle_spec(&self) -> ObjectHandle {
        self.handle
    }

    fn dispatch_handle(&self) -> ObjectHandle {
        self.handle
    }
}

impl SapObject for GuiStage {
    open spec fn kind_spec() -> ComponentKind {
        ComponentKind::GuiStage
    }

    open spec fn tag_spec() -> Seq<char> {
        "Stage"@
    }

    proof fn tag_coherent() {
    }

    fn expected_tag() -> &'static str {
        "Stage"
    }

    fn wrap(h: ObjectHandle) -> Self {
        GuiStage { handle: h }
    }

    fn from_component(c: SAPComponent) -> Option<Self> {
        match c {
            SAPComponent::GuiStage(x) => Some(x),
            _ => None,
        }
    }
}

impl GuiComponentMethods for GuiStage {

}

impl GuiVComponentMethods for GuiStage {

}

impl GuiContainerMethods for GuiStage {

}

impl GuiVContainerMethods for GuiStage {

}

/// The message-displaying part of the status bar.
pub struct GuiStatusbar {
    pub handle: ObjectHandle,
}

impl HasDispatch for GuiStatusbar {
    open spec fn handle_spec(&self) -> ObjectHandle {
        self.handle
    }

    fn dispatch_handle(&self) -> ObjectHandle {
        self.handle
    }
}

impl SapObject for GuiStatusbar {
    open spec fn kind_spec() -> ComponentKind {
        ComponentKind::GuiStatusbar
    }

    open spec fn tag_spec() -> Seq<char> {
        "GuiStatusbar"@
    }

    proof fn tag_coherent() {
    }

    fn expected_tag() -> &'static str {
        "GuiStatusbar"
    }

    fn wrap(h: ObjectHandle) -> Self {
        GuiStatusbar { handle: h }
    }

    fn from_component(c: SAPComponent) -> Option<Self> {
        match c {
            SAPComponent::GuiStatusbar(x) => Some(x),
            _ => None,
        }
    }
}

impl GuiComponentMethods for GuiStatusbar {

}

impl GuiVComponentMethods for GuiStatusbar {

}

impl GuiContainerMethods for GuiStatusbar {

}

impl GuiVContainerMethods for GuiStatusbar {

}

/// One pane of the status bar.
pub struct GuiStatusPane {
    pub handle: ObjectHandle,
}

impl HasDispatch for GuiStatusPane {
    open spec fn handle_spec(&self) -> ObjectHandle {
        self.handle
    }

    fn dispatch_handle(&self) -> ObjectHandle {
        self.handle
    }
}

impl SapObject for GuiStatusPane {
    open spec fn kind_spec() -> ComponentKind {
        ComponentKind::GuiStatusPane
    }

    open spec fn tag_spec() -> Seq<char> {
        "GuiStatusPane"@
    }

    proof fn tag_coherent() {
    }

    fn expected_tag() -> &'static str {
        "GuiStatusPane"
    }

    fn wrap(h: ObjectHandle) -> Self {
        GuiStatusPane { handle: h }
    }

    fn from_component(c: SAPComponent) -> Option<Self> {
        match c {
            SAPComponent::GuiStatusPane(x) => Some(x),
            _ => None,
        }
    }
}

impl GuiComponentMethods for GuiStatusPane {

}

impl GuiVComponentMethods for GuiStatusPane {

}

/// One tab of a tab strip.
pub struct GuiTab {
    pub handle: ObjectHandle,
}

impl HasDispatch for GuiTab {
    open spec fn handle_spec(&self) -> ObjectHandle {
        self.handle
    }

    fn dispatch_handle(&self) -> ObjectHandle {
        self.handle
    }
}

impl SapObject for GuiTab {
    open spec fn kind_spec() -> ComponentKind {
        ComponentKind::GuiTab
    }

    open spec fn tag_spec() -> Seq<char> {
        "GuiTab"@
    }

    proof fn tag_coherent() {
    }

    fn expected_tag() -> &'static str {
        "GuiTab"
    }

    fn wrap(h: ObjectHandle) -> Self {
        GuiTab { handle: h }
    }

    fn from_component(c: SAPComponent) -> Option<Self> {
        match c {
            SAPComponent::GuiTab(x) => Some(x),
            _ => None,
        }
    }
}

impl GuiComponentMethods for GuiTab {

}

impl GuiVComponentMethods for GuiTab {

}

impl GuiContainerMethods for GuiTab {

}

impl GuiVContainerMethods for GuiTab {

}

/// The standard dynpro table control.
pub struct GuiTableControl {
    pub handle: ObjectHandle,
}

impl HasDispatch for GuiTableControl {
    open spec fn handle_spec(&self) -> ObjectHandle {
        self.handle
    }

    fn dispatch_handle(&self) -> ObjectHandle {
        self.handle
    }
}

impl SapObject for GuiTableControl {
    open spec fn kind_spec() -> ComponentKind {
        ComponentKind::GuiTableControl
    }

    open spec fn tag_spec() -> Seq<char> {
        "GuiTableControl"@
    }

    proof fn tag_coherent() {
    }

    fn expected_tag() -> &'static str {
        "GuiTableControl"
    }

    fn wrap(h: ObjectHandle) -> Self {
        GuiTableControl { handle: h }
    }

    fn from_component(c: SAPComponent) -> Option<Self> {
        match c {
            SAPComponent::GuiTableControl(x) => Some(x),
            _ => None,
        }
    }
}

impl GuiComponentMethods for GuiTableControl {

}

impl GuiVComponentMethods for GuiTableControl {

}

impl GuiContainerMethods for GuiTableControl {

}

impl GuiVContainerMethods for GuiTableControl {

}

/// A tab strip, whose children are tabs.
pub struct GuiTabStrip {
    pub handle: ObjectHandle,
}

impl HasDispatch for GuiTabStrip {
    open spec fn handle_spec(&self) -> ObjectHandle {
        self.handle
    }

    fn dispatch_handle(&self) -> ObjectHandle {
        self.handle
    }
}

impl SapObject for GuiTabStrip {
    open spec fn kind_spec() -> ComponentKind {
        ComponentKind::GuiTabStrip
    }

    open spec fn tag_spec() -> Seq<char> {
        "GuiTabStrip"@
    }

    proof fn tag_coherent() {
    }

    fn expected_tag() -> &'static str {
        "GuiTabStrip"
    }

    fn wrap(h: ObjectHandle) -> Self {
        GuiTabStrip { handle: h }
    }

    fn from_component(c: SAPComponent) -> Option<Self> {
        match c {
            SAPComponent::GuiTabStrip(x) => Some(x),
            _ => None,
        }
    }
}

impl GuiComponentMethods for GuiTabStrip {

}

impl GuiVComponentMethods for GuiTabStrip {

}

impl GuiContainerMethods for GuiTabStrip {

}

impl GuiVContainerMethods for GuiTabStrip {

}

/// The multiline text edit control.
pub struct GuiTextedit {
    pub handle: ObjectHandle,
}

impl HasDispatch for GuiTextedit {
    open spec fn handle_spec(&self) -> ObjectHandle {
        self.handle
    }

    fn dispatch_handle(&self) -> ObjectHandle {
        self.handle
    }
}

impl SapObject for GuiTextedit {
    open spec fn kind_spec() -> ComponentKind {
        ComponentKind::GuiTextedit
    }

    open spec fn tag_spec() -> Seq<char> {
        "Textedit"@
    }

    proof fn tag_coherent() {
    }

    fn expected_tag() -> &'static str {
        "Textedit"
    }

    fn wrap(h: ObjectHandle) -> Self {
        GuiTextedit { handle: h }
    }

    fn from_component(c: SAPComponent) -> Option<Self> {
        match c {
            SAPComponent::GuiTextedit(x) => Some(x),
            _ => None,
        }
    }
}

impl GuiComponentMethods for GuiTextedit {

}

impl GuiVComponentMethods for GuiTextedit {

}

impl GuiContainerMethods for GuiTextedit {

}

impl GuiVContainerMethods for GuiTextedit {

}

/// A text field.
pub struct GuiTextField {
    pub handle: ObjectHandle,
}

impl HasDispatch for GuiTextField {
    open spec fn handle_spec(&self) -> ObjectHandle {
        self.handle
    }

    fn dispatch_handle(&self) -> ObjectHandle {
        self.handle
    }
}

impl SapObject for GuiTextField {
    open spec fn kind_spec() -> ComponentKind {
        ComponentKind::GuiTextField
    }

    open spec fn tag_spec() -> Seq<char> {
        "GuiTextField"@
    }

    proof fn tag_coherent() {
    }

    fn expected_tag() -> &'static str {
        "GuiTextField"
    }

    fn wrap(h: ObjectHandle) -> Self {
        GuiTextField { handle: h }
    }

    fn from_component(c: SAPComponent) -> Option<Self> {
        match c {
            SAPComponent::GuiTextField(x) => Some(x),
            _ => None,
        }
    }
}

impl GuiComponentMethods for GuiTextField {

}

impl GuiVComponentMethods for GuiTextField {

}

impl GuiTextFieldMethods for GuiTextField {

}

/// The title bar of a window.
pub struct GuiTitlebar {
    pub handle: ObjectHandle,
}

impl HasDispatch for GuiTitlebar {
    open spec fn handle_spec(&self) -> ObjectHandle {
        self.handle
    }

    fn dispatch_handle(&self) -> ObjectHandle {
        self.handle
    }
}

impl SapObject for GuiTitlebar {
    open spec fn kind_spec() -> ComponentKind {
        ComponentKind::GuiTitlebar
    }

    open spec fn tag_spec() -> Seq<char> {
        "GuiTitlebar"@
    }

    proof fn tag_coherent() {
    }

    fn expected_tag() -> &'static str {
        "GuiTitlebar"
    }

    fn wrap(h: ObjectHandle) -> Self {
        GuiTitlebar { handle: h }
    }

    fn from_component(c: SAPComponent) -> Option<Self> {
        match c {
            SAPComponent::GuiTitlebar(x) => Some(x),
            _ => None,
        }
    }
}

impl GuiComponentMethods for GuiTitlebar {

}

impl GuiVComponentMethods for GuiTitlebar {

}

impl GuiContainerMethods for GuiTitlebar {

}

impl GuiVContainerMethods for GuiTitlebar {

}

/// A toolbar of a frame window.
pub struct GuiToolbar {
    pub handle: ObjectHandle,
}

impl HasDispatch for GuiToolbar {
    open spec fn handle_spec(&self) -> ObjectHandle {
        self.handle
    }

    fn dispatch_handle(&self) -> ObjectHandle {
        self.handle
    }
}

impl SapObject for GuiToolbar {
    open spec fn kind_spec() -> ComponentKind {
        ComponentKind::GuiToolbar
    }

    open spec fn tag_spec() -> Seq<char> {
        "GuiToolbar"@
    }

    proof fn tag_coherent() {
    }

    fn expected_tag() -> &'static str {
        "GuiToolbar"
    }

    fn wrap(h: ObjectHandle) -> Self {
        GuiToolbar { handle: h }
    }

    fn from_component(c: SAPComponent) -> Option<Self> {
        match c {
            SAPComponent::GuiToolbar(x) => Some(x),
            _ => None,
        }
    }
}

impl GuiComponentMethods for GuiToolbar {

}

impl GuiVComponentMethods for GuiToolbar {

}

impl GuiContainerMethods for GuiToolbar {

}

impl GuiVContainerMethods for GuiToolbar {

}

/// The tree view control.
pub struct GuiTree {
    pub handle: ObjectHandle,
}

impl HasDispatch for GuiTree {
    open spec fn handle_spec(&self) -> ObjectHandle {
        self.handle
    }

    fn dispatch_handle(&self) -> ObjectHandle {
        self.handle
    }
}

impl SapObject for GuiTree {
    open spec fn kind_spec() -> ComponentKind {
        ComponentKind::GuiTree
    }

    open spec fn tag_spec() -> Seq<char> {
        "Tree"@
    }

    proof fn tag_coherent() {
    }

    fn expected_tag() -> &'static str {
        "Tree"
    }

    fn wrap(h: ObjectHandle) -> Self {
        GuiTree { handle: h }
    }

    fn from_component(c: SAPComponent) -> Option<Self> {
        match c {
            SAPComponent::GuiTree(x) => Some(x),
            _ => None,
        }
    }
}

impl GuiComponentMethods for GuiTree {

}

impl GuiVComponentMethods for GuiTree {

}

impl GuiContainerMethods for GuiTree {

}

impl GuiVContainerMethods for GuiTree {

}

/// The area between the toolbar and the status bar, holding the dynpro elements.
pub struct GuiUserArea {
    pub handle: ObjectHandle,
}

impl HasDispatch for GuiUserArea {
    open spec fn handle_spec(&self) -> ObjectHandle {
        self.handle
    }

    fn dispatch_handle(&self) -> ObjectHandle {
        self.handle
    }
}

impl SapObject for GuiUserArea {
    open spec fn kind_spec() -> ComponentKind {
        ComponentKind::GuiUserArea
    }

    open spec fn tag_spec() -> Seq<char> {
        "GuiUserArea"@
    }

    proof fn tag_coherent() {
    }

    fn expected_tag() -> &'static str {
        "GuiUserArea"
    }

    fn wrap(h: ObjectHandle) -> Self {
        GuiUserArea { handle: h }
    }

    fn from_component(c: SAPComponent) -> Option<Self> {
        match c {
            SAPComponent::GuiUserArea(x) => Some(x),
            _ => None,
        }
    }
}

impl GuiComponentMethods for GuiUserArea {

}

impl GuiVComponentMethods for GuiUserArea {

}

impl GuiContainerMethods for GuiUserArea {

}

impl GuiVContainerMethods for GuiUserArea {

}

/// The abstract visual component facet as a wrapper of its own.
pub struct GuiVComponent {
    pub handle: ObjectHandle,
}

impl HasDispatch for GuiVComponent {
    open spec fn handle_spec(&self) -> ObjectHandle {
        self.handle
    }

    fn dispatch_handle(&self) -> ObjectHandle {
        self.handle
    }
}

impl SapObject for GuiVComponent {
    open spec fn kind_spec() -> ComponentKind {
        ComponentKind::GuiVComponent
    }

    open spec fn tag_spec() -> Seq<char> {
        "GuiVComponent"@
    }

    proof fn tag_coherent() {
    }

    fn expected_tag() -> &'static str {
        "GuiVComponent"
    }

    fn wrap(h: ObjectHandle) -> Self {
        GuiVComponent { handle: h }
    }

    fn from_component(c: SAPComponent) -> Option<Self> {
        match c {
            SAPComponent::GuiVComponent(x) => Some(x),
            _ => None,
        }
    }
}

impl GuiComponentMethods for GuiVComponent {

}

impl GuiVComponentMethods for GuiVComponent {

}

/// The abstract visible-container facet as a wrapper of its own.
pub struct GuiVContainer {
    pub handle: ObjectHandle,
}

impl HasDispatch for GuiVContainer {
    open spec fn handle_spec(&self) -> ObjectHandle {
        self.handle
    }

    fn dispatch_handle(&self) -> ObjectHandle {
        self.handle
    }
}

impl SapObject for GuiVContainer {
    open spec fn kind_spec() -> ComponentKind {
        ComponentKind::GuiVContainer
    }

    open spec fn tag_spec() -> Seq<char> {
        "GuiVContainer"@
    }

    proof fn tag_coherent() {
    }

    fn expected_tag() -> &'static str {
        "GuiVContainer"
    }

    fn wrap(h: ObjectHandle) -> Self {
        GuiVContainer { handle: h }
    }

    fn from_component(c: SAPComponent) -> Option<Self> {
        match c {
            SAPComponent::GuiVContainer(x) => Some(x),
            _ => None,
        }
    }
}

impl GuiComponentMethods for GuiVContainer {

}

impl GuiVComponentMethods for GuiVContainer {

}

impl GuiContainerMethods for GuiVContainer {

}

impl GuiVContainerMethods for GuiVContainer {

}

/// The view switch placed in the header area of the main window.
pub struct GuiVHViewSwitch {
    pub handle: ObjectHandle,
}

impl HasDispatch for GuiVHViewSwitch {
    open spec fn handle_spec(&self) -> ObjectHandle {
        self.handle
    }

    fn dispatch_handle(&self) -> ObjectHandle {
        self.handle
    }
}

impl SapObject for GuiVHViewSwitch {
    open spec fn kind_spec() -> ComponentKind {
        ComponentKind::GuiVHViewSwitch
    }

    open spec fn tag_spec() -> Seq<char> {
        "GuiVHViewSwitch"@
    }

    proof fn tag_coherent() {
    }

    fn expected_tag() -> &'static str {
        "GuiVHViewSwitch"
    }

    fn wrap(h: ObjectHandle) -> Self {
        GuiVHViewSwitch { handle: h }
    }

    fn from_component(c: SAPComponent) -> Option<Self> {
        match c {
            SAPComponent::GuiVHViewSwitch(x) => Some(x),
            _ => None,
        }
    }
}

impl GuiComponentMethods for GuiVHViewSwitch {

}

impl GuiVComponentMethods for GuiVHViewSwitch {

}

/// The discriminated union over the whole wrapper catalog, with the
/// generic component as the fallback variant.  Construction is the
/// discrimination algorithm; callers branch on the variant.
pub enum SAPComponent {
    GuiApplication(GuiApplication),
    GuiBarChart(GuiBarChart),
    GuiBox(GuiBox),
    GuiButton(GuiButton),
    GuiCalendar(GuiCalendar),
    GuiChart(GuiChart),
    GuiCheckBox(GuiCheckBox),
    GuiColorSelector(GuiColorSelector),
    GuiComboBox(GuiComboBox),
    GuiComboBoxControl(GuiComboBoxControl),
    GuiComboBoxEntry(GuiComboBoxEntry),
    GuiComponent(GuiComponent),
    GuiConnection(GuiConnection),
    GuiContainer(GuiContainer),
    GuiContainerShell(GuiContainerShell),
    GuiCTextField(GuiCTextField),
    GuiCustomControl(GuiCustomControl),
    GuiDialogShell(GuiDialogShell),
    GuiEAIViewer2D(GuiEAIViewer2D),
    GuiEAIViewer3D(GuiEAIViewer3D),
    GuiFrameWindow(GuiFrameWindow),
    GuiGOSShell(GuiGOSShell),
    GuiGraphAdapt(GuiGraphAdapt),
    GuiGridView(GuiGridView),
    GuiHTMLViewer(GuiHTMLViewer),
    GuiInputFieldControl(GuiInputFieldControl),
    GuiLabel(GuiLabel),
    GuiMainWindow(GuiMainWindow),
    GuiMap(GuiMap),
    GuiMenu(GuiMenu),
    GuiMenubar(GuiMenubar),
    GuiModalWindow(GuiModalWindow),
    GuiNetChart(GuiNetChart),
    GuiOfficeIntegration(GuiOfficeIntegration),
    GuiOkCodeField(GuiOkCodeField),
    GuiPasswordField(GuiPasswordField),
    GuiPicture(GuiPicture),
    GuiRadioButton(GuiRadioButton),
    GuiSapChart(GuiSapChart),
    GuiScrollbar(GuiScrollbar),
    GuiScrollContainer(GuiScrollContainer),
    GuiSession(GuiSession),
    GuiShell(GuiShell),
    GuiSimpleContainer(GuiSimpleContainer),
    GuiSplit(GuiSplit),
    GuiSplitterContainer(GuiSplitterContainer),
    GuiStage(GuiStage),
    GuiStatusbar(GuiStatusbar),
    GuiStatusPane(GuiStatusPane),
    GuiTab(GuiTab),
    GuiTableControl(GuiTableControl),
    GuiTabStrip(GuiTabStrip),
    GuiTextedit(GuiTextedit),
    GuiTextField(GuiTextField),
    GuiTitlebar(GuiTitlebar),
    GuiToolbar(GuiToolbar),
    GuiTree(GuiTree),
    GuiUserArea(GuiUserArea),
    GuiVComponent(GuiVComponent),
    GuiVContainer(GuiVContainer),
    GuiVHViewSwitch(GuiVHViewSwitch),
}

/// The kind of the wrapper a component value carries.
pub open spec fn component_kind(c: SAPComponent) -> ComponentKind {
    match c {
        SAPComponent::GuiApplication(_) => ComponentKind::GuiApplication,
        SAPComponent::GuiBarChart(_) => ComponentKind::GuiBarChart,
        SAPComponent::GuiBox(_) => ComponentKind::GuiBox,
        SAPComponent::GuiButton(_) => ComponentKind::GuiButton,
        SAPComponent::GuiCalendar(_) => ComponentKind::GuiCalendar,
        SAPComponent::GuiChart(_) => ComponentKind::GuiChart,
        SAPComponent::GuiCheckBox(_) => ComponentKind::GuiCheckBox,
        SAPComponent::GuiColorSelector(_) => ComponentKind::GuiColorSelector,
        SAPComponent::GuiComboBox(_) => ComponentKind::GuiComboBox,
        SAPComponent::GuiComboBoxControl(_) => ComponentKind::GuiComboBoxControl,
        SAPComponent::GuiComboBoxEntry(_) => ComponentKind::GuiComboBoxEntry,
        SAPComponent::GuiComponent(_) => ComponentKind::GuiComponent,
        SAPComponent::GuiConnection(_) => ComponentKind::GuiConnection,
        SAPComponent::GuiContainer(_) => ComponentKind::GuiContainer,
        SAPComponent::GuiContainerShell(_) => ComponentKind::GuiContainerShell,
        SAPComponent::GuiCTextField(_) => ComponentKind::GuiCTextField,
        SAPComponent::GuiCustomControl(_) => ComponentKind::GuiCustomControl,
        SAPComponent::GuiDialogShell(_) => ComponentKind::GuiDialogShell,
        SAPComponent::GuiEAIViewer2D(_) => ComponentKind::GuiEAIViewer2D,
        SAPComponent::GuiEAIViewer3D(_) => ComponentKind::GuiEAIViewer3D,
        SAPComponent::GuiFrameWindow(_) => ComponentKind::GuiFrameWindow,
        SAPComponent::GuiGOSShell(_) => ComponentKind::GuiGOSShell,
        SAPComponent::GuiGraphAdapt(_) => ComponentKind::GuiGraphAdapt,
        SAPComponent::GuiGridView(_) => ComponentKind::GuiGridView,
        SAPComponent::GuiHTMLViewer(_) => ComponentKind::GuiHTMLViewer,
        SAPComponent::GuiInputFieldControl(_) => ComponentKind::GuiInputFieldControl,
        SAPComponent::GuiLabel(_) => ComponentKind::GuiLabel,
        SAPComponent::GuiMainWindow(_) => ComponentKind::GuiMainWindow,
        SAPComponent::GuiMap(_) => ComponentKind::GuiMap,
        SAPComponent::GuiMenu(_) => ComponentKind::GuiMenu,
        SAPComponent::GuiMenubar(_) => ComponentKind::GuiMenubar,
        SAPComponent::GuiModalWindow(_) => ComponentKind::GuiModalWindow,
        SAPComponent::GuiNetChart(_) => ComponentKind::GuiNetChart,
        SAPComponent::GuiOfficeIntegration(_) => ComponentKind::GuiOfficeIntegration,
        SAPComponent::GuiOkCodeField(_) => ComponentKind::GuiOkCodeField,
        SAPComponent::GuiPasswordField(_) => ComponentKind::GuiPasswordField,
        SAPComponent::GuiPicture(_) => ComponentKind::GuiPicture,
        SAPComponent::GuiRadioButton(_) => ComponentKind::GuiRadioButton,
        SAPComponent::GuiSapChart(_) => ComponentKind::GuiSapChart,
        SAPComponent::GuiScrollbar(_) => ComponentKind::GuiScrollbar,
        SAPComponent::GuiScrollContainer(_) => ComponentKind::GuiScrollContainer,
        SAPComponent::GuiSession(_) => ComponentKind::GuiSession,
        SAPComponent::GuiShell(_) => ComponentKind::GuiShell,
        SAPComponent::GuiSimpleContainer(_) => ComponentKind::GuiSimpleContainer,
        SAPComponent::GuiSplit(_) => ComponentKind::GuiSplit,
        SAPComponent::GuiSplitterContainer(_) => ComponentKind::GuiSplitterContainer,
        SAPComponent::GuiStage(_) => ComponentKind::GuiStage,
        SAPComponent::GuiStatusbar(_) => ComponentKind::GuiStatusbar,
        SAPComponent::GuiStatusPane(_) => ComponentKind::GuiStatusPane,
        SAPComponent::GuiTab(_) => ComponentKind::GuiTab,
        SAPComponent::GuiTableControl(_) => ComponentKind::GuiTableControl,
        SAPComponent::GuiTabStrip(_) => ComponentKind::GuiTabStrip,
        SAPComponent::GuiTextedit(_) => ComponentKind::GuiTextedit,
        SAPComponent::GuiTextField(_) => ComponentKind::GuiTextField,
        SAPComponent::GuiTitlebar(_) => ComponentKind::GuiTitlebar,
        SAPComponent::GuiToolbar(_) => ComponentKind::GuiToolbar,
        SAPComponent::GuiTree(_) => ComponentKind::GuiTree,
        SAPComponent::GuiUserArea(_) => ComponentKind::GuiUserArea,
        SAPComponent::GuiVComponent(_) => ComponentKind::GuiVComponent,
        SAPComponent::GuiVContainer(_) => ComponentKind::GuiVContainer,
        SAPComponent::GuiVHViewSwitch(_) => ComponentKind::GuiVHViewSwitch,
    }
}

/// The handle a component value wraps.
pub open spec fn component_handle(c: SAPComponent) -> ObjectHandle {
    match c {
        SAPComponent::GuiApplication(x) => x.handle,
        SAPComponent::GuiBarChart(x) => x.handle,
        SAPComponent::GuiBox(x) => x.handle,
        SAPComponent::GuiButton(x) => x.handle,
        SAPComponent::GuiCalendar(x) => x.handle,
        SAPComponent::GuiChart(x) => x.handle,
        SAPComponent::GuiCheckBox(x) => x.handle,
        SAPComponent::GuiColorSelector(x) => x.handle,
        SAPComponent::GuiComboBox(x) => x.handle,
        SAPComponent::GuiComboBoxControl(x) => x.handle,
        SAPComponent::GuiComboBoxEntry(x) => x.handle,
        SAPComponent::GuiComponent(x) => x.handle,
        SAPComponent::GuiConnection(x) => x.handle,
        SAPComponent::GuiContainer(x) => x.handle,
        SAPComponent::GuiContainerShell(x) => x.handle,
        SAPComponent::GuiCTextField(x) => x.handle,
        SAPComponent::GuiCustomControl(x) => x.handle,
        SAPComponent::GuiDialogShell(x) => x.handle,
        SAPComponent::GuiEAIViewer2D(x) => x.handle,
        SAPComponent::GuiEAIViewer3D(x) => x.handle,
        SAPComponent::GuiFrameWindow(x) => x.handle,
        SAPComponent::GuiGOSShell(x) => x.handle,
        SAPComponent::GuiGraphAdapt(x) => x.handle,
        SAPComponent::GuiGridView(x) => x.handle,
        SAPComponent::GuiHTMLViewer(x) => x.handle,
        SAPComponent::GuiInputFieldControl(x) => x.handle,
        SAPComponent::GuiLabel(x) => x.handle,
        SAPComponent::GuiMainWindow(x) => x.handle,
        SAPComponent::GuiMap(x) => x.handle,
        SAPComponent::GuiMenu(x) => x.handle,
        SAPComponent::GuiMenubar(x) => x.handle,
        SAPComponent::GuiModalWindow(x) => x.handle,
        SAPComponent::GuiNetChart(x) => x.handle,
        SAPComponent::GuiOfficeIntegration(x) => x.handle,
        SAPComponent::GuiOkCodeField(x) => x.handle,
        SAPComponent::GuiPasswordField(x) => x.handle,
        SAPComponent::GuiPicture(x) => x.handle,
        SAPComponent::GuiRadioButton(x) => x.handle,
        SAPComponent::GuiSapChart(x) => x.handle,
        SAPComponent::GuiScrollbar(x) => x.handle,
        SAPComponent::GuiScrollContainer(x) => x.handle,
        SAPComponent::GuiSession(x) => x.handle,
        SAPComponent::GuiShell(x) => x.handle,
        SAPComponent::GuiSimpleContainer(x) => x.handle,
        SAPComponent::GuiSplit(x) => x.handle,
        SAPComponent::GuiSplitterContainer(x) => x.handle,
        SAPComponent::GuiStage(x) => x.handle,
        SAPComponent::GuiStatusbar(x) => x.handle,
        SAPComponent::GuiStatusPane(x) => x.handle,
        SAPComponent::GuiTab(x) => x.handle,
        SAPComponent::GuiTableControl(x) => x.handle,
        SAPComponent::GuiTabStrip(x) => x.handle,
        SAPComponent::GuiTextedit(x) => x.handle,
        SAPComponent::GuiTextField(x) => x.handle,
        SAPComponent::GuiTitlebar(x) => x.handle,
        SAPComponent::GuiToolbar(x) => x.handle,
        SAPComponent::GuiTree(x) => x.handle,
        SAPComponent::GuiUserArea(x) => x.handle,
        SAPComponent::GuiVComponent(x) => x.handle,
        SAPComponent::GuiVContainer(x) => x.handle,
        SAPComponent::GuiVHViewSwitch(x) => x.handle,
    }
}

/// Resolve the discrimination tag of `h`: the primary type tag, then the
/// secondary subtype tag when the primary is the generic-shell sentinel.
/// `None` means the primary query failed and the caller falls back.
fn resolve_tag(rt: &mut MockRuntime, h: ObjectHandle) -> (r: Option<String>)
    ensures
        final(rt)@.objects == old(rt)@.objects,
        final(rt)@.rot_wrapper == old(rt)@.rot_wrapper,
        final(rt)@.log == discriminate_log(old(rt)@, h),
        match r {
            Some(t) => str_get_result(old(rt)@, h, "Type"@) is Ok && t@ == discriminate_tag(
                old(rt)@,
                h,
            ),
            None => str_get_result(old(rt)@, h, "Type"@) is Err && discriminate_tag(old(rt)@, h)
                == fallback_tag(),
        },
{
    let tag: String = match rt.get(h, "Type") {
        Ok(v) => match v.to_string() {
            Ok(s) => s,
            Err(_) => {
                return None;
            },
        },
        Err(_) => {
            return None;
        },
    };
    if str_eq(tag.as_str(), "GuiShell") {
        match rt.get(h, "SubType") {
            Ok(v) => match v.to_string() {
                Ok(s) => Some(s),
                Err(_) => Some(tag),
            },
            Err(_) => Some(tag),
        }
    } else {
        Some(tag)
    }
}

impl SAPComponent {
    /// Discriminate the concrete kind of `h` and wrap it: query the type
    /// tag (and the subtype tag for the generic-shell sentinel), then
    /// match the resolved tag against the static table.  This never fails:
    /// an unrecognized tag, or a failed tag query, degrades to the generic
    /// component wrapper.
    #[verifier::rlimit(60)]
    pub fn from_handle(rt: &mut MockRuntime, h: ObjectHandle) -> (r: SAPComponent)
        ensures
            final(rt)@.objects == old(rt)@.objects,
            final(rt)@.rot_wrapper == old(rt)@.rot_wrapper,
            final(rt)@.log == discriminate_log(old(rt)@, h),
            component_handle(r) == h,
            component_kind(r) == table_kind(discriminate_tag(old(rt)@, h)),
    {
        let tag: String = match resolve_tag(rt, h) {
            Some(t) => t,
            None => {
                return SAPComponent::GuiComponent(GuiComponent { handle: h });
            },
        };
        let t = tag.as_str();
        if str_eq(t, "GuiComponent") {
            SAPComponent::GuiComponent(GuiComponent { handle: h })
        } else if str_eq(t, "GridView") {
            SAPComponent::GuiGridView(GuiGridView { handle: h })
        } else if str_eq(t, "GuiApplication") {
            SAPComponent::GuiApplication(GuiApplication { handle: h })
        } else if str_eq(t, "BarChart") {
            SAPComponent::GuiBarChart(GuiBarChart { handle: h })
        } else if str_eq(t, "GuiBox") {
            SAPComponent::GuiBox(GuiBox { handle: h })
        } else if str_eq(t, "GuiButton") {
            SAPComponent::GuiButton(GuiButton { handle: h })
        } else if str_eq(t, "Calendar") {
            SAPComponent::GuiCalendar(GuiCalendar { handle: h })
        } else if str_eq(t, "Chart") {
            SAPComponent::GuiChart(GuiChart { handle: h })
        } else if str_eq(t, "GuiCheckBox") {
            SAPComponent::GuiCheckBox(GuiCheckBox { handle: h })
        } else if str_eq(t, "ColorSelector") {
            SAPComponent::GuiColorSelector(GuiColorSelector { handle: h })
        } else if str_eq(t, "GuiComboBox") {
            SAPComponent::GuiComboBox(GuiComboBox { handle: h })
        } else if str_eq(t, "ComboBoxControl") {
            SAPComponent::GuiComboBoxControl(GuiComboBoxControl { handle: h })
        } else if str_eq(t, "GuiComboBoxEntry") {
            SAPComponent::GuiComboBoxEntry(GuiComboBoxEntry { handle: h })
        } else if str_eq(t, "GuiConnection") {
            SAPComponent::GuiConnection(GuiConnection { handle: h })
        } else if str_eq(t, "GuiContainer") {
            SAPComponent::GuiContainer(GuiContainer { handle: h })
        } else if str_eq(t, "ContainerShell") {
            SAPComponent::GuiContainerShell(GuiContainerShell { handle: h })
        } else if str_eq(t, "GuiCTextField") {
            SAPComponent::GuiCTextField(GuiCTextField { handle: h })
        } else if str_eq(t, "GuiCustomControl") {
            SAPComponent::GuiCustomControl(GuiCustomControl { handle: h })
        } else if str_eq(t, "GuiDialogShell") {
            SAPComponent::GuiDialogShell(GuiDialogShell { handle: h })
        } else if str_eq(t, "EAIViewer2D") {
            SAPComponent::GuiEAIViewer2D(GuiEAIViewer2D { handle: h })
        } else if str_eq(t, "EAIViewer3D") {
            SAPComponent::GuiEAIViewer3D(GuiEAIViewer3D { handle: h })
        } else if str_eq(t, "GuiFrameWindow") {
            SAPComponent::GuiFrameWindow(GuiFrameWindow { handle: h })
        } else if str_eq(t, "GuiGOSShell") {
            SAPComponent::GuiGOSShell(GuiGOSShell { handle: h })
        } else if str_eq(t, "GraphAdapt") {
            SAPComponent::GuiGraphAdapt(GuiGraphAdapt { handle: h })
        } else if str_eq(t, "HTMLViewer") {
            SAPComponent::GuiHTMLViewer(GuiHTMLViewer { handle: h })
        } else if str_eq(t, "InputFieldControl") {
            SAPComponent::GuiInputFieldControl(GuiInputFieldControl { handle: h })
        } else if str_eq(t, "GuiLabel") {
            SAPComponent::GuiLabel(GuiLabel { handle: h })
        } else if str_eq(t, "GuiMainWindow") {
            SAPComponent::GuiMainWindow(GuiMainWindow { handle: h })
        } else if str_eq(t, "Map") {
            SAPComponent::GuiMap(GuiMap { handle: h })
        } else if str_eq(t, "GuiMenu") {
            SAPComponent::GuiMenu(GuiMenu { handle: h })
        } else if str_eq(t, "GuiMenubar") {
            SAPComponent::GuiMenubar(GuiMenubar { handle: h })
        } else if str_eq(t, "GuiModalWindow") {
            SAPComponent::GuiModalWindow(GuiModalWindow { handle: h })
        } else if str_eq(t, "NetChart") {
            SAPComponent::GuiNetChart(GuiNetChart { handle: h })
        } else if str_eq(t, "OfficeIntegration") {
            SAPComponent::GuiOfficeIntegration(GuiOfficeIntegration { handle: h })
        } else if str_eq(t, "GuiOkCodeField") {
            SAPComponent::GuiOkCodeField(GuiOkCodeField { handle: h })
        } else if str_eq(t, "GuiPasswordField") {
            SAPComponent::GuiPasswordField(GuiPasswordField { handle: h })
        } else if str_eq(t, "Picture") {
            SAPComponent::GuiPicture(GuiPicture { handle: h })
        } else if str_eq(t, "GuiRadioButton") {
            SAPComponent::GuiRadioButton(GuiRadioButton { handle: h })
        } else if str_eq(t, "SapChart") {
            SAPComponent::GuiSapChart(GuiSapChart { handle: h })
        } else if str_eq(t, "GuiScrollbar") {
            SAPComponent::GuiScrollbar(GuiScrollbar { handle: h })
        } else if str_eq(t, "GuiScrollContainer") {
            SAPComponent::GuiScrollContainer(GuiScrollContainer { handle: h })
        } else if str_eq(t, "GuiSession") {
            SAPComponent::GuiSession(GuiSession { handle: h })
        } else if str_eq(t, "GuiShell") {
            SAPComponent::GuiShell(GuiShell { handle: h })
        } else if str_eq(t, "GuiSimpleContainer") {
            SAPComponent::GuiSimpleContainer(GuiSimpleContainer { handle: h })
        } else if str_eq(t, "Split") {
            SAPComponent::GuiSplit(GuiSplit { handle: h })
        } else if str_eq(t, "SplitterContainer") {
            SAPComponent::GuiSplitterContainer(GuiSplitterContainer { handle: h })
        } else if str_eq(t, "Stage") {
            SAPComponent::GuiStage(GuiStage { handle: h })
        } else if str_eq(t, "GuiStatusbar") {
            SAPComponent::GuiStatusbar(GuiStatusbar { handle: h })
        } else if str_eq(t, "GuiStatusPane") {
            SAPComponent::GuiStatusPane(GuiStatusPane { handle: h })
        } else if str_eq(t, "GuiTab") {
            SAPComponent::GuiTab(GuiTab { handle: h })
        } else if str_eq(t, "GuiTableControl") {
            SAPComponent::GuiTableControl(GuiTableControl { handle: h })
        } else if str_eq(t, "GuiTabStrip") {
            SAPComponent::GuiTabStrip(GuiTabStrip { handle: h })
        } else if str_eq(t, "Textedit") {
            SAPComponent::GuiTextedit(GuiTextedit { handle: h })
        } else if str_eq(t, "GuiTextField") {
            SAPComponent::GuiTextField(GuiTextField { handle: h })
        } else if str_eq(t, "GuiTitlebar") {
            SAPComponent::GuiTitlebar(GuiTitlebar { handle: h })
        } else if str_eq(t, "GuiToolbar") {
            SAPComponent::GuiToolbar(GuiToolbar { handle: h })
        } else if str_eq(t, "Tree") {
            SAPComponent::GuiTree(GuiTree { handle: h })
        } else if str_eq(t, "GuiUserArea") {
            SAPComponent::GuiUserArea(GuiUserArea { handle: h })
        } else if str_eq(t, "GuiVComponent") {
            SAPComponent::GuiVComponent(GuiVComponent { handle: h })
        } else if str_eq(t, "GuiVContainer") {
            SAPComponent::GuiVContainer(GuiVContainer { handle: h })
        } else if str_eq(t, "GuiVHViewSwitch") {
            SAPComponent::GuiVHViewSwitch(GuiVHViewSwitch { handle: h })
        } else {
            SAPComponent::GuiComponent(GuiComponent { handle: h })
        }
    }

    /// Decode a wire value as an object reference and discriminate it:
    /// the union-typed counterpart of the handle decode.  Only an
    /// object-reference value converts; nothing is issued for any other
    /// variant.
    pub fn from_value(rt: &mut MockRuntime, v: &ComValue) -> (r: Result<
        SAPComponent,
        ConversionError,
    >)
        ensures
            final(rt)@.objects == old(rt)@.objects,
            final(rt)@.rot_wrapper == old(rt)@.rot_wrapper,
            match v@ {
                ValueView::Object(id) => {
                    let nh = ObjectHandle { id: id as usize };
                    &&& final(rt)@.log == discriminate_log(old(rt)@, nh)
                    &&& (r matches Ok(c) && component_handle(c) == nh && component_kind(c)
                        == table_kind(discriminate_tag(old(rt)@, nh)))
                },
                _ => final(rt)@.log == old(rt)@.log && r == Err::<
                    SAPComponent,
                    ConversionError,
                >(ConversionError::TypeMismatch),
            },
    {
        match v.to_object() {
            Ok(h) => Ok(SAPComponent::from_handle(rt, h)),
            Err(e) => Err(e),
        }
    }

    /// Extract the wrapper of a concrete type from the union: `Some`
    /// exactly when the carried variant is that type.  No remote query is
    /// issued; this is the variant test of an already discriminated value.
    pub fn downcast<T: SapObject>(self) -> (r: Option<T>)
        ensures
            match r {
                Some(x) => component_kind(self) == T::kind_spec() && x.handle_spec()
                    == component_handle(self),
                None => component_kind(self) != T::kind_spec(),
            },
    {
        T::from_component(self)
    }

    /// The handle the carried wrapper owns.
    pub fn handle(&self) -> (h: ObjectHandle)
        ensures
            h == component_handle(*self),
    {
        match self {
            SAPComponent::GuiApplication(x) => x.handle,
            SAPComponent::GuiBarChart(x) => x.handle,
            SAPComponent::GuiBox(x) => x.handle,
            SAPComponent::GuiButton(x) => x.handle,
            SAPComponent::GuiCalendar(x) => x.handle,
            SAPComponent::GuiChart(x) => x.handle,
            SAPComponent::GuiCheckBox(x) => x.handle,
            SAPComponent::GuiColorSelector(x) => x.handle,
            SAPComponent::GuiComboBox(x) => x.handle,
            SAPComponent::GuiComboBoxControl(x) => x.handle,
            SAPComponent::GuiComboBoxEntry(x) => x.handle,
            SAPComponent::GuiComponent(x) => x.handle,
            SAPComponent::GuiConnection(x) => x.handle,
            SAPComponent::GuiContainer(x) => x.handle,
            SAPComponent::GuiContainerShell(x) => x.handle,
            SAPComponent::GuiCTextField(x) => x.handle,
            SAPComponent::GuiCustomControl(x) => x.handle,
            SAPComponent::GuiDialogShell(x) => x.handle,
            SAPComponent::GuiEAIViewer2D(x) => x.handle,
            SAPComponent::GuiEAIViewer3D(x) => x.handle,
            SAPComponent::GuiFrameWindow(x) => x.handle,
            SAPComponent::GuiGOSShell(x) => x.handle,
            SAPComponent::GuiGraphAdapt(x) => x.handle,
            SAPComponent::GuiGridView(x) => x.handle,
            SAPComponent::GuiHTMLViewer(x) => x.handle,
            SAPComponent::GuiInputFieldControl(x) => x.handle,
            SAPComponent::GuiLabel(x) => x.handle,
            SAPComponent::GuiMainWindow(x) => x.handle,
            SAPComponent::GuiMap(x) => x.handle,
            SAPComponent::GuiMenu(x) => x.handle,
            SAPComponent::GuiMenubar(x) => x.handle,
            SAPComponent::GuiModalWindow(x) => x.handle,
            SAPComponent::GuiNetChart(x) => x.handle,
            SAPComponent::GuiOfficeIntegration(x) => x.handle,
            SAPComponent::GuiOkCodeField(x) => x.handle,
            SAPComponent::GuiPasswordField(x) => x.handle,
            SAPComponent::GuiPicture(x) => x.handle,
            SAPComponent::GuiRadioButton(x) => x.handle,
            SAPComponent::GuiSapChart(x) => x.handle,
            SAPComponent::GuiScrollbar(x) => x.handle,
            SAPComponent::GuiScrollContainer(x) => x.handle,
            SAPComponent::GuiSession(x) => x.handle,
            SAPComponent::GuiShell(x) => x.handle,
            SAPComponent::GuiSimpleContainer(x) => x.handle,
            SAPComponent::GuiSplit(x) => x.handle,
            SAPComponent::GuiSplitterContainer(x) => x.handle,
            SAPComponent::GuiStage(x) => x.handle,
            SAPComponent::GuiStatusbar(x) => x.handle,
            SAPComponent::GuiStatusPane(x) => x.handle,
            SAPComponent::GuiTab(x) => x.handle,
            SAPComponent::GuiTableControl(x) => x.handle,
            SAPComponent::GuiTabStrip(x) => x.handle,
            SAPComponent::GuiTextedit(x) => x.handle,
            SAPComponent::GuiTextField(x) => x.handle,
            SAPComponent::GuiTitlebar(x) => x.handle,
            SAPComponent::GuiToolbar(x) => x.handle,
            SAPComponent::GuiTree(x) => x.handle,
            SAPComponent::GuiUserArea(x) => x.handle,
            SAPComponent::GuiVComponent(x) => x.handle,
            SAPComponent::GuiVContainer(x) => x.handle,
            SAPComponent::GuiVHViewSwitch(x) => x.handle,
        }
    }
}

impl GuiButton {
    /// Press the button.  The remote protocol gives no idempotence
    /// guarantee for this call: it is never retried here, and the remote
    /// application may invalidate child handles below the active window
    /// in response.
    pub fn press(&self, rt: &mut MockRuntime) -> (r: Result<(), InvocationError>)
        ensures
            final(rt)@.objects == old(rt)@.objects,
            final(rt)@.rot_wrapper == old(rt)@.rot_wrapper,
            final(rt)@.log == log_after(
                old(rt)@,
                self.handle,
                DispatchOp::Method,
                "Press"@,
                Seq::<ValueView>::empty(),
            ),
            match (r, crate::runtime::spec_invoke(
                old(rt)@,
                self.handle,
                "Press"@,
                Seq::<ValueView>::empty(),
            )) {
                (Ok(_), Ok(_)) => true,
                (Err(e), Err(f)) => e@ == f,
                _ => false,
            },
    {
        let args: Vec<ComValue> = Vec::new();
        proof {
            assert(args.deep_view() =~= Seq::<ValueView>::empty());
        }
        match rt.invoke(self.handle, "Press", args) {
            Ok(_) => Ok(()),
            Err(e) => Err(e),
        }
    }
}

impl GuiComponent {
    /// Attempt to view this generic wrapper as the concrete type `T` by
    /// resolving the handle's tag (the two-step query included) and
    /// comparing it with `T`'s expected tag: `Some` on an exact match,
    /// `None` on any other tag or a failed tag query — never an error.
    pub fn downcast<T: SapObject>(&self, rt: &mut MockRuntime) -> (r: Option<T>)
        ensures
            final(rt)@.objects == old(rt)@.objects,
            final(rt)@.rot_wrapper == old(rt)@.rot_wrapper,
            final(rt)@.log == discriminate_log(old(rt)@, self.handle),
            match r {
                Some(x) => str_get_result(old(rt)@, self.handle, "Type"@) is Ok
                    && discriminate_tag(old(rt)@, self.handle) == T::tag_spec()
                    && x.handle_spec() == self.handle,
                None => !(str_get_result(old(rt)@, self.handle, "Type"@) is Ok
                    && discriminate_tag(old(rt)@, self.handle) == T::tag_spec()),
            },
    {
        match resolve_tag(rt, self.handle) {
            Some(t) => {
                if str_eq(t.as_str(), T::expected_tag()) {
                    Some(T::wrap(self.handle))
                } else {
                    None
                }
            },
            None => None,
        }
    }
}

/// The find family: invoke a server-side search member, decode the reply
/// as an object reference, and discriminate it.  The transcript records
/// the search call followed by the discrimination queries.
pub fn find_component(
    rt: &mut MockRuntime,
    h: ObjectHandle,
    member: &str,
    args: Vec<ComValue>,
) -> (r: Result<SAPComponent, InvocationError>)
    ensures
        final(rt)@.objects == old(rt)@.objects,
        final(rt)@.rot_wrapper == old(rt)@.rot_wrapper,
        final(rt)@.log == find_log(old(rt)@, h, member@, args.deep_view()),
        match r {
            Ok(c) => find_result(old(rt)@, h, member@, args.deep_view()) == Ok::<
                (ComponentKind, ObjectHandle),
                InvokeErrView,
            >((component_kind(c), component_handle(c))),
            Err(e) => find_result(old(rt)@, h, member@, args.deep_view()) == Err::<
                (ComponentKind, ObjectHandle),
                InvokeErrView,
            >(e@),
        },
{
    let v = match rt.invoke(h, member, args) {
        Ok(v) => v,
        Err(e) => {
            return Err(e);
        },
    };
    let nh = match v.to_object() {
        Ok(nh) => nh,
        Err(ce) => {
            return Err(InvocationError::Marshal(ce));
        },
    };
    Ok(SAPComponent::from_handle(rt, nh))
}

/// What the find family yields: the kind and handle of the wrapped
/// result, or the first failure along the way.
pub open spec fn find_result(
    rt: RuntimeView,
    h: ObjectHandle,
    member: Seq<char>,
    args: Seq<ValueView>,
) -> Result<(ComponentKind, ObjectHandle), InvokeErrView> {
    match spec_invoke(rt, h, member, args) {
        Err(e) => Err(e),
        Ok(v) => match v {
            ValueView::Object(id) => {
                let nh = ObjectHandle { id: id as usize };
                Ok((table_kind(discriminate_tag(rt, nh)), nh))
            },
            _ => Err(InvokeErrView::Marshal(ConversionError::TypeMismatch)),
        },
    }
}

/// The transcript after a find: the search call, then the discrimination
/// queries when the search returned an object reference.
pub open spec fn find_log(
    rt: RuntimeView,
    h: ObjectHandle,
    member: Seq<char>,
    args: Seq<ValueView>,
) -> Seq<CallView> {
    let l1 = log_after(rt, h, DispatchOp::Method, member, args);
    match spec_invoke(rt, h, member, args) {
        Err(_) => l1,
        Ok(v) => match v {
            ValueView::Object(id) => discriminate_log(
                with_log(rt, l1),
                ObjectHandle { id: id as usize },
            ),
            _ => l1,
        },
    }
}


/// Law: the table is consistent with the catalog — looking a kind's own
/// tag up in the table retrieves exactly that kind, so no two catalog
/// entries share a tag.
#[verifier::rlimit(100)]
#[verifier::spinoff_prover]
pub proof fn lemma_table_keys_distinct(k: ComponentKind)
    ensures
        table_kind(tag_of_kind(k)) == k,
{
    reveal_strlit("GuiApplication");
    reveal_strlit("BarChart");
    reveal_strlit("GuiBox");
    reveal_strlit("GuiButton");
    reveal_strlit("Calendar");
    reveal_strlit("Chart");
    reveal_strlit("GuiCheckBox");
    reveal_strlit("ColorSelector");
    reveal_strlit("GuiComboBox");
    reveal_strlit("ComboBoxControl");
    reveal_strlit("GuiComboBoxEntry");
    reveal_strlit("GuiComponent");
    reveal_strlit("GuiConnection");
    reveal_strlit("GuiContainer");
    reveal_strlit("ContainerShell");
    reveal_strlit("GuiCTextField");
    reveal_strlit("GuiCustomControl");
    reveal_strlit("GuiDialogShell");
    reveal_strlit("EAIViewer2D");
    reveal_strlit("EAIViewer3D");
    reveal_strlit("GuiFrameWindow");
    reveal_strlit("GuiGOSShell");
    reveal_strlit("GraphAdapt");
    reveal_strlit("GridView");
    reveal_strlit("HTMLViewer");
    reveal_strlit("InputFieldControl");
    reveal_strlit("GuiLabel");
    reveal_strlit("GuiMainWindow");
    reveal_strlit("Map");
    reveal_strlit("GuiMenu");
    reveal_strlit("GuiMenubar");
    reveal_strlit("GuiModalWindow");
    reveal_strlit("NetChart");
    reveal_strlit("OfficeIntegration");
    reveal_strlit("GuiOkCodeField");
    reveal_strlit("GuiPasswordField");
    reveal_strlit("Picture");
    reveal_strlit("GuiRadioButton");
    reveal_strlit("SapChart");
    reveal_strlit("GuiScrollbar");
    reveal_strlit("GuiScrollContainer");
    reveal_strlit("GuiSession");
    reveal_strlit("GuiShell");
    reveal_strlit("GuiSimpleContainer");
    reveal_strlit("Split");
    reveal_strlit("SplitterContainer");
    reveal_strlit("Stage");
    reveal_strlit("GuiStatusbar");
    reveal_strlit("GuiStatusPane");
    reveal_strlit("GuiTab");
    reveal_strlit("GuiTableControl");
    reveal_strlit("GuiTabStrip");
    reveal_strlit("Textedit");
    reveal_strlit("GuiTextField");
    reveal_strlit("GuiTitlebar");
    reveal_strlit("GuiToolbar");
    reveal_strlit("Tree");
    reveal_strlit("GuiUserArea");
    reveal_strlit("GuiVComponent");
    reveal_strlit("GuiVContainer");
    reveal_strlit("GuiVHViewSwitch");
    assert("GuiApplication"@.len() == 14);
    assert("BarChart"@.len() == 8);
    assert("GuiBox"@.len() == 6);
    assert("GuiButton"@.len() == 9);
    assert("Calendar"@.len() == 8);
    assert("Chart"@.len() == 5);
    assert("GuiCheckBox"@.len() == 11);
    assert("ColorSelector"@.len() == 13);
    assert("GuiComboBox"@.len() == 11);
    assert("ComboBoxControl"@.len() == 15);
    assert("GuiComboBoxEntry"@.len() == 16);
    assert("GuiComponent"@.len() == 12);
    assert("GuiConnection"@.len() == 13);
    assert("GuiContainer"@.len() == 12);
    assert("ContainerShell"@.len() == 14);
    assert("GuiCTextField"@.len() == 13);
    assert("GuiCustomControl"@.len() == 16);
    assert("GuiDialogShell"@.len() == 14);
    assert("EAIViewer2D"@.len() == 11);
    assert("EAIViewer3D"@.len() == 11);
    assert("GuiFrameWindow"@.len() == 14);
    assert("GuiGOSShell"@.len() == 11);
    assert("GraphAdapt"@.len() == 10);
    assert("GridView"@.len() == 8);
    assert("HTMLViewer"@.len() == 10);
    assert("InputFieldControl"@.len() == 17);
    assert("GuiLabel"@.len() == 8);
    assert("GuiMainWindow"@.len() == 13);
    assert("Map"@.len() == 3);
    assert("GuiMenu"@.len() == 7);
    assert("GuiMenubar"@.len() == 10);
    assert("GuiModalWindow"@.len() == 14);
    assert("NetChart"@.len() == 8);
    assert("OfficeIntegration"@.len() == 17);
    assert("GuiOkCodeField"@.len() == 14);
    assert("GuiPasswordField"@.len() == 16);
    assert("Picture"@.len() == 7);
    assert("GuiRadioButton"@.len() == 14);
    assert("SapChart"@.len() == 8);
    assert("GuiScrollbar"@.len() == 12);
    assert("GuiScrollContainer"@.len() == 18);
    assert("GuiSession"@.len() == 10);
    assert("GuiShell"@.len() == 8);
    assert("GuiSimpleContainer"@.len() == 18);
    assert("Split"@.len() == 5);
    assert("SplitterContainer"@.len() == 17);
    assert("Stage"@.len() == 5);
    assert("GuiStatusbar"@.len() == 12);
    assert("GuiStatusPane"@.len() == 13);
    assert("GuiTab"@.len() == 6);
    assert("GuiTableControl"@.len() == 15);
    assert("GuiTabStrip"@.len() == 11);
    assert("Textedit"@.len() == 8);
    assert("GuiTextField"@.len() == 12);
    assert("GuiTitlebar"@.len() == 11);
    assert("GuiToolbar"@.len() == 10);
    assert("Tree"@.len() == 4);
    assert("GuiUserArea"@.len() == 11);
    assert("GuiVComponent"@.len() == 13);
    assert("GuiVContainer"@.len() == 13);
    assert("GuiVHViewSwitch"@.len() == 15);
    assert("GuiApplication"@[0] == 'G');
    assert("GuiApplication"@[3] == 'A');
    assert("BarChart"@[0] == 'B');
    assert("GuiBox"@[3] == 'B');
    assert("Calendar"@[0] == 'C');
    assert("Chart"@[0] == 'C');
    assert("GuiCheckBox"@[0] == 'G');
    assert("GuiCheckBox"@[3] == 'C');
    assert("GuiCheckBox"@[4] == 'h');
    assert("ColorSelector"@[0] == 'C');
    assert("GuiComboBox"@[0] == 'G');
    assert("GuiComboBox"@[3] == 'C');
    assert("GuiComboBox"@[4] == 'o');
    assert("ComboBoxControl"@[0] == 'C');
    assert("GuiComboBoxEntry"@[3] == 'C');
    assert("GuiComboBoxEntry"@[4] == 'o');
    assert("GuiComponent"@[3] == 'C');
    assert("GuiComponent"@[5] == 'm');
    assert("GuiConnection"@[0] == 'G');
    assert("GuiConnection"@[3] == 'C');
    assert("GuiConnection"@[4] == 'o');
    assert("GuiContainer"@[3] == 'C');
    assert("GuiContainer"@[5] == 'n');
    assert("ContainerShell"@[0] == 'C');
    assert("GuiCTextField"@[0] == 'G');
    assert("GuiCTextField"@[3] == 'C');
    assert("GuiCTextField"@[4] == 'T');
    assert("GuiCustomControl"@[3] == 'C');
    assert("GuiCustomControl"@[4] == 'u');
    assert("GuiDialogShell"@[0] == 'G');
    assert("GuiDialogShell"@[3] == 'D');
    assert("EAIViewer2D"@[0] == 'E');
    assert("EAIViewer2D"@[9] == '2');
    assert("EAIViewer3D"@[0] == 'E');
    assert("EAIViewer3D"@[9] == '3');
    assert("GuiFrameWindow"@[0] == 'G');
    assert("GuiFrameWindow"@[3] == 'F');
    assert("GuiGOSShell"@[0] == 'G');
    assert("GuiGOSShell"@[3] == 'G');
    assert("GraphAdapt"@[0] == 'G');
    assert("GraphAdapt"@[1] == 'r');
    assert("GridView"@[0] == 'G');
    assert("GridView"@[1] == 'r');
    assert("HTMLViewer"@[0] == 'H');
    assert("InputFieldControl"@[0] == 'I');
    assert("GuiLabel"@[0] == 'G');
    assert("GuiLabel"@[1] == 'u');
    assert("GuiLabel"@[3] == 'L');
    assert("GuiMainWindow"@[0] == 'G');
    assert("GuiMainWindow"@[3] == 'M');
    assert("GuiMenu"@[0] == 'G');
    assert("GuiMenubar"@[0] == 'G');
    assert("GuiMenubar"@[1] == 'u');
    assert("GuiMenubar"@[3] == 'M');
    assert("GuiModalWindow"@[0] == 'G');
    assert("GuiModalWindow"@[3] == 'M');
    assert("NetChart"@[0] == 'N');
    assert("OfficeIntegration"@[0] == 'O');
    assert("GuiOkCodeField"@[0] == 'G');
    assert("GuiOkCodeField"@[3] == 'O');
    assert("GuiPasswordField"@[3] == 'P');
    assert("Picture"@[0] == 'P');
    assert("GuiRadioButton"@[0] == 'G');
    assert("GuiRadioButton"@[3] == 'R');
    assert("SapChart"@[0] == 'S');
    assert("GuiScrollbar"@[3] == 'S');
    assert("GuiScrollbar"@[4] == 'c');
    assert("GuiScrollContainer"@[4] == 'c');
    assert("GuiSession"@[0] == 'G');
    assert("GuiSession"@[1] == 'u');
    assert("GuiSession"@[3] == 'S');
    assert("GuiShell"@[0] == 'G');
    assert("GuiShell"@[1] == 'u');
    assert("GuiShell"@[3] == 'S');
    assert("GuiSimpleContainer"@[4] == 'i');
    assert("Split"@[0] == 'S');
    assert("Split"@[1] == 'p');
    assert("SplitterContainer"@[0] == 'S');
    assert("Stage"@[0] == 'S');
    assert("Stage"@[1] == 't');
    assert("GuiStatusbar"@[3] == 'S');
    assert("GuiStatusbar"@[4] == 't');
    assert("GuiStatusPane"@[0] == 'G');
    assert("GuiStatusPane"@[3] == 'S');
    assert("GuiTab"@[3] == 'T');
    assert("GuiTableControl"@[0] == 'G');
    assert("GuiTableControl"@[3] == 'T');
    assert("GuiTabStrip"@[0] == 'G');
    assert("GuiTabStrip"@[3] == 'T');
    assert("GuiTabStrip"@[4] == 'a');
    assert("Textedit"@[0] == 'T');
    assert("GuiTextField"@[3] == 'T');
    assert("GuiTitlebar"@[0] == 'G');
    assert("GuiTitlebar"@[3] == 'T');
    assert("GuiTitlebar"@[4] == 'i');
    assert("GuiToolbar"@[0] == 'G');
    assert("GuiToolbar"@[1] == 'u');
    assert("GuiToolbar"@[3] == 'T');
    assert("GuiUserArea"@[0] == 'G');
    assert("GuiUserArea"@[3] == 'U');
    assert("GuiVComponent"@[0] == 'G');
    assert("GuiVComponent"@[3] == 'V');
    assert("GuiVComponent"@[6] == 'm');
    assert("GuiVContainer"@[0] == 'G');
    assert("GuiVContainer"@[3] == 'V');
    assert("GuiVContainer"@[6] == 'n');
    assert("GuiVHViewSwitch"@[0] == 'G');
    assert("GuiVHViewSwitch"@[3] == 'V');
}

/// Law: every tag the table knows constructs the wrapper keyed by exactly
/// that tag, never the generic fallback (unless the tag is the fallback's
/// own).
pub proof fn lemma_discrimination_complete(t: Seq<char>)
    requires
        is_known_tag(t),
    ensures
        tag_of_kind(table_kind(t)) == t,
        t != fallback_tag() ==> table_kind(t) != ComponentKind::GuiComponent,
{
}

/// Law: a tag the table does not know constructs the generic fallback
/// wrapper, without error.
pub proof fn lemma_discrimination_fallback(t: Seq<char>)
    requires
        !is_known_tag(t),
    ensures
        table_kind(t) == ComponentKind::GuiComponent,
{
}

/// Law: the two downcast directions agree.  For a concrete catalog type
/// (not the generic fallback), the tag-comparing downcast of a handle
/// succeeds exactly when discrimination of that handle would construct
/// that type's variant.
pub proof fn lemma_downcast_directions_agree<T: SapObject>(t: Seq<char>)
    requires
        T::kind_spec() != ComponentKind::GuiComponent,
    ensures
        (t == T::tag_spec()) <==> (table_kind(t) == T::kind_spec()),
{
    T::tag_coherent();
    lemma_table_keys_distinct(T::kind_spec());
    if table_kind(t) == T::kind_spec() {
        lemma_discrimination_complete(t);
    }
}

/// Law: an object whose primary tag is the generic-shell sentinel and
/// whose secondary tag is the grid view's resolves to the grid view
/// wrapper, not to the generic shell.
pub proof fn lemma_two_step_discrimination(rt: RuntimeView, h: ObjectHandle)
    requires
        str_get_result(rt, h, "Type"@) == Ok::<Seq<char>, InvokeErrView>("GuiShell"@),
        str_get_result(rt, h, "SubType"@) == Ok::<Seq<char>, InvokeErrView>("GridView"@),
    ensures
        discriminate_tag(rt, h) == "GridView"@,
        table_kind(discriminate_tag(rt, h)) == ComponentKind::GuiGridView,
        table_kind(discriminate_tag(rt, h)) != ComponentKind::GuiShell,
{
    reveal_strlit("GuiComponent");
    reveal_strlit("GridView");
    assert("GuiComponent"@.len() == 12);
    assert("GridView"@.len() == 8);
}

} // verus!
