//! The scripted remote runtime.
//!
//! The real automation runtime lives in another process and is reached
//! through a foreign dispatch interface; nothing about it can be verified.
//! This module therefore models the remote side as data: a table of
//! objects, each with named members whose behavior is scripted, plus a
//! transcript of every operation issued.  The invocation primitive is
//! implemented and verified against this model, and every typed accessor
//! in the crate is specified in terms of it.  The unverified COM transport
//! mirrors the same operations outside the library.
//!
//! Every operation is a blocking round trip; calls are issued strictly
//! sequentially, and the transcript records them in program order.

use vstd::prelude::*;

use crate::codec::str_eq;
use crate::value::{ComValue, InvocationError, InvokeErrView, ObjectHandle, ValueView};

verus! {

/// The dispatch flavor of one issued operation: a method call, a property
/// read, or a property write.
#[derive(Clone, Copy, PartialEq, Eq, Structural, Debug)]
pub enum DispatchOp {
    Method,
    PropertyGet,
    PropertyPut,
}

/// Remote error code for using an indexed member without an index.
pub const CODE_NEEDS_INDEX: i32 = 1001;

/// Remote error code for an unusable or out-of-range index.
pub const CODE_BAD_INDEX: i32 = 1002;

/// Remote error code for indexing a member that takes no index.
pub const CODE_NOT_INDEXED: i32 = 1003;

/// Description accompanying `CODE_NEEDS_INDEX`.
pub open spec fn needs_index_text() -> Seq<char> {
    "member requires an index"@
}

/// Description accompanying `CODE_BAD_INDEX`.
pub open spec fn bad_index_text() -> Seq<char> {
    "index out of range"@
}

/// Description accompanying `CODE_NOT_INDEXED`.
pub open spec fn not_indexed_text() -> Seq<char> {
    "member does not take an index"@
}

/// The abstract shape of a member's scripted behavior.
#[verifier::ext_equal]
pub ghost enum BehaviorView {
    Value(ValueView),
    Indexed(Seq<ValueView>),
    Fails(int, Seq<char>),
}

/// The scripted behavior of one member of a scripted object.
pub enum MemberBehavior {
    /// A plain member: reads and calls reply with this value, writes
    /// replace it.
    Value(ComValue),
    /// An indexed member: a read parameterized by an in-range integer
    /// index replies with the element at that index.
    Indexed(Vec<ComValue>),
    /// A member the remote object rejects with its own error code and
    /// description.
    Fails(i32, String),
}

impl DeepView for MemberBehavior {
    type V = BehaviorView;

    open spec fn deep_view(&self) -> BehaviorView {
        match self {
            MemberBehavior::Value(v) => BehaviorView::Value(v@),
            MemberBehavior::Indexed(vs) => BehaviorView::Indexed(vs.deep_view()),
            MemberBehavior::Fails(c, d) => BehaviorView::Fails(*c as int, d@),
        }
    }
}

/// The abstract shape of one member.
#[verifier::ext_equal]
pub ghost struct MemberView {
    pub name: Seq<char>,
    pub behavior: BehaviorView,
}

/// One named member of a scripted object.
pub struct Member {
    pub name: String,
    pub behavior: MemberBehavior,
}

impl DeepView for Member {
    type V = MemberView;

    open spec fn deep_view(&self) -> MemberView {
        MemberView { name: self.name@, behavior: self.behavior.deep_view() }
    }
}

/// The abstract shape of one scripted object.
#[verifier::ext_equal]
pub ghost struct ObjectView {
    pub alive: bool,
    pub members: Seq<MemberView>,
}

/// One scripted remote object: a liveness flag and a member table.
pub struct RemoteObject {
    pub alive: bool,
    pub members: Vec<Member>,
}

impl DeepView for RemoteObject {
    type V = ObjectView;

    open spec fn deep_view(&self) -> ObjectView {
        ObjectView { alive: self.alive, members: self.members.deep_view() }
    }
}

/// The abstract shape of one transcript entry.
#[verifier::ext_equal]
pub ghost struct CallView {
    pub target: ObjectHandle,
    pub op: DispatchOp,
    pub member: Seq<char>,
    pub args: Seq<ValueView>,
}

/// One operation that actually reached a remote member: the target handle,
/// the dispatch flavor, the member name, and the positional arguments.
pub struct IssuedCall {
    pub target: ObjectHandle,
    pub op: DispatchOp,
    pub member: String,
    pub args: Vec<ComValue>,
}

impl DeepView for IssuedCall {
    type V = CallView;

    open spec fn deep_view(&self) -> CallView {
        CallView {
            target: self.target,
            op: self.op,
            member: self.member@,
            args: self.args.deep_view(),
        }
    }
}

/// The abstract state of the scripted runtime.
#[verifier::ext_equal]
pub ghost struct RuntimeView {
    pub objects: Seq<ObjectView>,
    pub log: Seq<CallView>,
    pub rot_wrapper: Option<ObjectHandle>,
}

/// A scripted remote runtime: the object table, the transcript of issued
/// operations, and the designated scripting wrapper object, if installed.
pub struct MockRuntime {
    objects: Vec<RemoteObject>,
    log: Vec<IssuedCall>,
    rot_wrapper: Option<ObjectHandle>,
}

impl View for MockRuntime {
    type V = RuntimeView;

    closed spec fn view(&self) -> RuntimeView {
        RuntimeView {
            objects: self.objects.deep_view(),
            log: self.log.deep_view(),
            rot_wrapper: self.rot_wrapper,
        }
    }
}

/// A member identifier, valid for the object instance it was resolved on:
/// the stable slot the remote runtime assigned to the name.
#[derive(Clone, Copy, PartialEq, Eq, Structural, Debug)]
pub struct MemberId {
    pub slot: usize,
}

/// Does `h` refer to a live object of `rt`?
pub open spec fn handle_live(rt: RuntimeView, h: ObjectHandle) -> bool {
    h.id < rt.objects.len() && rt.objects[h.id as int].alive
}

/// The member table of the object `h` refers to.
pub open spec fn members_of(rt: RuntimeView, h: ObjectHandle) -> Seq<MemberView> {
    rt.objects[h.id as int].members
}

/// Is `i` the first slot of `ms` whose member is named `n`?
pub open spec fn slot_matches(ms: Seq<MemberView>, n: Seq<char>, i: int) -> bool {
    &&& 0 <= i < ms.len()
    &&& ms[i].name == n
    &&& forall|j: int| 0 <= j < i ==> (#[trigger] ms[j]).name != n
}

/// Does `ms` contain a member named `n`?
pub open spec fn has_member(ms: Seq<MemberView>, n: Seq<char>) -> bool {
    exists|i: int| 0 <= i < ms.len() && (#[trigger] ms[i]).name == n
}

/// The first slot of `ms` whose member is named `n`.
pub open spec fn first_slot(ms: Seq<MemberView>, n: Seq<char>) -> int {
    choose|i: int| slot_matches(ms, n, i)
}

/// Two slots that are both first matches are the same slot.
pub proof fn lemma_slot_unique(ms: Seq<MemberView>, n: Seq<char>, i: int, j: int)
    requires
        slot_matches(ms, n, i),
        slot_matches(ms, n, j),
    ensures
        i == j,
{
}

/// Every contained name has a first slot.
pub proof fn lemma_first_slot_exists(ms: Seq<MemberView>, n: Seq<char>)
    requires
        has_member(ms, n),
    ensures
        slot_matches(ms, n, first_slot(ms, n)),
{
    let k = choose|i: int| 0 <= i < ms.len() && (#[trigger] ms[i]).name == n;
    lemma_min_slot(ms, n, k);
    assert(slot_matches(ms, n, first_slot(ms, n))) by {
        let w = choose|i: int| slot_matches(ms, n, i);
        assert(slot_matches(ms, n, w));
    }
}

proof fn lemma_min_slot(ms: Seq<MemberView>, n: Seq<char>, k: int)
    requires
        0 <= k < ms.len(),
        ms[k].name == n,
    ensures
        exists|i: int| slot_matches(ms, n, i),
    decreases k,
{
    if forall|j: int| 0 <= j < k ==> (#[trigger] ms[j]).name != n {
        assert(slot_matches(ms, n, k));
    } else {
        let j = choose|j: int| 0 <= j < k && (#[trigger] ms[j]).name == n;
        lemma_min_slot(ms, n, j);
    }
}

/// The behavior of the member of `ms` named `n` (the first slot, if any).
pub open spec fn behavior_of(ms: Seq<MemberView>, n: Seq<char>) -> BehaviorView {
    ms[first_slot(ms, n)].behavior
}

/// What resolving `n` on `h` and reading the member's script yields.
pub open spec fn op_reply(rt: RuntimeView, h: ObjectHandle, n: Seq<char>) -> Result<
    BehaviorView,
    InvokeErrView,
> {
    if !handle_live(rt, h) {
        Err(InvokeErrView::HandleInvalid)
    } else if !has_member(members_of(rt, h), n) {
        Err(InvokeErrView::UnknownMember)
    } else {
        Ok(behavior_of(members_of(rt, h), n))
    }
}

/// Was an operation on member `n` of `h` actually issued to the remote
/// side (the handle was live and the name resolved)?
pub open spec fn issued(rt: RuntimeView, h: ObjectHandle, n: Seq<char>) -> bool {
    handle_live(rt, h) && has_member(members_of(rt, h), n)
}

/// The transcript after an operation: one entry was appended exactly when
/// the operation was issued.
pub open spec fn log_after(
    rt: RuntimeView,
    h: ObjectHandle,
    op: DispatchOp,
    n: Seq<char>,
    args: Seq<ValueView>,
) -> Seq<CallView> {
    if issued(rt, h, n) {
        rt.log.push(CallView { target: h, op, member: n, args })
    } else {
        rt.log
    }
}

/// Looking up an element of an indexed member: the index must be an
/// in-range integer.
pub open spec fn indexed_lookup(vs: Seq<ValueView>, idx: ValueView) -> Result<
    ValueView,
    InvokeErrView,
> {
    match idx {
        ValueView::Int32(i) => if 0 <= i < vs.len() {
            Ok(vs[i])
        } else {
            Err(InvokeErrView::RemoteFailure(CODE_BAD_INDEX as int, bad_index_text()))
        },
        ValueView::Int64(i) => if 0 <= i < vs.len() {
            Ok(vs[i])
        } else {
            Err(InvokeErrView::RemoteFailure(CODE_BAD_INDEX as int, bad_index_text()))
        },
        _ => Err(InvokeErrView::RemoteFailure(CODE_BAD_INDEX as int, bad_index_text())),
    }
}

/// What a method invocation replies: the scripted value for a plain
/// member, an element lookup for an indexed member called with a single
/// integer argument, and the scripted failure for a failing member.
pub open spec fn spec_invoke(
    rt: RuntimeView,
    h: ObjectHandle,
    n: Seq<char>,
    args: Seq<ValueView>,
) -> Result<ValueView, InvokeErrView> {
    match op_reply(rt, h, n) {
        Err(e) => Err(e),
        Ok(b) => match b {
            BehaviorView::Value(v) => Ok(v),
            BehaviorView::Indexed(vs) => if args.len() == 1 {
                indexed_lookup(vs, args[0])
            } else {
                Err(InvokeErrView::RemoteFailure(CODE_BAD_INDEX as int, bad_index_text()))
            },
            BehaviorView::Fails(c, d) => Err(InvokeErrView::RemoteFailure(c, d)),
        },
    }
}

/// What a zero-argument property read replies.
pub open spec fn spec_get(rt: RuntimeView, h: ObjectHandle, n: Seq<char>) -> Result<
    ValueView,
    InvokeErrView,
> {
    match op_reply(rt, h, n) {
        Err(e) => Err(e),
        Ok(b) => match b {
            BehaviorView::Value(v) => Ok(v),
            BehaviorView::Indexed(_) => Err(
                InvokeErrView::RemoteFailure(CODE_NEEDS_INDEX as int, needs_index_text()),
            ),
            BehaviorView::Fails(c, d) => Err(InvokeErrView::RemoteFailure(c, d)),
        },
    }
}

/// What an indexed property read replies.
pub open spec fn spec_get_indexed(
    rt: RuntimeView,
    h: ObjectHandle,
    n: Seq<char>,
    idx: ValueView,
) -> Result<ValueView, InvokeErrView> {
    match op_reply(rt, h, n) {
        Err(e) => Err(e),
        Ok(b) => match b {
            BehaviorView::Value(_) => Err(
                InvokeErrView::RemoteFailure(CODE_NOT_INDEXED as int, not_indexed_text()),
            ),
            BehaviorView::Indexed(vs) => indexed_lookup(vs, idx),
            BehaviorView::Fails(c, d) => Err(InvokeErrView::RemoteFailure(c, d)),
        },
    }
}

/// What a property write replies: only a plain member accepts a write.
pub open spec fn spec_set(rt: RuntimeView, h: ObjectHandle, n: Seq<char>, v: ValueView) -> Result<
    (),
    InvokeErrView,
> {
    match op_reply(rt, h, n) {
        Err(e) => Err(e),
        Ok(b) => match b {
            BehaviorView::Value(_) => Ok(()),
            BehaviorView::Indexed(_) => Err(
                InvokeErrView::RemoteFailure(CODE_NEEDS_INDEX as int, needs_index_text()),
            ),
            BehaviorView::Fails(c, d) => Err(InvokeErrView::RemoteFailure(c, d)),
        },
    }
}

/// What an indexed property write replies.
pub open spec fn spec_set_indexed(
    rt: RuntimeView,
    h: ObjectHandle,
    n: Seq<char>,
    idx: ValueView,
    v: ValueView,
) -> Result<(), InvokeErrView> {
    match op_reply(rt, h, n) {
        Err(e) => Err(e),
        Ok(b) => match b {
            BehaviorView::Value(_) => Err(
                InvokeErrView::RemoteFailure(CODE_NOT_INDEXED as int, not_indexed_text()),
            ),
            BehaviorView::Indexed(vs) => match indexed_lookup(vs, idx) {
                Ok(_) => Ok(()),
                Err(e) => Err(e),
            },
            BehaviorView::Fails(c, d) => Err(InvokeErrView::RemoteFailure(c, d)),
        },
    }
}

/// The member table of `h` after a successful write of `v` to member `n`.
pub open spec fn members_after_set(
    rt: RuntimeView,
    h: ObjectHandle,
    n: Seq<char>,
    b: BehaviorView,
) -> Seq<MemberView> {
    let ms = members_of(rt, h);
    let i = first_slot(ms, n);
    ms.update(i, MemberView { name: ms[i].name, behavior: b })
}

/// The object table after a property write: unchanged unless the write
/// succeeded, in which case exactly the written member changed.
pub open spec fn objects_after_set(rt: RuntimeView, h: ObjectHandle, n: Seq<char>, v: ValueView)
    -> Seq<ObjectView> {
    if spec_set(rt, h, n, v) is Ok {
        let o = rt.objects[h.id as int];
        rt.objects.update(
            h.id as int,
            ObjectView { alive: o.alive, members: members_after_set(rt, h, n, BehaviorView::Value(v)) },
        )
    } else {
        rt.objects
    }
}

/// The object table after an indexed property write.
pub open spec fn objects_after_set_indexed(
    rt: RuntimeView,
    h: ObjectHandle,
    n: Seq<char>,
    idx: ValueView,
    v: ValueView,
) -> Seq<ObjectView> {
    if spec_set_indexed(rt, h, n, idx, v) is Ok {
        let ms = members_of(rt, h);
        let vs = behavior_of(ms, n)->Indexed_0;
        let i = spec_index_of(idx);
        let o = rt.objects[h.id as int];
        rt.objects.update(
            h.id as int,
            ObjectView {
                alive: o.alive,
                members: members_after_set(rt, h, n, BehaviorView::Indexed(vs.update(i, v))),
            },
        )
    } else {
        rt.objects
    }
}

/// The integer carried by an integer wire value.
pub open spec fn spec_index_of(idx: ValueView) -> int {
    match idx {
        ValueView::Int32(i) => i,
        ValueView::Int64(i) => i,
        _ => 0,
    }
}

/// Does the exec reply match the specified reply?
pub open spec fn reply_matches(
    r: Result<ComValue, InvocationError>,
    m: Result<ValueView, InvokeErrView>,
) -> bool {
    match (r, m) {
        (Ok(v), Ok(w)) => v@ == w,
        (Err(e), Err(f)) => e@ == f,
        _ => false,
    }
}

/// Does the exec unit reply match the specified reply?
pub open spec fn unit_matches(
    r: Result<(), InvocationError>,
    m: Result<(), InvokeErrView>,
) -> bool {
    match (r, m) {
        (Ok(_), Ok(_)) => true,
        (Err(e), Err(f)) => e@ == f,
        _ => false,
    }
}

/// Find the first member of `ms` named `name`.
fn find_slot(ms: &Vec<Member>, name: &str) -> (r: Option<usize>)
    ensures
        match r {
            Some(i) => slot_matches(ms.deep_view(), name@, i as int),
            None => !has_member(ms.deep_view(), name@),
        },
{
    let n = ms.len();
    let mut i: usize = 0;
    while i < n
        invariant
            i <= n,
            n == ms@.len(),
            forall|j: int| 0 <= j < i ==> (#[trigger] ms.deep_view()[j]).name != name@,
        decreases n - i,
    {
        if str_eq(name, ms[i].name.as_str()) {
            assert(ms.deep_view()[i as int].name == name@);
            return Some(i);
        }
        assert(ms.deep_view()[i as int].name != name@);
        i = i + 1;
    }
    None
}

/// The remote failure reported for an unusable index.
fn bad_index_err() -> (e: InvocationError)
    ensures
        e@ == InvokeErrView::RemoteFailure(CODE_BAD_INDEX as int, bad_index_text()),
{
    InvocationError::RemoteFailure {
        code: CODE_BAD_INDEX,
        description: String::from_str("index out of range"),
    }
}

/// Look up one element of an indexed member.
fn lookup_indexed(vs: &Vec<ComValue>, idx: &ComValue) -> (r: Result<ComValue, InvocationError>)
    ensures
        reply_matches(r, indexed_lookup(vs.deep_view(), idx@)),
{
    match idx {
        ComValue::Int32(i) => {
            if *i >= 0 && (*i as u64) < (vs.len() as u64) {
                assert(*i as usize == *i as int);
                let r = vs[*i as usize].duplicate();
                assert(r@ == vs.deep_view()[*i as int]);
                Ok(r)
            } else {
                Err(bad_index_err())
            }
        },
        ComValue::Int64(i) => {
            if *i >= 0 && (*i as u64) < (vs.len() as u64) {
                assert(*i as usize == *i as int);
                let r = vs[*i as usize].duplicate();
                assert(r@ == vs.deep_view()[*i as int]);
                Ok(r)
            } else {
                Err(bad_index_err())
            }
        },
        _ => Err(bad_index_err()),
    }
}

impl MockRuntime {
    /// An empty runtime: no objects, an empty transcript, no wrapper.
    pub fn new() -> (r: MockRuntime)
        ensures
            r@.objects =~= Seq::<ObjectView>::empty(),
            r@.log =~= Seq::<CallView>::empty(),
            r@.rot_wrapper is None,
    {
        MockRuntime { objects: Vec::new(), log: Vec::new(), rot_wrapper: None }
    }

    /// Create a live object with no members and return its handle.
    pub fn add_object(&mut self) -> (h: ObjectHandle)
        ensures
            h.id == old(self)@.objects.len(),
            final(self)@.objects =~= old(self)@.objects.push(
                ObjectView { alive: true, members: Seq::<MemberView>::empty() },
            ),
            final(self)@.log == old(self)@.log,
            final(self)@.rot_wrapper == old(self)@.rot_wrapper,
    {
        let h = ObjectHandle { id: self.objects.len() };
        let obj = RemoteObject { alive: true, members: Vec::new() };
        proof {
            assert(obj.deep_view().members =~= Seq::<MemberView>::empty());
            assert(obj.deep_view() =~~= ObjectView {
                alive: true,
                members: Seq::<MemberView>::empty(),
            });
        }
        self.objects.push(obj);
        proof {
            assert(self@.objects =~= old(self)@.objects.push(
                ObjectView { alive: true, members: Seq::<MemberView>::empty() },
            ));
        }
        h
    }

    /// Script one member of an existing object.  The member is appended;
    /// resolution always finds the first member with a given name.
    pub fn add_member(&mut self, h: ObjectHandle, name: &str, behavior: MemberBehavior)
        requires
            h.id < old(self)@.objects.len(),
        ensures
            final(self)@.objects =~= old(self)@.objects.update(
                h.id as int,
                ObjectView {
                    alive: old(self)@.objects[h.id as int].alive,
                    members: old(self)@.objects[h.id as int].members.push(
                        MemberView { name: name@, behavior: behavior.deep_view() },
                    ),
                },
            ),
            final(self)@.log == old(self)@.log,
            final(self)@.rot_wrapper == old(self)@.rot_wrapper,
    {
        let ghost b = behavior.deep_view();
        self.objects[h.id].members.push(Member { name: name.to_owned(), behavior });
        proof {
            assert(self@.objects[h.id as int].members =~= old(self)@.objects[h.id as int].members
                .push(MemberView { name: name@, behavior: b }));
            assert(self@.objects =~= old(self)@.objects.update(
                h.id as int,
                ObjectView {
                    alive: old(self)@.objects[h.id as int].alive,
                    members: old(self)@.objects[h.id as int].members.push(
                        MemberView { name: name@, behavior: b },
                    ),
                },
            ));
        }
    }

    /// Mark an object dead, simulating the remote side invalidating it
    /// (a closed session or window).  Its handle stays allocated and every
    /// later operation through it fails with `HandleInvalid`.
    pub fn close_object(&mut self, h: ObjectHandle)
        requires
            h.id < old(self)@.objects.len(),
        ensures
            final(self)@.objects =~= old(self)@.objects.update(
                h.id as int,
                ObjectView { alive: false, members: old(self)@.objects[h.id as int].members },
            ),
            final(self)@.log == old(self)@.log,
            final(self)@.rot_wrapper == old(self)@.rot_wrapper,
    {
        self.objects[h.id].alive = false;
        proof {
            assert(self@.objects =~= old(self)@.objects.update(
                h.id as int,
                ObjectView { alive: false, members: old(self)@.objects[h.id as int].members },
            ));
        }
    }

    /// Designate the object that stands for the scripting wrapper the
    /// connection entry point hands out.
    pub fn install_wrapper(&mut self, h: ObjectHandle)
        ensures
            final(self)@.objects == old(self)@.objects,
            final(self)@.log == old(self)@.log,
            final(self)@.rot_wrapper == Some(h),
    {
        self.rot_wrapper = Some(h);
    }

    /// The designated scripting wrapper object, if one is installed.
    pub fn wrapper_entry(&self) -> (r: Option<ObjectHandle>)
        ensures
            r == self@.rot_wrapper,
    {
        self.rot_wrapper
    }

    /// The transcript of every operation issued so far, in program order.
    pub fn transcript(&self) -> (r: &Vec<IssuedCall>)
        ensures
            r.deep_view() == self@.log,
    {
        &self.log
    }

    /// Translate a member name into the identifier the remote runtime
    /// assigned to it on this object.  Resolution is a pure query: it can
    /// vary between object instances and issues no operation.
    pub fn resolve_member(&self, h: ObjectHandle, name: &str) -> (r: Result<
        MemberId,
        InvocationError,
    >)
        ensures
            match r {
                Ok(m) => handle_live(self@, h) && slot_matches(
                    members_of(self@, h),
                    name@,
                    m.slot as int,
                ),
                Err(e) => if !handle_live(self@, h) {
                    e@ == InvokeErrView::HandleInvalid
                } else {
                    !has_member(members_of(self@, h), name@) && e@
                        == InvokeErrView::UnknownMember
                },
            },
    {
        if h.id >= self.objects.len() {
            return Err(InvocationError::HandleInvalid);
        }
        if !self.objects[h.id].alive {
            return Err(InvocationError::HandleInvalid);
        }
        match find_slot(&self.objects[h.id].members, name) {
            Some(i) => Ok(MemberId { slot: i }),
            None => Err(InvocationError::UnknownMember),
        }
    }

    /// The reply for the resolved member `name` of `h`, shared by the
    /// read-only operations.  `None` means the name did not resolve.
    fn resolved_behavior(&self, h: ObjectHandle, name: &str) -> (r: Result<
        usize,
        InvocationError,
    >)
        ensures
            match r {
                Ok(i) => issued(self@, h, name@) && slot_matches(
                    members_of(self@, h),
                    name@,
                    i as int,
                ) && behavior_of(members_of(self@, h), name@) == members_of(self@, h)[i as int]
                    .behavior,
                Err(e) => !issued(self@, h, name@) && e@ == (match op_reply(self@, h, name@) {
                    Err(f) => f,
                    Ok(_) => InvokeErrView::UnknownMember,
                }),
            },
    {
        match self.resolve_member(h, name) {
            Ok(m) => {
                proof {
                    lemma_first_slot_exists(members_of(self@, h), name@);
                    lemma_slot_unique(
                        members_of(self@, h),
                        name@,
                        m.slot as int,
                        first_slot(members_of(self@, h), name@),
                    );
                }
                Ok(m.slot)
            },
            Err(e) => Err(e),
        }
    }

    /// Invoke member `name` of `h` as a method with positional arguments.
    ///
    /// Arguments are not validated locally; the scripted member decides the
    /// reply.  Exactly when the name resolves on a live handle, one
    /// transcript entry is recorded, whatever the remote outcome.
    pub fn invoke(&mut self, h: ObjectHandle, name: &str, args: Vec<ComValue>) -> (r: Result<
        ComValue,
        InvocationError,
    >)
        ensures
            final(self)@.objects == old(self)@.objects,
            final(self)@.rot_wrapper == old(self)@.rot_wrapper,
            final(self)@.log =~= log_after(
                old(self)@,
                h,
                DispatchOp::Method,
                name@,
                args.deep_view(),
            ),
            reply_matches(r, spec_invoke(old(self)@, h, name@, args.deep_view())),
    {
        let slot = match self.resolved_behavior(h, name) {
            Ok(i) => i,
            Err(e) => {
                return Err(e);
            },
        };
        let reply: Result<ComValue, InvocationError> = match &self.objects[h.id].members[
            slot
        ].behavior {
            MemberBehavior::Value(v) => Ok(v.duplicate()),
            MemberBehavior::Indexed(vs) => {
                if args.len() == 1 {
                    lookup_indexed(vs, &args[0])
                } else {
                    Err(InvocationError::RemoteFailure {
                        code: CODE_BAD_INDEX,
                        description: String::from_str("index out of range"),
                    })
                }
            },
            MemberBehavior::Fails(c, d) => Err(InvocationError::RemoteFailure {
                code: *c,
                description: d.clone(),
            }),
        };
        self.log.push(IssuedCall { target: h, op: DispatchOp::Method, member: name.to_owned(), args });
        proof {
            assert(self@.log =~= old(self)@.log.push(
                CallView {
                    target: h,
                    op: DispatchOp::Method,
                    member: name@,
                    args: args.deep_view(),
                },
            ));
        }
        reply
    }

    /// Read member `name` of `h` as a property with no arguments.
    pub fn get(&mut self, h: ObjectHandle, name: &str) -> (r: Result<ComValue, InvocationError>)
        ensures
            final(self)@.objects == old(self)@.objects,
            final(self)@.rot_wrapper == old(self)@.rot_wrapper,
            final(self)@.log =~= log_after(
                old(self)@,
                h,
                DispatchOp::PropertyGet,
                name@,
                Seq::<ValueView>::empty(),
            ),
            reply_matches(r, spec_get(old(self)@, h, name@)),
    {
        let slot = match self.resolved_behavior(h, name) {
            Ok(i) => i,
            Err(e) => {
                return Err(e);
            },
        };
        let reply: Result<ComValue, InvocationError> = match &self.objects[h.id].members[
            slot
        ].behavior {
            MemberBehavior::Value(v) => Ok(v.duplicate()),
            MemberBehavior::Indexed(_) => Err(InvocationError::RemoteFailure {
                code: CODE_NEEDS_INDEX,
                description: String::from_str("member requires an index"),
            }),
            MemberBehavior::Fails(c, d) => Err(InvocationError::RemoteFailure {
                code: *c,
                description: d.clone(),
            }),
        };
        let arg_vec: Vec<ComValue> = Vec::new();
        proof {
            assert(arg_vec.deep_view() =~= Seq::<ValueView>::empty());
        }
        self.log.push(
            IssuedCall {
                target: h,
                op: DispatchOp::PropertyGet,
                member: name.to_owned(),
                args: arg_vec,
            },
        );
        proof {
            assert(self@.log =~= old(self)@.log.push(
                CallView {
                    target: h,
                    op: DispatchOp::PropertyGet,
                    member: name@,
                    args: Seq::<ValueView>::empty(),
                },
            ));
        }
        reply
    }

    /// Read member `name` of `h` as a property parameterized by one index
    /// argument (indexed collection access).
    pub fn get_indexed(&mut self, h: ObjectHandle, name: &str, index: ComValue) -> (r: Result<
        ComValue,
        InvocationError,
    >)
        ensures
            final(self)@.objects == old(self)@.objects,
            final(self)@.rot_wrapper == old(self)@.rot_wrapper,
            final(self)@.log =~= log_after(
                old(self)@,
                h,
                DispatchOp::PropertyGet,
                name@,
                seq![index@],
            ),
            reply_matches(r, spec_get_indexed(old(self)@, h, name@, index@)),
    {
        let slot = match self.resolved_behavior(h, name) {
            Ok(i) => i,
            Err(e) => {
                return Err(e);
            },
        };
        let reply: Result<ComValue, InvocationError> = match &self.objects[h.id].members[
            slot
        ].behavior {
            MemberBehavior::Value(_) => Err(InvocationError::RemoteFailure {
                code: CODE_NOT_INDEXED,
                description: String::from_str("member does not take an index"),
            }),
            MemberBehavior::Indexed(vs) => lookup_indexed(vs, &index),
            MemberBehavior::Fails(c, d) => Err(InvocationError::RemoteFailure {
                code: *c,
                description: d.clone(),
            }),
        };
        let mut arg_vec: Vec<ComValue> = Vec::new();
        arg_vec.push(index);
        proof {
            assert(arg_vec.deep_view() =~= seq![index@]);
        }
        self.log.push(
            IssuedCall {
                target: h,
                op: DispatchOp::PropertyGet,
                member: name.to_owned(),
                args: arg_vec,
            },
        );
        proof {
            assert(self@.log =~= old(self)@.log.push(
                CallView {
                    target: h,
                    op: DispatchOp::PropertyGet,
                    member: name@,
                    args: seq![index@],
                },
            ));
        }
        reply
    }

    /// Write member `name` of `h` as a property.  Only a plain member
    /// accepts a write; the new value replaces the scripted one.
    pub fn set(&mut self, h: ObjectHandle, name: &str, value: ComValue) -> (r: Result<
        (),
        InvocationError,
    >)
        ensures
            final(self)@.objects =~= objects_after_set(old(self)@, h, name@, value@),
            final(self)@.rot_wrapper == old(self)@.rot_wrapper,
            final(self)@.log =~= log_after(
                old(self)@,
                h,
                DispatchOp::PropertyPut,
                name@,
                seq![value@],
            ),
            unit_matches(r, spec_set(old(self)@, h, name@, value@)),
    {
        let slot = match self.resolved_behavior(h, name) {
            Ok(i) => i,
            Err(e) => {
                return Err(e);
            },
        };
        let reply: Result<(), InvocationError> = match &self.objects[h.id].members[slot].behavior {
            MemberBehavior::Value(_) => Ok(()),
            MemberBehavior::Indexed(_) => Err(InvocationError::RemoteFailure {
                code: CODE_NEEDS_INDEX,
                description: String::from_str("member requires an index"),
            }),
            MemberBehavior::Fails(c, d) => Err(InvocationError::RemoteFailure {
                code: *c,
                description: d.clone(),
            }),
        };
        if reply.is_ok() {
            self.objects[h.id].members[slot].behavior = MemberBehavior::Value(value.duplicate());
            proof {
                let ms0 = members_of(old(self)@, h);
                assert(self@.objects[h.id as int].members =~= ms0.update(
                    slot as int,
                    MemberView { name: ms0[slot as int].name, behavior: BehaviorView::Value(value@) },
                ));
                assert(self@.objects =~= objects_after_set(old(self)@, h, name@, value@));
            }
        }
        let mut arg_vec: Vec<ComValue> = Vec::new();
        arg_vec.push(value);
        proof {
            assert(arg_vec.deep_view() =~= seq![value@]);
        }
        self.log.push(
            IssuedCall {
                target: h,
                op: DispatchOp::PropertyPut,
                member: name.to_owned(),
                args: arg_vec,
            },
        );
        proof {
            assert(self@.log =~= log_after(
                old(self)@,
                h,
                DispatchOp::PropertyPut,
                name@,
                seq![value@],
            ));
        }
        reply
    }

    /// Write one element of the indexed member `name` of `h`: the index
    /// argument first, then the value, as the property-put encoding of the
    /// wire protocol orders them.
    pub fn set_indexed(
        &mut self,
        h: ObjectHandle,
        name: &str,
        index: ComValue,
        value: ComValue,
    ) -> (r: Result<(), InvocationError>)
        ensures
            final(self)@.objects =~= objects_after_set_indexed(old(self)@, h, name@, index@, value@),
            final(self)@.rot_wrapper == old(self)@.rot_wrapper,
            final(self)@.log =~= log_after(
                old(self)@,
                h,
                DispatchOp::PropertyPut,
                name@,
                seq![index@, value@],
            ),
            unit_matches(r, spec_set_indexed(old(self)@, h, name@, index@, value@)),
    {
        let slot = match self.resolved_behavior(h, name) {
            Ok(i) => i,
            Err(e) => {
                return Err(e);
            },
        };
        let mut reply: Result<(), InvocationError> = Ok(());
        let mut replacement: Option<Vec<ComValue>> = None;
        match &self.objects[h.id].members[slot].behavior {
            MemberBehavior::Value(_) => {
                reply = Err(InvocationError::RemoteFailure {
                    code: CODE_NOT_INDEXED,
                    description: String::from_str("member does not take an index"),
                });
            },
            MemberBehavior::Indexed(vs) => {
                match lookup_indexed(vs, &index) {
                    Ok(_) => {
                        let n_items = vs.len();
                        let target: usize = match &index {
                            ComValue::Int32(i) => {
                                assert(0 <= *i < n_items);
                                let t = *i as usize;
                                assert(t as int == spec_index_of(index@));
                                t
                            },
                            ComValue::Int64(i) => {
                                assert(0 <= *i < n_items);
                                let t = *i as usize;
                                assert(t as int == spec_index_of(index@));
                                t
                            },
                            _ => {
                                proof {
                                    assert(false);
                                }
                                0
                            },
                        };
                        proof {
                            assert(0 <= spec_index_of(index@) < vs.deep_view().len());
                            assert(target as int == spec_index_of(index@));
                        }
                        let mut fresh: Vec<ComValue> = Vec::new();
                        let mut j: usize = 0;
                        while j < n_items
                            invariant
                                j <= n_items,
                                n_items == vs@.len(),
                                target < n_items,
                                fresh@.len() == j,
                                forall|k: int|
                                    0 <= k < j ==> #[trigger] fresh.deep_view()[k] == (if k
                                        == target {
                                        value@
                                    } else {
                                        vs.deep_view()[k]
                                    }),
                            decreases n_items - j,
                        {
                            let ghost prev = fresh.deep_view();
                            if j == target {
                                fresh.push(value.duplicate());
                            } else {
                                fresh.push(vs[j].duplicate());
                            }
                            proof {
                                assert(forall|k: int|
                                    0 <= k < j ==> #[trigger] fresh.deep_view()[k] == prev[k]);
                                assert(fresh.deep_view()[j as int] == (if j == target {
                                    value@
                                } else {
                                    vs.deep_view()[j as int]
                                }));
                            }
                            j = j + 1;
                        }
                        proof {
                            assert(fresh.deep_view() =~= vs.deep_view().update(
                                target as int,
                                value@,
                            ));
                        }
                        replacement = Some(fresh);
                    },
                    Err(e) => {
                        reply = Err(e);
                    },
                }
            },
            MemberBehavior::Fails(c, d) => {
                reply = Err(InvocationError::RemoteFailure {
                    code: *c,
                    description: d.clone(),
                });
            },
        }
        if let Some(fresh) = replacement {
            self.objects[h.id].members[slot].behavior = MemberBehavior::Indexed(fresh);
            proof {
                let ms0 = members_of(old(self)@, h);
                let vs0 = behavior_of(ms0, name@)->Indexed_0;
                assert(self@.objects[h.id as int].members =~= ms0.update(
                    slot as int,
                    MemberView {
                        name: ms0[slot as int].name,
                        behavior: BehaviorView::Indexed(vs0.update(spec_index_of(index@), value@)),
                    },
                ));
                assert(self@.objects =~= objects_after_set_indexed(
                    old(self)@,
                    h,
                    name@,
                    index@,
                    value@,
                ));
            }
        }
        let mut arg_vec: Vec<ComValue> = Vec::new();
        arg_vec.push(index);
        arg_vec.push(value);
        proof {
            assert(arg_vec.deep_view() =~= seq![index@, value@]);
        }
        self.log.push(
            IssuedCall {
                target: h,
                op: DispatchOp::PropertyPut,
                member: name.to_owned(),
                args: arg_vec,
            },
        );
        proof {
            assert(self@.log =~= log_after(
                old(self)@,
                h,
                DispatchOp::PropertyPut,
                name@,
                seq![index@, value@],
            ));
        }
        reply
    }
}

} // verus!
