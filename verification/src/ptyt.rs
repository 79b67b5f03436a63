//! Terminals that show what a session is doing: they register as slots, and the tasks of
//! the session are handed to them.

use vstd::prelude::*;

use crate::exbash::exbash_mode_creates_task;
use crate::fields::filled;
use crate::fields::json_i32;
use crate::fields::json_i64;
use crate::fields::long_of;
use crate::fields::or_text;
use crate::fields::word_of;
use crate::json::opt_ref_view;
use crate::json::views;
use crate::json::Json;
use crate::json::JsonObject;
use crate::json::JsonView;
use crate::mcp::flag_set;
use crate::mcp::read_flag;
use crate::order::lemma_text_lt_irreflexive;
use crate::order::lemma_text_lt_total;
use crate::order::lemma_text_lt_transitive;
use crate::order::text_lt;
use crate::store::TextMap;
use crate::text::cat3;
use crate::text::cat5;
use crate::text::opt_text;
use crate::text::same;
use crate::text::trim;
use crate::types::snapshot_json;
use crate::types::snapshot_of;
use crate::types::ExbashTaskSnapshot;
use crate::types::ExbashTaskSnapshotView;

verus! {

/// A slot of a session.
#[derive(Debug, Clone, PartialEq, Eq)]
pub struct RefsPtytRegistration {
    pub session_id: String,
    pub slot_id: String,
}

#[verifier::ext_equal]
pub ghost struct RefsPtytRegistrationView {
    pub session_id: Seq<char>,
    pub slot_id: Seq<char>,
}

impl RefsPtytRegistration {
    pub open spec fn view(&self) -> RefsPtytRegistrationView {
        RefsPtytRegistrationView {
            session_id: self.session_id@,
            slot_id: self.slot_id@,
        }
    }
}

/// A task and where it is kept track of.
#[derive(Debug, Clone)]
pub struct RefsPtytActiveTask {
    pub task: ExbashTaskSnapshot,
    pub scope: String,
}

#[verifier::ext_equal]
pub ghost struct RefsPtytActiveTaskView {
    pub task: ExbashTaskSnapshotView,
    pub scope: Seq<char>,
}

impl RefsPtytActiveTask {
    pub open spec fn view(&self) -> RefsPtytActiveTaskView {
        RefsPtytActiveTaskView {
            task: self.task@,
            scope: self.scope@,
        }
    }
}

/// A call whose task is to be shown: the session, the scope, and whether the caller asked
/// for structured content.
#[derive(Debug, Clone)]
pub struct RefsPtytScheduleCall {
    pub mode: String,
    pub session_id: String,
    pub scope: String,
    pub include_structured_content: bool,
}

#[verifier::ext_equal]
pub ghost struct RefsPtytScheduleCallView {
    pub mode: Seq<char>,
    pub session_id: Seq<char>,
    pub scope: Seq<char>,
    pub include_structured_content: bool,
}

impl RefsPtytScheduleCall {
    pub open spec fn view(&self) -> RefsPtytScheduleCallView {
        RefsPtytScheduleCallView {
            mode: self.mode@,
            session_id: self.session_id@,
            scope: self.scope@,
            include_structured_content: self.include_structured_content,
        }
    }
}

impl RefsPtytActiveTask {
    pub fn copy(&self) -> (r: Self)
        ensures
            r@ == self@,
    {
        RefsPtytActiveTask { task: self.task.copy(), scope: self.scope.clone() }
    }
}

pub open spec fn opt_active(a: Option<RefsPtytActiveTask>) -> Option<RefsPtytActiveTaskView> {
    match a {
        Some(a) => Some(a@),
        None => None,
    }
}

pub open spec fn opt_call(c: Option<RefsPtytScheduleCall>) -> Option<RefsPtytScheduleCallView> {
    match c {
        Some(c) => Some(c@),
        None => None,
    }
}

// ---------------------------------------------------------------------------
// Slots
// ---------------------------------------------------------------------------

/// A registered terminal; `S` is the way to reach it.
#[derive(Debug)]
pub struct PtytSlot<S> {
    pub session_id: String,
    pub slot_id: String,
    pub schedulable: bool,
    pub assigned_task: Option<String>,
    pub last_active: u64,
    pub sender: S,
}

#[verifier::ext_equal]
pub ghost struct PtytSlotView<S> {
    pub session_id: Seq<char>,
    pub slot_id: Seq<char>,
    pub schedulable: bool,
    pub assigned_task: Option<Seq<char>>,
    pub last_active: u64,
    pub sender: S,
}

impl<S> PtytSlot<S> {
    pub open spec fn view(&self) -> PtytSlotView<S> {
        PtytSlotView {
            session_id: self.session_id@,
            slot_id: self.slot_id@,
            schedulable: self.schedulable,
            assigned_task: opt_text(self.assigned_task),
            last_active: self.last_active,
            sender: self.sender,
        }
    }
}

/// The slots by name, and a clock that ticks with every use of one.
#[derive(Debug)]
#[verifier::reject_recursive_types(S)]
pub struct RefsPtytScheduler<S> {
    pub slots: TextMap<PtytSlot<S>>,
    pub tick: u64,
}

pub type Slots<S> = Map<Seq<char>, PtytSlotView<S>>;

pub open spec fn slot_views<S>(m: Map<Seq<char>, PtytSlot<S>>) -> Map<Seq<char>, PtytSlotView<S>> {
    m.map_values(|s: PtytSlot<S>| s.view())
}

impl<S> RefsPtytScheduler<S> {
    pub open spec fn view(&self) -> Map<Seq<char>, PtytSlotView<S>> {
        slot_views(self.slots@)
    }
}

/// The name of a slot.
pub open spec fn slot_name(session_id: Seq<char>, slot_id: Seq<char>) -> Seq<char> {
    session_id + ":"@ + slot_id
}

pub fn slot_key(session_id: &str, slot_id: &str) -> (r: String)
    ensures
        r@ == slot_name(session_id@, slot_id@),
{
    cat3(session_id, ":", slot_id)
}

/// The name of a task across scopes and executors.
pub open spec fn task_name(active: RefsPtytActiveTaskView) -> Seq<char> {
    active.scope + ":"@ + active.task.executor + ":"@ + active.task.async_id
}

pub fn active_task_key(active: &RefsPtytActiveTask) -> (r: String)
    ensures
        r@ == task_name(active@),
{
    cat5(
        active.scope.as_str(),
        ":",
        active.task.executor.as_str(),
        ":",
        active.task.async_id.as_str(),
    )
}

/// The tick that follows.
pub open spec fn next_tick(tick: u64) -> u64 {
    if tick < u64::MAX {
        (tick + 1) as u64
    } else {
        tick
    }
}

/// A slot that a task of the session may be handed to.
pub open spec fn is_open<S>(slot: PtytSlotView<S>, session_id: Seq<char>) -> bool {
    slot.session_id == session_id && slot.schedulable
}

/// `a` is used before `b`: an empty slot before one with a task, else the one that was
/// used longer ago, else the one whose name comes first.
pub open spec fn used_before<S>(
    a_name: Seq<char>,
    a: PtytSlotView<S>,
    b_name: Seq<char>,
    b: PtytSlotView<S>,
) -> bool {
    if a.assigned_task is Some != b.assigned_task is Some {
        a.assigned_task is None
    } else if a.last_active != b.last_active {
        a.last_active < b.last_active
    } else {
        text_lt(a_name, b_name)
    }
}

/// The slot that the next task of the session is handed to.
pub open spec fn is_next_slot<S>(
    slots: Map<Seq<char>, PtytSlotView<S>>,
    session_id: Seq<char>,
    name: Seq<char>,
) -> bool {
    &&& slots.dom().contains(name)
    &&& is_open(slots[name], session_id)
    &&& forall|other: Seq<char>|
        slots.dom().contains(other) && is_open(#[trigger] slots[other], session_id)
            ==> !used_before(other, slots[other], name, slots[name])
}

/// The session has a slot that a task may be handed to.
pub open spec fn has_open_slot<S>(
    slots: Map<Seq<char>, PtytSlotView<S>>,
    session_id: Seq<char>,
) -> bool {
    exists|name: Seq<char>|
        slots.dom().contains(name) && is_open(#[trigger] slots[name], session_id)
}

/// There is one slot only that is next.
pub proof fn law_next_slot_is_unique<S>(
    slots: Map<Seq<char>, PtytSlotView<S>>,
    session_id: Seq<char>,
    a: Seq<char>,
    b: Seq<char>,
)
    requires
        is_next_slot(slots, session_id, a),
        is_next_slot(slots, session_id, b),
    ensures
        a == b,
{
    assert(!used_before(b, slots[b], a, slots[a]));
    assert(!used_before(a, slots[a], b, slots[b]));
    lemma_text_lt_total(a, b);
}

fn goes_first<S>(a_name: &str, a: &PtytSlot<S>, b_name: &str, b: &PtytSlot<S>) -> (r: bool)
    ensures
        r == used_before(a_name@, a@, b_name@, b@),
{
    let a_empty = a.assigned_task.is_none();
    let b_empty = b.assigned_task.is_none();
    if a_empty != b_empty {
        a_empty
    } else if a.last_active != b.last_active {
        a.last_active < b.last_active
    } else {
        crate::order::text_before(a_name, b_name)
    }
}

pub fn select_slot_key<S>(state: &RefsPtytScheduler<S>, session_id: &str) -> (r: Option<String>)
    ensures
        match r {
            Some(name) => is_next_slot(state@, session_id@, name@),
            None => !has_open_slot(state@, session_id@),
        },
{
    let n: usize = state.slots.len();
    let ghost names = state.slots.names();
    let mut best: Option<usize> = None;
    let mut i: usize = 0;
    while i < n
        invariant
            n == state.slots.names().len(),
            names == state.slots.names(),
            i <= n,
            match best {
                Some(b) => b < i && state.slots@.dom().contains(names[b as int]) && is_open(
                    state@[names[b as int]],
                    session_id@,
                ) && forall|j: int|
                    0 <= j < i && is_open(#[trigger] state@[names[j]], session_id@) ==> !used_before(
                        names[j],
                        state@[names[j]],
                        names[b as int],
                        state@[names[b as int]],
                    ),
                None => forall|j: int|
                    0 <= j < i ==> !is_open(#[trigger] state@[names[j]], session_id@),
            },
        decreases n - i,
    {
        let name = state.slots.key_at(i);
        let slot = state.slots.value_at(i);
        assert(state@[names[i as int]] == slot@);
        proof {
            lemma_text_lt_irreflexive(names[i as int]);
        }
        if same(slot.session_id.as_str(), session_id) && slot.schedulable {
            match best {
                Some(b) => {
                    let best_name = state.slots.key_at(b);
                    let best_slot = state.slots.value_at(b);
                    assert(state@[names[b as int]] == best_slot@);
                    if goes_first(name, slot, best_name, best_slot) {
                        proof {
                            assert forall|j: int|
                                0 <= j < i + 1 && is_open(
                                    #[trigger] state@[names[j]],
                                    session_id@,
                                ) implies !used_before(
                                names[j],
                                state@[names[j]],
                                names[i as int],
                                state@[names[i as int]],
                            ) by {
                                if j < i {
                                    let a = state@[names[j]];
                                    let c = state@[names[i as int]];
                                    let d = state@[names[b as int]];
                                    if used_before(names[j], a, names[i as int], c) {
                                        lemma_used_before_transitive(
                                            names[j],
                                            a,
                                            names[i as int],
                                            c,
                                            names[b as int],
                                            d,
                                        );
                                    }
                                }
                            }
                        }
                        best = Some(i);
                    }
                },
                None => {
                    best = Some(i);
                },
            }
        }
        i = i + 1;
    }
    match best {
        Some(b) => {
            proof {
                assert forall|other: Seq<char>|
                    state@.dom().contains(other) && is_open(
                        #[trigger] state@[other],
                        session_id@,
                    ) implies !used_before(
                    other,
                    state@[other],
                    names[b as int],
                    state@[names[b as int]],
                ) by {
                    assert(names.contains(other));
                    let j = choose|j: int| 0 <= j < names.len() && names[j] == other;
                    assert(is_open(state@[names[j]], session_id@));
                }
            }
            Some(state.slots.key_at(b).to_owned())
        },
        None => {
            proof {
                assert forall|name: Seq<char>| state@.dom().contains(name) implies !is_open(
                    #[trigger] state@[name],
                    session_id@,
                ) by {
                    assert(names.contains(name));
                    let j = choose|j: int| 0 <= j < names.len() && names[j] == name;
                    assert(!is_open(state@[names[j]], session_id@));
                }
            }
            None
        },
    }
}

proof fn lemma_used_before_transitive<S>(
    a_name: Seq<char>,
    a: PtytSlotView<S>,
    b_name: Seq<char>,
    b: PtytSlotView<S>,
    c_name: Seq<char>,
    c: PtytSlotView<S>,
)
    requires
        used_before(a_name, a, b_name, b),
        used_before(b_name, b, c_name, c),
    ensures
        used_before(a_name, a, c_name, c),
{
    if a.assigned_task is Some == b.assigned_task is Some && b.assigned_task is Some
        == c.assigned_task is Some && a.last_active == b.last_active && b.last_active
        == c.last_active {
        lemma_text_lt_transitive(a_name, b_name, c_name);
    }
}

/// The message that a terminal is registered.
pub open spec fn registered_message(slot_id: Seq<char>) -> JsonView {
    JsonView::Obj(
        map![
            "type"@ => JsonView::Str("refs-ptyt.registered"@),
            "slotID"@ => JsonView::Str(slot_id),
        ],
    )
}

/// The message that hands a task to a terminal.
pub open spec fn assign_message(active: RefsPtytActiveTaskView) -> JsonView {
    JsonView::Obj(
        map![
            "type"@ => JsonView::Str("refs-ptyt.assign"@),
            "task"@ => snapshot_json(active.task).with("scope"@, JsonView::Str(active.scope)),
        ],
    )
}

pub fn refs_ptyt_assign_message(active: &RefsPtytActiveTask) -> (r: Json)
    ensures
        r@ == assign_message(active@),
{
    let task = active.task.to_json().with("scope", Json::Str(active.scope.clone()));
    Json::Object(
        JsonObject::new().with("type", Json::str("refs-ptyt.assign")).with("task", task),
    )
}

/// A message of a terminal that wants to register.
pub open spec fn is_register(message: JsonView) -> bool {
    message.text_field("type"@) == Some("refs-ptyt.register"@)
}

pub fn is_register_message(message: &Json) -> (r: bool)
    ensures
        r == is_register(message@),
{
    match message.text_of("type") {
        Some(t) => same(t, "refs-ptyt.register"),
        None => false,
    }
}

/// The slot and the task that were brought together.
#[derive(Debug)]
pub struct Assignment {
    pub key: String,
    pub slot_id: String,
    pub message: Json,
}

#[verifier::ext_equal]
pub ghost struct AssignmentView {
    pub key: Seq<char>,
    pub slot_id: Seq<char>,
    pub message: JsonView,
}

impl Assignment {
    pub open spec fn view(&self) -> AssignmentView {
        AssignmentView { key: self.key@, slot_id: self.slot_id@, message: self.message@ }
    }
}

pub open spec fn opt_assignment(a: Option<Assignment>) -> Option<AssignmentView> {
    match a {
        Some(a) => Some(a@),
        None => None,
    }
}

/// A task is handed to the next slot of its session: the slot is marked with the task and
/// the time. Nothing changes where the task has no session or the session has no slot for
/// it.
pub open spec fn is_assignment<S>(
    slots: Map<Seq<char>, PtytSlotView<S>>,
    tick: u64,
    active: RefsPtytActiveTaskView,
    assignment: Option<AssignmentView>,
    slots_after: Map<Seq<char>, PtytSlotView<S>>,
    tick_after: u64,
) -> bool {
    match assignment {
        Some(a) => {
            &&& active.task.session_id is Some
            &&& is_next_slot(slots, active.task.session_id->0, a.key)
            &&& a.slot_id == slots[a.key].slot_id
            &&& a.message == assign_message(active)
            &&& tick_after == next_tick(tick)
            &&& slots_after == slots.insert(
                a.key,
                PtytSlotView {
                    assigned_task: Some(task_name(active)),
                    last_active: next_tick(tick),
                    ..slots[a.key]
                },
            )
        },
        None => {
            &&& active.task.session_id is None || !has_open_slot(slots, active.task.session_id->0)
            &&& slots_after == slots
            &&& tick_after == tick
        },
    }
}

impl<S> RefsPtytScheduler<S> {
    pub fn new() -> (r: Self)
        ensures
            r@ == Map::<Seq<char>, PtytSlotView<S>>::empty(),
            r.tick == 0,
    {
        let r = RefsPtytScheduler { slots: TextMap::new(), tick: 0 };
        assert(r@ =~= Map::<Seq<char>, PtytSlotView<S>>::empty());
        r
    }

    /// Registers a terminal as an empty slot; the result is the message for it.
    pub fn register(
        &mut self,
        registration: &RefsPtytRegistration,
        schedulable: bool,
        sender: S,
    ) -> (r: Json)
        ensures
            r@ == registered_message(registration.slot_id@),
            final(self).tick == next_tick(old(self).tick),
            final(self)@ == old(self)@.insert(
                slot_name(registration.session_id@, registration.slot_id@),
                (PtytSlotView {
                    session_id: registration.session_id@,
                    slot_id: registration.slot_id@,
                    schedulable,
                    assigned_task: None,
                    last_active: next_tick(old(self).tick),
                    sender,
                }),
            ),
    {
        let ghost before = self@;
        self.tick = self.tick.saturating_add(1);
        let key = slot_key(registration.session_id.as_str(), registration.slot_id.as_str());
        let slot = PtytSlot {
            session_id: registration.session_id.clone(),
            slot_id: registration.slot_id.clone(),
            schedulable,
            assigned_task: None,
            last_active: self.tick,
            sender,
        };
        let ghost view = slot@;
        self.slots.insert(key.as_str(), slot);
        assert(self@ =~= before.insert(key@, view));
        Json::Object(
            JsonObject::new().with("type", Json::str("refs-ptyt.registered")).with(
                "slotID",
                Json::Str(registration.slot_id.clone()),
            ),
        )
    }

    pub fn unregister(&mut self, registration: &RefsPtytRegistration)
        ensures
            final(self).tick == old(self).tick,
            final(self)@ == old(self)@.remove(
                slot_name(registration.session_id@, registration.slot_id@),
            ),
    {
        let ghost before = self@;
        let key = slot_key(registration.session_id.as_str(), registration.slot_id.as_str());
        let _ = self.slots.remove(key.as_str());
        assert(self@ =~= before.remove(key@));
    }

    /// Removes a slot that can no longer be reached.
    pub fn drop_slot(&mut self, key: &str)
        ensures
            final(self).tick == old(self).tick,
            final(self)@ == old(self)@.remove(key@),
    {
        let ghost before = self@;
        let _ = self.slots.remove(key);
        assert(self@ =~= before.remove(key@));
    }

    /// The way to reach a slot.
    pub fn sender(&self, key: &str) -> (r: Option<&S>)
        ensures
            match r {
                Some(s) => self@.dom().contains(key@) && *s == self@[key@].sender,
                None => !self@.dom().contains(key@),
            },
    {
        match self.slots.get(key) {
            Some(slot) => Some(&slot.sender),
            None => None,
        }
    }

    /// Hands a task to the next slot of its session: the slot is marked with the task and
    /// the time, and the message for it is the result. Nothing changes where the task has
    /// no session or the session has no slot for it.
    pub fn assign_active_task(&mut self, active: &RefsPtytActiveTask) -> (r: Option<Assignment>)
        ensures
            is_assignment(
                old(self)@,
                old(self).tick,
                active@,
                opt_assignment(r),
                final(self)@,
                final(self).tick,
            ),
    {
        let session_id = match &active.task.session_id {
            Some(s) => s.clone(),
            None => {
                return None;
            },
        };
        let key = match select_slot_key(&*self, session_id.as_str()) {
            Some(k) => k,
            None => {
                return None;
            },
        };
        let ghost before = self@;
        match self.slots.remove(key.as_str()) {
            Some(slot) => {
                self.tick = self.tick.saturating_add(1);
                let slot_id = slot.slot_id.clone();
                let slot = PtytSlot {
                    session_id: slot.session_id,
                    slot_id: slot.slot_id,
                    schedulable: slot.schedulable,
                    assigned_task: Some(active_task_key(active)),
                    last_active: self.tick,
                    sender: slot.sender,
                };
                let ghost view = slot@;
                self.slots.insert(key.as_str(), slot);
                assert(self@ =~= before.insert(key@, view));
                Some(Assignment { key, slot_id, message: refs_ptyt_assign_message(active) })
            },
            None => None,
        }
    }

    /// The message did not reach the slot: the slot is taken away and the task handed to the
    /// next one.
    pub fn undelivered(&mut self, key: &str, active: &RefsPtytActiveTask) -> (r: Option<
        Assignment,
    >)
        ensures
            is_assignment(
                old(self)@.remove(key@),
                old(self).tick,
                active@,
                opt_assignment(r),
                final(self)@,
                final(self).tick,
            ),
    {
        self.drop_slot(key);
        self.assign_active_task(active)
    }
}

/// As long as the session has an empty slot, a task is handed to an empty one; only then
/// does it take the place of another task, the one that was handed out longest ago.
pub proof fn law_empty_slots_before_replacement<S>(
    slots: Map<Seq<char>, PtytSlotView<S>>,
    session_id: Seq<char>,
    name: Seq<char>,
)
    requires
        is_next_slot(slots, session_id, name),
    ensures
        (exists|other: Seq<char>|
            slots.dom().contains(other) && is_open(#[trigger] slots[other], session_id)
                && slots[other].assigned_task is None) ==> slots[name].assigned_task is None,
        slots[name].assigned_task is Some ==> forall|other: Seq<char>|
            slots.dom().contains(other) && is_open(#[trigger] slots[other], session_id)
                ==> slots[name].last_active <= slots[other].last_active,
{
    assert forall|other: Seq<char>|
        slots.dom().contains(other) && is_open(#[trigger] slots[other], session_id)
            && slots[other].assigned_task is None implies slots[name].assigned_task is None by {
        assert(!used_before(other, slots[other], name, slots[name]));
    }
}

/// Taking a slot away that cannot be reached leaves one slot less, so handing a task out
/// comes to an end.
pub proof fn law_dropping_slots_ends<S>(slots: Map<Seq<char>, PtytSlotView<S>>, name: Seq<char>)
    requires
        slots.dom().finite(),
        slots.dom().contains(name),
    ensures
        slots.remove(name).dom().finite(),
        slots.remove(name).dom().len() < slots.dom().len(),
{
}

// ---------------------------------------------------------------------------
// Calls whose task is shown
// ---------------------------------------------------------------------------

pub open spec fn schedules(mode: Seq<char>) -> bool {
    mode == "run"@ || mode == "shell"@ || mode == "attach"@
}

/// The call that a request makes whose task is to be shown: `exbash` in a mode that has a
/// running task, for a session, and not made by a terminal itself.
pub open spec fn schedule_call(input: JsonView) -> Option<RefsPtytScheduleCallView> {
    let arguments = input.field2("params"@, "arguments"@);
    if input.text_field("method"@) == Some("tools/call"@) && input.text_field2(
        "params"@,
        "name"@,
    ) == Some("exbash"@) && arguments is Some && arguments->0 is Obj {
        let a = arguments->0;
        let mode = or_text(filled(a.text_field("mode"@)), "shell"@);
        let scope = match a.field("scope"@) {
            Some(v) => v.string(),
            None => a.text_field("spoe"@),
        };
        match filled(a.text_field("ExecutorSessionID"@)) {
            Some(session_id) => if !flag_set(a.field("refsPtytResolve"@)) && schedules(mode) {
                Some(
                    RefsPtytScheduleCallView {
                        mode,
                        session_id,
                        scope: or_text(filled(scope), "local"@),
                        include_structured_content: flag_set(
                            a.field("includeStructuredContent"@),
                        ),
                    },
                )
            } else {
                None
            },
            None => None,
        }
    } else {
        None
    }
}

/// A request that asks for structured content.
pub open spec fn asking_for_structure(input: JsonView) -> JsonView {
    let params = input.field("params"@)->0;
    let arguments = params.field("arguments"@)->0;
    input.with(
        "params"@,
        params.with(
            "arguments"@,
            arguments.with("includeStructuredContent"@, JsonView::Bool(true)),
        ),
    )
}

fn filled_text(v: Option<&Json>) -> (r: Option<String>)
    ensures
        opt_text(r) == filled(
            match opt_ref_view(v) {
                Some(v) => v.string(),
                None => None,
            },
        ),
{
    match v {
        Some(v) => match v.as_str() {
            Some(s) => {
                let t = trim(s);
                if t.as_str().unicode_len() > 0 {
                    Some(t)
                } else {
                    None
                }
            },
            None => None,
        },
        None => None,
    }
}

fn is_set(v: Option<&Json>) -> (r: bool)
    ensures
        r == flag_set(opt_ref_view(v)),
{
    match v {
        Some(v) => read_flag(Some(v.clone())) == Some(true),
        None => false,
    }
}

fn read_schedule_call(input: &Json) -> (r: Option<RefsPtytScheduleCall>)
    ensures
        opt_call(r) == schedule_call(input@),
{
    match input.text_of("method") {
        Some(m) => if !same(m, "tools/call") {
            return None;
        },
        None => {
            return None;
        },
    }
    match input.text_of2("params", "name") {
        Some(n) => if !same(n, "exbash") {
            return None;
        },
        None => {
            return None;
        },
    }
    let a = match input.get2("params", "arguments") {
        Some(v) => v,
        None => {
            return None;
        },
    };
    if !a.is_object() {
        return None;
    }
    if is_set(a.get("refsPtytResolve")) {
        return None;
    }
    let mode = match filled_text(a.get("mode")) {
        Some(m) => m,
        None => "shell".to_owned(),
    };
    if !exbash_mode_creates_task(mode.as_str()) && !same(mode.as_str(), "attach") {
        return None;
    }
    let session_id = match filled_text(a.get("ExecutorSessionID")) {
        Some(s) => s,
        None => {
            return None;
        },
    };
    let named = match a.get("scope") {
        Some(v) => Some(v),
        None => a.get("spoe"),
    };
    let scope = match filled_text(named) {
        Some(s) => s,
        None => "local".to_owned(),
    };
    let include_structured_content = is_set(a.get("includeStructuredContent"));
    Some(RefsPtytScheduleCall { mode, session_id, scope, include_structured_content })
}

/// Where the request makes a call whose task is to be shown, it is made to ask for
/// structured content; any other request is kept.
pub fn prepare_input_for_ptyt_schedule(input: &mut Json) -> (r: Option<RefsPtytScheduleCall>)
    ensures
        opt_call(r) == schedule_call(old(input)@),
        final(input)@ == (if r is Some {
            asking_for_structure(old(input)@)
        } else {
            old(input)@
        }),
{
    let call = read_schedule_call(&*input);
    if call.is_some() {
        let mut taken = Json::Null;
        std::mem::swap(&mut taken, input);
        let params = match taken.get("params") {
            Some(p) => p.clone(),
            None => Json::Null,
        };
        let arguments = match params.get("arguments") {
            Some(a) => a.clone(),
            None => Json::Null,
        };
        let arguments = arguments.with("includeStructuredContent", Json::Bool(true));
        *input = taken.with("params", params.with("arguments", arguments));
    }
    call
}

/// The response as the caller gets it: without the structured content that it did not ask
/// for.
pub open spec fn restored(output: JsonView, include_structured_content: bool) -> JsonView {
    if include_structured_content {
        output
    } else {
        match output.field("result"@) {
            Some(JsonView::Obj(m)) => output.with(
                "result"@,
                JsonView::Obj(m.remove("structuredContent"@)),
            ),
            _ => output,
        }
    }
}

pub fn restore_output_after_ptyt_schedule(output: &mut Json, call: &RefsPtytScheduleCall)
    ensures
        final(output)@ == restored(old(output)@, call.include_structured_content),
{
    if call.include_structured_content {
        return;
    }
    let result = match output.get("result") {
        Some(v) => match v.as_object() {
            Some(m) => Some(m.clone()),
            None => None,
        },
        None => None,
    };
    match result {
        Some(m) => {
            let mut m = m;
            let _ = m.remove("structuredContent");
            let mut taken = Json::Null;
            std::mem::swap(&mut taken, output);
            *output = taken.with("result", Json::Object(m));
        },
        None => {},
    }
}

/// A caller that did not ask for structured content does not see it; one that did sees the
/// response as it is.
pub proof fn law_structure_does_not_leak(output: JsonView)
    ensures
        restored(output, false).field2("result"@, "structuredContent"@) is None,
        restored(output, true) == output,
{
}

/// A request that is prepared differs from the one that came in by the flag alone.
pub proof fn law_preparation_sets_the_flag(input: JsonView)
    requires
        schedule_call(input) is Some,
    ensures
        asking_for_structure(input).field3("params"@, "arguments"@, "includeStructuredContent"@)
            == Some(JsonView::Bool(true)),
        asking_for_structure(input).field("method"@) == input.field("method"@),
        forall|key: Seq<char>|
            key != "includeStructuredContent"@ ==> #[trigger] asking_for_structure(input).field3(
                "params"@,
                "arguments"@,
                key,
            ) == input.field3("params"@, "arguments"@, key),
{
    reveal_strlit("params");
    reveal_strlit("method");
    assert("params"@[0] != "method"@[0]);
}

// ---------------------------------------------------------------------------
// The task of a response
// ---------------------------------------------------------------------------

/// A snapshot in which the id is also found under `asyncID`.
pub open spec fn with_async_id(v: JsonView) -> JsonView {
    match (v.field("asyncId"@), v.field("asyncID"@)) {
        (None, Some(id)) => v.with("asyncId"@, id),
        _ => v,
    }
}

/// The task that a snapshot describes; one of a workspace is kept there.
pub open spec fn active_of_snapshot(call: RefsPtytScheduleCallView, v: JsonView) -> Option<
    RefsPtytActiveTaskView,
> {
    match snapshot_of(with_async_id(v)) {
        Some(task) => Some(
            RefsPtytActiveTaskView {
                task: ExbashTaskSnapshotView {
                    session_id: match task.session_id {
                        Some(s) => Some(s),
                        None => Some(call.session_id),
                    },
                    ..task
                },
                scope: if task.workdir is Some {
                    "workspace"@
                } else {
                    call.scope
                },
            },
        ),
        None => None,
    }
}

pub fn active_task_from_snapshot_value(call: &RefsPtytScheduleCall, value: &Json) -> (r: Option<
    RefsPtytActiveTask,
>)
    ensures
        opt_active(r) == active_of_snapshot(call@, value@),
{
    let id = match (value.get("asyncId"), value.get("asyncID")) {
        (None, Some(id)) => Some(id.clone()),
        _ => None,
    };
    let v = match id {
        Some(id) => value.clone().with("asyncId", id),
        None => value.clone(),
    };
    match ExbashTaskSnapshot::from_json(&v) {
        Some(task) => {
            let mut task = task;
            if task.session_id.is_none() {
                task.session_id = Some(call.session_id.clone());
            }
            let scope = if task.workdir.is_some() {
                "workspace".to_owned()
            } else {
                call.scope.clone()
            };
            Some(RefsPtytActiveTask { task, scope })
        },
        None => None,
    }
}

/// The first of the snapshots that describes a task; with `scope`, of that scope.
pub open spec fn first_active(
    call: RefsPtytScheduleCallView,
    values: Seq<JsonView>,
    scope: Option<Seq<char>>,
) -> Option<RefsPtytActiveTaskView>
    decreases values.len(),
{
    if values.len() == 0 {
        None
    } else {
        match active_of_snapshot(call, values[0]) {
            Some(a) => if scope is None || scope == Some(a.scope) {
                Some(a)
            } else {
                first_active(call, values.drop_first(), scope)
            },
            None => first_active(call, values.drop_first(), scope),
        }
    }
}

fn find_active(call: &RefsPtytScheduleCall, values: &Vec<Json>, scope: Option<&str>) -> (r: Option<
    RefsPtytActiveTask,
>)
    ensures
        opt_active(r) == first_active(call@, views(values@), crate::json::opt_str(scope)),
{
    let ghost all = views(values@);
    let mut i: usize = 0;
    assert(all.skip(0) =~= all);
    while i < values.len()
        invariant
            i <= values@.len(),
            all == views(values@),
            first_active(call@, all.skip(i as int), crate::json::opt_str(scope)) == first_active(
                call@,
                all,
                crate::json::opt_str(scope),
            ),
        decreases values.len() - i,
    {
        assert(all.skip(i as int).drop_first() =~= all.skip(i + 1));
        assert(all.skip(i as int)[0] == values@[i as int]@);
        match active_task_from_snapshot_value(call, &values[i]) {
            Some(a) => {
                let fits = match scope {
                    Some(s) => same(a.scope.as_str(), s),
                    None => true,
                };
                if fits {
                    return Some(a);
                }
            },
            None => {},
        }
        i = i + 1;
    }
    None
}

/// The member where it is an integer.
pub open spec fn long_field(m: JsonView, key: Seq<char>) -> Option<i64> {
    match m.field(key) {
        Some(v) => long_of(v),
        None => None,
    }
}

/// The task that the metadata of a result describes.
pub open spec fn active_of_metadata(call: RefsPtytScheduleCallView, m: JsonView) -> Option<
    RefsPtytActiveTaskView,
> {
    let id = match m.field("asyncID"@) {
        Some(v) => v.string(),
        None => m.text_field("asyncId"@),
    };
    match id {
        Some(async_id) => Some(
            RefsPtytActiveTaskView {
                task: ExbashTaskSnapshotView {
                    async_id,
                    executor: or_text(m.text_field("executor"@), "local"@),
                    session_id: Some(call.session_id),
                    workdir: if call.scope == "workspace"@ {
                        Some(Seq::empty())
                    } else {
                        None
                    },
                    state: Some(or_text(m.text_field("state"@), "running"@)),
                    pid: long_field(m, "pid"@),
                    exit_code: match m.field("exitCode"@) {
                        Some(v) => word_of(v),
                        None => None,
                    },
                    started_at: long_field(m, "startedAt"@),
                    ended_at: long_field(m, "endedAt"@),
                    command: m.text_field("command"@),
                    description: m.text_field("description"@),
                    total_output: long_field(m, "totalOutput"@),
                },
                scope: call.scope,
            },
        ),
        None => None,
    }
}

fn read_long(m: &Json, key: &str) -> (r: Option<i64>)
    ensures
        r == long_field(m@, key@),
{
    match m.get(key) {
        Some(v) => json_i64(v),
        None => None,
    }
}

fn own(s: Option<&str>) -> (r: Option<String>)
    ensures
        opt_text(r) == crate::json::opt_str(s),
{
    match s {
        Some(s) => Some(s.to_owned()),
        None => None,
    }
}

pub fn active_task_from_metadata(call: &RefsPtytScheduleCall, m: &Json) -> (r: Option<
    RefsPtytActiveTask,
>)
    ensures
        opt_active(r) == active_of_metadata(call@, m@),
{
    let id = match m.get("asyncID") {
        Some(v) => v.as_str(),
        None => m.text_of("asyncId"),
    };
    match id {
        Some(async_id) => {
            let workdir = if same(call.scope.as_str(), "workspace") {
                Some(String::new())
            } else {
                None
            };
            let exit_code = match m.get("exitCode") {
                Some(v) => json_i32(v),
                None => None,
            };
            let task = ExbashTaskSnapshot {
                async_id: async_id.to_owned(),
                executor: m.text_of("executor").unwrap_or("local").to_owned(),
                session_id: Some(call.session_id.clone()),
                workdir,
                state: Some(m.text_of("state").unwrap_or("running").to_owned()),
                pid: read_long(m, "pid"),
                exit_code,
                started_at: read_long(m, "startedAt"),
                ended_at: read_long(m, "endedAt"),
                command: own(m.text_of("command")),
                description: own(m.text_of("description")),
                total_output: read_long(m, "totalOutput"),
            };
            proof {
                assert(task@.workdir =~= active_of_metadata(call@, m@)->0.task.workdir);
            }
            Some(RefsPtytActiveTask { task, scope: call.scope.clone() })
        },
        None => None,
    }
}

/// The task that a response is about: the recorded one, else one of several recorded ones,
/// those of the scope of the call first, else what the metadata says.
pub open spec fn active_of_response(call: RefsPtytScheduleCallView, output: JsonView) -> Option<
    RefsPtytActiveTaskView,
> {
    match output.field3("result"@, "structuredContent"@, "metadata"@) {
        Some(m) => {
            let one = match m.field("hostSnapshot"@) {
                Some(v) => active_of_snapshot(call, v),
                None => None,
            };
            match one {
                Some(a) => Some(a),
                None => {
                    let some = match m.field("hostSnapshots"@) {
                        Some(JsonView::Arr(values)) => match first_active(
                            call,
                            values,
                            Some(call.scope),
                        ) {
                            Some(a) => Some(a),
                            None => first_active(call, values, None),
                        },
                        _ => None,
                    };
                    match some {
                        Some(a) => Some(a),
                        None => active_of_metadata(call, m),
                    }
                },
            }
        },
        None => None,
    }
}

pub fn active_task_from_ptyt_response(call: &RefsPtytScheduleCall, output: &Json) -> (r: Option<
    RefsPtytActiveTask,
>)
    ensures
        opt_active(r) == active_of_response(call@, output@),
{
    let m = match output.get3("result", "structuredContent", "metadata") {
        Some(m) => m,
        None => {
            return None;
        },
    };
    match m.get("hostSnapshot") {
        Some(v) => match active_task_from_snapshot_value(call, v) {
            Some(a) => {
                return Some(a);
            },
            None => {},
        },
        None => {},
    }
    match m.get("hostSnapshots") {
        Some(v) => match v.as_array() {
            Some(values) => {
                match find_active(call, values, Some(call.scope.as_str())) {
                    Some(a) => {
                        return Some(a);
                    },
                    None => {},
                }
                match find_active(call, values, None) {
                    Some(a) => {
                        return Some(a);
                    },
                    None => {},
                }
            },
            None => {},
        },
        None => {},
    }
    active_task_from_metadata(call, m)
}

/// What follows the response to a request: the task to hand out, and the response as the
/// caller gets it. A request that shows no task gets its response unchanged.
pub open spec fn settled(call: Option<RefsPtytScheduleCallView>, output: JsonView) -> (
    Option<RefsPtytActiveTaskView>,
    JsonView,
) {
    match call {
        Some(call) => (
            active_of_response(call, output),
            restored(output, call.include_structured_content),
        ),
        None => (None, output),
    }
}

pub fn settle_response(call: &Option<RefsPtytScheduleCall>, output: Json) -> (r: (
    Option<RefsPtytActiveTask>,
    Json,
))
    ensures
        (opt_active(r.0), r.1@) == settled(opt_call(*call), output@),
{
    match call {
        Some(call) => {
            let active = active_task_from_ptyt_response(call, &output);
            let mut output = output;
            restore_output_after_ptyt_schedule(&mut output, call);
            (active, output)
        },
        None => (None, output),
    }
}

} // verus!
