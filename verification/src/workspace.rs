//! The workspace synchronizer: a state machine owning
//! `{total_workspaces, focus_at}`, the events and intents it consumes, and
//! the input mapper that turns raw gestures into intents.

use vstd::prelude::*;

verus! {

/// Direction of a relative focus change, derived from the sign of a scroll
/// gesture.
#[derive(Clone, Copy, Debug, PartialEq, Eq, Structural)]
pub enum Direction {
    Previous,
    Next,
}

/// A scroll gesture's vertical movement, reduced to what the input mapper
/// reads from it: which kind of source delivered the delta, and whether the
/// delta was positive (wheel scrolled up). The magnitude is deliberately not
/// carried: one gesture event is one cycle step, with no acceleration.
#[derive(Clone, Copy, Debug, PartialEq, Eq, Structural)]
pub enum ScrollDelta {
    Lines { upward: bool },
    Pixels { upward: bool },
}

/// A locally-originated request to change focus, not yet confirmed by the
/// workspace directory.
#[derive(Clone, Copy, Debug, PartialEq, Eq, Structural)]
pub enum UserIntent {
    /// Absolute request: focus the workspace with this identifier.
    SwitchTo(usize),
    /// Relative request: step the focus around the ring of workspaces.
    CycleBy(Direction),
}

/// An externally-originated notification from the workspace directory.
#[derive(Clone, Copy, Debug, PartialEq, Eq, Structural)]
pub enum DirectoryEvent {
    /// The directory's freshly recomputed workspace total.
    WorkspaceCountChanged(usize),
}

/// A message delivered to the synchronizer by the UI update loop: either a
/// raw gesture (button press, scroll) or a directory notification.
#[derive(Clone, Copy, Debug, PartialEq, Eq, Structural)]
pub enum WorkspaceMessage {
    ChangeTo(usize),
    ScrollBy(ScrollDelta),
    UpdateTotalWorkspaceSize(usize),
}

/// A command the synchronizer asks the directory client to perform as a side
/// effect: switch the active workspace to `target`.
#[derive(Clone, Copy, Debug, PartialEq, Eq, Structural)]
pub struct SwitchCommand {
    pub target: usize,
}

/// The mathematical model of the synchronizer's state.
pub ghost struct StateView {
    pub total: int,
    pub focus: int,
}

/// The workspace synchronizer. It owns the authoritative view used for
/// rendering and decides, for each intent, whether to apply it and whether
/// to issue a switch command.
pub struct Workspaces {
    total_workspaces: usize,
    focus_at: usize,
}

impl View for Workspaces {
    type V = StateView;

    closed spec fn view(&self) -> StateView {
        StateView { total: self.total_workspaces as int, focus: self.focus_at as int }
    }
}

impl Workspaces {
    /// Machine-safety invariant: both fields are positive. This always
    /// holds.
    pub open spec fn wf(&self) -> bool {
        &&& self@.total >= 1
        &&& self@.focus >= 1
    }

    /// Best-effort invariant: the focus lies inside the known range. An
    /// out-of-range `SwitchTo` passes through to the directory unchecked and
    /// may break this until the next cycle intent or count event restores
    /// it.
    pub open spec fn focus_in_range(&self) -> bool {
        &&& self.wf()
        &&& self@.focus <= self@.total
    }

    /// The provisional state used before any directory query completes.
    pub fn new() -> (w: Workspaces)
        ensures
            w@ == (StateView { total: 1, focus: 1 }),
            w.focus_in_range(),
    {
        Workspaces { total_workspaces: 1, focus_at: 1 }
    }

    /// Read-only snapshot for rendering: how many workspaces are known.
    pub fn total_workspaces(&self) -> (n: usize)
        ensures
            n as int == self@.total,
    {
        self.total_workspaces
    }

    /// Read-only snapshot for rendering: which workspace is believed active.
    pub fn focus_at(&self) -> (id: usize)
        ensures
            id as int == self@.focus,
    {
        self.focus_at
    }
}

impl Workspaces {
    /// Apply an externally-originated directory event. A count change
    /// overwrites the total unconditionally; the collaborator has already
    /// validated the new total as positive. Policy for invariant drift: the
    /// focus is clamped into the new range on every count change, so a
    /// shrink can never leave the focus pointing past the last workspace.
    pub fn apply_directory_event(&mut self, event: DirectoryEvent)
        requires
            old(self).wf(),
            event_wf(event),
        ensures
            final(self)@ == event_result(old(self)@, event),
            final(self).focus_in_range(),
    {
        match event {
            DirectoryEvent::WorkspaceCountChanged(n) => {
                self.total_workspaces = n;
                if self.focus_at > n {
                    self.focus_at = n;
                }
            },
        }
    }

    /// Apply a locally-originated intent, returning the switch command to
    /// issue to the directory client, if any. A `SwitchTo` of the workspace
    /// already focused is a no-op and issues nothing; any other target is
    /// applied optimistically (before the directory confirms) and issued as
    /// a command. The target of a `SwitchTo` is not range-checked: the
    /// directory is expected to reject an unknown identifier, and a failed
    /// command does not roll the optimistic state back.
    pub fn apply_user_intent(&mut self, intent: UserIntent) -> (cmd: Option<SwitchCommand>)
        requires
            old(self).wf(),
            intent_wf(intent),
        ensures
            final(self)@ == intent_result(old(self)@, intent),
            command_view(cmd) == intent_command(old(self)@, intent),
            final(self).wf(),
            intent is CycleBy ==> final(self).focus_in_range(),
    {
        let target: usize = match intent {
            UserIntent::SwitchTo(id) => id,
            UserIntent::CycleBy(direction) => cycle_target_of(
                self.focus_at,
                self.total_workspaces,
                direction,
            ),
        };
        if target == self.focus_at {
            None
        } else {
            self.focus_at = target;
            Some(SwitchCommand { target })
        }
    }

    /// Apply one message from the update loop: gestures are mapped to
    /// intents, directory notifications to events. Only an intent can give
    /// rise to a switch command.
    pub fn update(&mut self, message: WorkspaceMessage) -> (cmd: Option<SwitchCommand>)
        requires
            old(self).wf(),
            message_wf(message),
        ensures
            final(self)@ == message_result(old(self)@, message),
            command_view(cmd) == message_command(old(self)@, message),
            final(self).wf(),
    {
        match message {
            WorkspaceMessage::ChangeTo(id) => self.apply_user_intent(UserIntent::SwitchTo(id)),
            WorkspaceMessage::ScrollBy(delta) => self.apply_user_intent(scroll_intent(delta)),
            WorkspaceMessage::UpdateTotalWorkspaceSize(n) => {
                self.apply_directory_event(DirectoryEvent::WorkspaceCountChanged(n));
                None
            },
        }
    }
}

/// Validity of an event: the directory only reports positive totals.
pub open spec fn event_wf(event: DirectoryEvent) -> bool {
    match event {
        DirectoryEvent::WorkspaceCountChanged(n) => n >= 1,
    }
}

/// Validity of an intent: workspace identifiers are positive.
pub open spec fn intent_wf(intent: UserIntent) -> bool {
    match intent {
        UserIntent::SwitchTo(id) => id >= 1,
        UserIntent::CycleBy(_) => true,
    }
}

/// Validity of an update-loop message: identifiers and totals are positive.
pub open spec fn message_wf(message: WorkspaceMessage) -> bool {
    match message {
        WorkspaceMessage::ChangeTo(id) => id >= 1,
        WorkspaceMessage::ScrollBy(_) => true,
        WorkspaceMessage::UpdateTotalWorkspaceSize(n) => n >= 1,
    }
}

/// How far one cycle intent steps around the ring.
pub open spec fn cycle_step(direction: Direction) -> int {
    match direction {
        Direction::Previous => -1,
        Direction::Next => 1,
    }
}

/// The identifier one cycle step away from `focus` on the 1-based modular
/// ring of size `total`.
pub open spec fn cycle_target(focus: int, total: int, direction: Direction) -> int {
    ((focus - 1 + cycle_step(direction) + total) % total) + 1
}

/// The identifier an intent asks to focus, given the current state.
pub open spec fn intent_target(s: StateView, intent: UserIntent) -> int {
    match intent {
        UserIntent::SwitchTo(id) => id as int,
        UserIntent::CycleBy(direction) => cycle_target(s.focus, s.total, direction),
    }
}

/// The state after an intent: unchanged when the target is already focused,
/// otherwise the focus moves to the target.
pub open spec fn intent_result(s: StateView, intent: UserIntent) -> StateView {
    let target = intent_target(s, intent);
    if target == s.focus {
        s
    } else {
        StateView { total: s.total, focus: target }
    }
}

/// The switch command an intent issues: none when the target is already
/// focused, otherwise exactly one command naming the target.
pub open spec fn intent_command(s: StateView, intent: UserIntent) -> Option<int> {
    let target = intent_target(s, intent);
    if target == s.focus {
        None
    } else {
        Some(target)
    }
}

/// The state after a directory event: the total is overwritten and the
/// focus clamped into the new range.
pub open spec fn event_result(s: StateView, event: DirectoryEvent) -> StateView {
    match event {
        DirectoryEvent::WorkspaceCountChanged(n) => StateView {
            total: n as int,
            focus: if s.focus > n { n as int } else { s.focus },
        },
    }
}

/// The state after one update-loop message.
pub open spec fn message_result(s: StateView, message: WorkspaceMessage) -> StateView {
    match message {
        WorkspaceMessage::ChangeTo(id) => intent_result(s, UserIntent::SwitchTo(id)),
        WorkspaceMessage::ScrollBy(delta) => intent_result(s, scroll_intent_spec(delta)),
        WorkspaceMessage::UpdateTotalWorkspaceSize(n) => event_result(
            s,
            DirectoryEvent::WorkspaceCountChanged(n),
        ),
    }
}

/// The switch command one update-loop message issues, if any.
pub open spec fn message_command(s: StateView, message: WorkspaceMessage) -> Option<int> {
    match message {
        WorkspaceMessage::ChangeTo(id) => intent_command(s, UserIntent::SwitchTo(id)),
        WorkspaceMessage::ScrollBy(delta) => intent_command(s, scroll_intent_spec(delta)),
        WorkspaceMessage::UpdateTotalWorkspaceSize(_) => None,
    }
}

/// The identifier a command names, lifted to the model.
pub open spec fn command_view(cmd: Option<SwitchCommand>) -> Option<int> {
    match cmd {
        None => None,
        Some(c) => Some(c.target as int),
    }
}

/// Whether a scroll gesture moved upward, whatever kind of source reported
/// it.
pub open spec fn scroll_upward(delta: ScrollDelta) -> bool {
    match delta {
        ScrollDelta::Lines { upward } => upward,
        ScrollDelta::Pixels { upward } => upward,
    }
}

/// The intent a scroll gesture maps to: scrolling up cycles to the previous
/// workspace, scrolling down (or a zero delta) to the next.
pub open spec fn scroll_intent_spec(delta: ScrollDelta) -> UserIntent {
    if scroll_upward(delta) {
        UserIntent::CycleBy(Direction::Previous)
    } else {
        UserIntent::CycleBy(Direction::Next)
    }
}

/// Input mapper for scroll gestures. Only the delta's sign is read: any
/// upward gesture cycles to the previous workspace, any other to the next,
/// from either delta source alike.
pub fn scroll_intent(delta: ScrollDelta) -> (intent: UserIntent)
    ensures
        intent == scroll_intent_spec(delta),
{
    match delta {
        ScrollDelta::Lines { upward } | ScrollDelta::Pixels { upward } => {
            if upward {
                UserIntent::CycleBy(Direction::Previous)
            } else {
                UserIntent::CycleBy(Direction::Next)
            }
        },
    }
}

/// Input mapper for workspace buttons: the button at presentation index
/// `index` (0-based) requests the workspace with identifier `index + 1`
/// (1-based).
pub fn button_intent(index: usize) -> (intent: UserIntent)
    requires
        index < usize::MAX,
    ensures
        intent == UserIntent::SwitchTo((index + 1) as usize),
{
    UserIntent::SwitchTo(index + 1)
}

/// One guarded-modular cycle step: the target identifier, computed without
/// any subtraction that could underflow. For a focus inside `[1, total]`
/// this walks the ring; for a focus that has drifted above the total it
/// still lands inside `[1, total]`.
pub fn cycle_target_of(focus_at: usize, total: usize, direction: Direction) -> (target: usize)
    requires
        focus_at >= 1,
        total >= 1,
    ensures
        target as int == cycle_target(focus_at as int, total as int, direction),
        1 <= target <= total,
{
    proof {
        lemma_cycle_target_bounds(focus_at as int, total as int, direction);
    }
    match direction {
        Direction::Previous => {
            let r = (focus_at - 1) % total;
            proof {
                lemma_cycle_previous_form(focus_at as int, total as int);
            }
            if r == 0 {
                total
            } else {
                r
            }
        },
        Direction::Next => {
            proof {
                lemma_cycle_next_form(focus_at as int, total as int);
            }
            focus_at % total + 1
        },
    }
}

/// The workspace total derived from a list of directory-reported
/// identifiers: the largest identifier, or the safe default of one when the
/// list is empty or holds no positive identifier.
pub open spec fn count_of_ids(ids: Seq<i32>) -> int
    decreases ids.len(),
{
    if ids.len() == 0 {
        1
    } else {
        let rest = count_of_ids(ids.drop_last());
        if ids.last() > rest {
            ids.last() as int
        } else {
            rest
        }
    }
}

/// Derive the workspace total from the identifiers the directory reports.
/// Identifiers form a dense range `1..=total`, so the total is their
/// maximum; an empty or all-nonpositive report (the directory's special
/// workspaces carry nonpositive identifiers) falls back to the safe default
/// of one.
pub fn workspace_count_from_ids(ids: &Vec<i32>) -> (total: usize)
    ensures
        total as int == count_of_ids(ids@),
        total >= 1,
{
    let mut total: usize = 1;
    let mut k: usize = 0;
    proof {
        assert(ids@.take(0) =~= Seq::<i32>::empty());
    }
    while k < ids.len()
        invariant
            k <= ids.len(),
            1 <= total <= i32::MAX,
            total as int == count_of_ids(ids@.take(k as int)),
        decreases ids.len() - k,
    {
        let id = ids[k];
        if id >= 1 && (id as usize) > total {
            total = id as usize;
        }
        proof {
            assert(ids@.take(k + 1).drop_last() =~= ids@.take(k as int));
            assert(ids@.take(k + 1).last() == ids@[k as int]);
        }
        k = k + 1;
    }
    proof {
        assert(ids@.take(ids@.len() as int) =~= ids@);
    }
    total
}

/// The cycle target always lands inside `[1, total]`.
proof fn lemma_cycle_target_bounds(focus: int, total: int, direction: Direction)
    requires
        focus >= 1,
        total >= 1,
    ensures
        1 <= cycle_target(focus, total, direction) <= total,
{
    vstd::arithmetic::div_mod::lemma_mod_pos_bound(
        focus - 1 + cycle_step(direction) + total,
        total,
    );
}

/// Stepping to the previous workspace is, in guarded form, the residue of
/// `focus - 1`, with residue zero wrapping to the last workspace.
proof fn lemma_cycle_previous_form(focus: int, total: int)
    requires
        focus >= 1,
        total >= 1,
    ensures
        (focus - 1) % total == 0 ==> cycle_target(focus, total, Direction::Previous) == total,
        (focus - 1) % total != 0 ==> cycle_target(focus, total, Direction::Previous) == (focus
            - 1) % total,
{
    let r = (focus - 1) % total;
    vstd::arithmetic::div_mod::lemma_mod_pos_bound(focus - 1, total);
    assert((focus - 2 + total) % total == (r - 1 + total) % total) by {
        vstd::arithmetic::div_mod::lemma_small_mod(r as nat, total as nat);
        vstd::arithmetic::div_mod::lemma_mod_equivalence(focus - 1, r, total);
        vstd::arithmetic::div_mod::lemma_mod_equivalence(focus - 2 + total, r - 1 + total, total);
    };
    if r == 0 {
        assert((r - 1 + total) % total == total - 1) by {
            vstd::arithmetic::div_mod::lemma_small_mod((total - 1) as nat, total as nat);
        };
    } else {
        assert((r - 1 + total) % total == r - 1) by {
            vstd::arithmetic::div_mod::lemma_mod_multiples_vanish(1, r - 1, total);
            vstd::arithmetic::div_mod::lemma_small_mod((r - 1) as nat, total as nat);
        };
    }
}

/// Stepping to the next workspace is, in guarded form, the residue of
/// `focus` plus one.
pub(crate) proof fn lemma_cycle_next_form(focus: int, total: int)
    requires
        focus >= 1,
        total >= 1,
    ensures
        cycle_target(focus, total, Direction::Next) == focus % total + 1,
{
    vstd::arithmetic::div_mod::lemma_mod_multiples_vanish(1, focus, total);
}

impl Default for Workspaces {
    fn default() -> (w: Workspaces)
        ensures
            w@ == (StateView { total: 1, focus: 1 }),
            w.focus_in_range(),
    {
        Workspaces::new()
    }
}

} // verus!
