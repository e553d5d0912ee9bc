//! The daemon's decisions: which window a pass is about, what a pass asks
//! of the compositor, and how events move the loop from state to state.
use crate::geometry::{
    aspect_ratio, horizontal_halves, ratio_of, ruling_ratio, scaled_size, vertical_halves,
    zone_offset, Ratio, Rect,
};
use crate::state::{pixel_count, pixels, State, StateUpdate, StateUpdateError};
use crate::unit::{AbsolutePixels, AbsoluteUnit, Unit};
use crate::window::{WindowNode, Window};
use vstd::prelude::*;
use vstd::string::StringExecFns;
use vstd::std_specs::convert::FromSpecImpl;

verus! {

/// What the loop is told.
#[derive(Debug, Clone, Copy, PartialEq, Eq, Structural)]
pub enum DaemonEvent {
    /// Stop the daemon.
    Shutdown,
    /// Merge the update and place the window again.
    Update(StateUpdate),
}

impl DaemonEvent {
    /// The event that a request stands for: a shutdown where it asks for
    /// one, else its update.
    pub fn from_request(shutdown: bool, update: StateUpdate) -> (r: DaemonEvent)
        ensures
            r == if shutdown {
                DaemonEvent::Shutdown
            } else {
                DaemonEvent::Update(update)
            },
    {
        if shutdown {
            DaemonEvent::Shutdown
        } else {
            DaemonEvent::Update(update)
        }
    }
}

/// Why the daemon gave up or a pass failed.
#[derive(Debug, Clone, PartialEq, Eq)]
pub enum DaemonError {
    /// Reading or writing failed; the system's own words.
    IoError(String),
    /// A message could not be decoded; the decoder's own words.
    InvalidMessage(String),
    /// The daemon was started with a placement it cannot hold.
    InvalidInitialState(String),
    /// A pass failed.
    StateUpdateFailed(StateUpdateError),
}

impl DaemonError {
    /// This error in words.
    pub open spec fn text(self) -> Seq<char> {
        match self {
            DaemonError::IoError(err) => "IO error: "@ + err@,
            DaemonError::InvalidMessage(err) => "Message decoding error: "@ + err@,
            DaemonError::InvalidInitialState(err) => "Invalid initial state: "@ + err@,
            DaemonError::StateUpdateFailed(err) => "State update error: "@ + err.text(),
        }
    }

    /// Writes this error out.
    pub fn to_string(&self) -> (r: String)
        ensures
            r@ == self.text(),
    {
        match self {
            DaemonError::IoError(err) => String::from_str("IO error: ").concat(err.as_str()),
            DaemonError::InvalidMessage(err) => String::from_str("Message decoding error: ").concat(
                err.as_str(),
            ),
            DaemonError::InvalidInitialState(err) => String::from_str(
                "Invalid initial state: ",
            ).concat(err.as_str()),
            DaemonError::StateUpdateFailed(err) => {
                let inner = err.to_string();
                String::from_str("State update error: ").concat(inner.as_str())
            },
        }
    }
}

/// A failed pass as the daemon's error.
impl From<StateUpdateError> for DaemonError {
    fn from(value: StateUpdateError) -> DaemonError {
        DaemonError::StateUpdateFailed(value)
    }
}

impl FromSpecImpl<StateUpdateError> for DaemonError {
    open spec fn obeys_from_spec() -> bool {
        true
    }

    open spec fn from_spec(value: StateUpdateError) -> DaemonError {
        DaemonError::StateUpdateFailed(value)
    }
}

/// What the compositor reports, by kind.
#[derive(Debug, Clone, Copy, PartialEq, Eq, Structural)]
pub enum CompositorEvent {
    /// The layout was loaded again.
    WorkspaceReload,
    /// Any other change of a workspace.
    Workspace,
    Window,
    Output,
    Shutdown,
    Tick,
    Other,
}

/// The event that the loop gets for a compositor event: an empty update,
/// which places the window again, for a reload of the layout, and none
/// for anything else.
pub fn normalize(event: CompositorEvent) -> (r: Option<DaemonEvent>)
    ensures
        r == if event == CompositorEvent::WorkspaceReload {
            Some(DaemonEvent::Update(StateUpdate::empty()))
        } else {
            None
        },
{
    match event {
        CompositorEvent::WorkspaceReload => Some(DaemonEvent::Update(StateUpdate::default())),
        _ => None,
    }
}

/// Whether `node` can be the target: it floats, and has the focus where
/// the focus is asked for.
pub open spec fn is_candidate(node: WindowNode, need_focus: bool) -> bool {
    node.floating && (need_focus ==> node.focused)
}

/// The nodes that can be the target, in the order of the tree.
pub open spec fn candidates(nodes: Seq<WindowNode>, need_focus: bool) -> Seq<WindowNode> {
    nodes.filter(|node: WindowNode| is_candidate(node, need_focus))
}

/// The window that a pass is about.
///
/// A single floating window is the target, focused or not. Of several, the
/// one that has the focus is. With no floating window there is no target,
/// and with several of which none or more than one has the focus the
/// choice is open.
pub open spec fn target_of(nodes: Seq<WindowNode>) -> Result<WindowNode, StateUpdateError> {
    let floating = candidates(nodes, false);
    let focused = candidates(nodes, true);
    if floating.len() == 0 {
        Err(StateUpdateError::NoApplicableNode)
    } else if floating.len() == 1 {
        Ok(floating[0])
    } else if focused.len() == 1 {
        Ok(focused[0])
    } else {
        Err(StateUpdateError::MultipleApplicableNodes)
    }
}

/// Counts the candidates and finds the first of them.
fn first_candidate(nodes: &Vec<WindowNode>, need_focus: bool) -> (r: (usize, Option<WindowNode>))
    ensures
        r.0 == candidates(nodes@, need_focus).len(),
        r.0 > 0 ==> r.1 == Some(candidates(nodes@, need_focus)[0]),
{
    let ghost pred = |node: WindowNode| is_candidate(node, need_focus);
    let mut count: usize = 0;
    let mut first: Option<WindowNode> = None;
    let mut i: usize = 0;
    proof {
        reveal(Seq::filter);
        assert(nodes@.take(0) =~= Seq::<WindowNode>::empty());
    }
    while i < nodes.len()
        invariant
            i <= nodes@.len(),
            pred == (|node: WindowNode| is_candidate(node, need_focus)),
            count == nodes@.take(i as int).filter(pred).len(),
            count <= i,
            count > 0 ==> first == Some(nodes@.take(i as int).filter(pred)[0]),
        decreases nodes@.len() - i,
    {
        let node = nodes[i];
        proof {
            reveal(Seq::filter);
            assert(nodes@.take(i + 1).drop_last() =~= nodes@.take(i as int));
        }
        if node.floating && (!need_focus || node.focused) {
            if count == 0 {
                first = Some(node);
            }
            count = count + 1;
        }
        i = i + 1;
    }
    assert(nodes@.take(nodes@.len() as int) =~= nodes@);
    (count, first)
}

/// Picks the window that a pass is about among the nodes that the
/// compositor reports.
pub fn select_target(nodes: &Vec<WindowNode>) -> (r: Result<WindowNode, StateUpdateError>)
    ensures
        r == target_of(nodes@),
{
    let (floating, first) = first_candidate(nodes, false);
    if floating == 0 {
        return Err(StateUpdateError::NoApplicableNode);
    }
    if floating == 1 {
        return match first {
            Some(node) => Ok(node),
            None => Err(StateUpdateError::NoApplicableNode),
        };
    }
    let (focused, first) = first_candidate(nodes, true);
    match first {
        Some(node) => if focused == 1 {
            Ok(node)
        } else {
            Err(StateUpdateError::MultipleApplicableNodes)
        },
        None => Err(StateUpdateError::MultipleApplicableNodes),
    }
}

/// What a pass asks of the compositor, and the placement it leaves.
#[derive(Debug, Clone, Copy, PartialEq, Eq, Structural)]
pub struct Placement {
    /// The placement in force after the pass.
    pub state: State,
    /// The width to resize the window to.
    pub width: AbsolutePixels,
    /// The height to resize the window to.
    pub height: AbsolutePixels,
    /// Where to move the window's left edge.
    pub x: i32,
    /// Where to move the window's top edge.
    pub y: i32,
}

/// A size in force as a request.
pub open spec fn requested(size: Option<AbsoluteUnit>) -> Option<Unit> {
    match size {
        Some(size) => Some(Unit::Absolute(size)),
        None => None,
    }
}

/// `area` shrunk by `padding` on each side.
pub open spec fn padded(area: Rect, padding: int) -> Rect {
    Rect {
        x: (area.x + padding) as i32,
        y: (area.y + padding) as i32,
        width: (area.width - 2 * padding) as i32,
        height: (area.height - 2 * padding) as i32,
    }
}

/// The ratio that a pass scales by: the content's own where the placement
/// asks for the natural shape, else the window's current one.
pub open spec fn pass_ratio(node: WindowNode, natural: bool) -> Ratio {
    ruling_ratio(
        node.rect,
        if natural {
            Some(ratio_of(node.geometry.width, node.geometry.height))
        } else {
            None
        },
    )
}

/// The pass for `update` on the window `node` in `working_area`, or none
/// where the padding or the position leaves the range of a pixel.
///
/// The update is merged into `state`. The working area is shrunk by the
/// padding, the size is resolved against the shrunk area, the window is put
/// in its zone of the shrunk area, and the padding is added to the offsets.
pub open spec fn placement_of(node: WindowNode, working_area: Rect, state: State, update: StateUpdate)
    -> Option<Placement> {
    let merged = state.merged(update, Window::snapshot(node, working_area));
    if merged.padding > i32::MAX || !working_area.padding_fits(merged.padding as i32) {
        None
    } else {
        let padding = merged.padding as int;
        let area = padded(working_area, padding);
        let size = scaled_size(
            requested(merged.width),
            requested(merged.height),
            node.rect,
            area,
            pass_ratio(node, merged.natural),
        );
        let x = zone_offset(horizontal_halves(merged.position.1), area.width as int, size.0)
            + padding;
        let y = zone_offset(vertical_halves(merged.position.0), area.height as int, size.1)
            + padding;
        if x > i32::MAX || y > i32::MAX {
            None
        } else {
            Some(
                Placement {
                    state: merged,
                    width: pixel_count(size.0 as i32),
                    height: pixel_count(size.1 as i32),
                    x: x as i32,
                    y: y as i32,
                },
            )
        }
    }
}

fn as_request(size: Option<AbsoluteUnit>) -> (r: Option<Unit>)
    ensures
        r == requested(size),
{
    match size {
        Some(size) => Some(Unit::Absolute(size)),
        None => None,
    }
}

/// Works out one pass: merges `update` into `state` and resolves the size
/// and the position to ask of the compositor.
pub fn move_window(target_node: &WindowNode, working_area: Rect, state: State, update: StateUpdate) -> (r:
    Option<Placement>)
    ensures
        r == placement_of(*target_node, working_area, state, update),
{
    let mut state = state;
    let context = Window::from_node(target_node, working_area);
    state.update(update, &context);
    if state.padding > 2147483647 {
        return None;
    }
    let padding: i32 = state.padding as i32;
    if !working_area.fits_padding(padding) {
        return None;
    }
    let proper_area = working_area.with_padding(padding);
    let current_rect = target_node.rect;
    let ratio = if state.natural {
        Some(aspect_ratio(target_node.geometry.width, target_node.geometry.height))
    } else {
        None
    };
    let scaled = current_rect.scale(
        as_request(state.width),
        as_request(state.height),
        &current_rect,
        &proper_area,
        ratio,
    );
    let rect = proper_area.get_pos_for_rect_of_size(&state.position, &scaled);
    // The zone was found in the shrunk area, whose corner lies one padding
    // inside the working area's.
    if rect.x > i32::MAX - padding || rect.y > i32::MAX - padding {
        return None;
    }
    let final_pos = rect.translate(padding, padding);
    Some(
        Placement {
            state,
            width: pixels(scaled.width),
            height: pixels(scaled.height),
            x: final_pos.x,
            y: final_pos.y,
        },
    )
}

/// Where the loop stands.
#[derive(Debug, Clone, Copy, PartialEq, Eq, Structural)]
pub enum Phase {
    /// Waiting for the next event.
    Idle,
    /// A pass is under way.
    Resolving,
    /// The loop has been told to stop; nothing follows.
    ShuttingDown,
}

/// What the loop's owner does next.
#[derive(Debug, Clone, Copy, PartialEq, Eq, Structural)]
pub enum Action {
    /// Run a pass for this update, then report how it went.
    Resolve(StateUpdate),
    /// A pass is under way: hand this update in again once it is over.
    Defer(StateUpdate),
    /// Stop the event sources and leave.
    Stop,
    /// Nothing: the loop has stopped.
    Ignore,
}

/// The loop: the placement in force and the phase.
#[derive(Debug, Clone, Copy, PartialEq, Eq, Structural)]
pub struct Daemon {
    pub state: State,
    pub phase: Phase,
}

impl Daemon {
    /// The loop after `event`, and what its owner does next.
    ///
    /// A stopped loop stays stopped. A shutdown stops the loop from any
    /// other phase. An update starts a pass when the loop is idle and is
    /// handed back while a pass is under way.
    pub open spec fn step(self, event: DaemonEvent) -> (Daemon, Action) {
        match (self.phase, event) {
            (Phase::ShuttingDown, _) => (self, Action::Ignore),
            (_, DaemonEvent::Shutdown) => (
                Daemon { state: self.state, phase: Phase::ShuttingDown },
                Action::Stop,
            ),
            (Phase::Idle, DaemonEvent::Update(update)) => (
                Daemon { state: self.state, phase: Phase::Resolving },
                Action::Resolve(update),
            ),
            (Phase::Resolving, DaemonEvent::Update(update)) => (self, Action::Defer(update)),
        }
    }

    /// The loop after a pass that left `merged`: the merged placement is in
    /// force, whether or not the compositor took the commands, and the
    /// placement stays where the pass was given up before the merge. Only
    /// a loop that is resolving changes.
    pub open spec fn settled(self, merged: Option<State>) -> Daemon {
        if self.phase == Phase::Resolving {
            Daemon {
                state: match merged {
                    Some(state) => state,
                    None => self.state,
                },
                phase: Phase::Idle,
            }
        } else {
            self
        }
    }

    /// An idle loop with the placement `initial_state` in force.
    pub fn new(initial_state: State) -> (r: Daemon)
        ensures
            r == (Daemon { state: initial_state, phase: Phase::Idle }),
    {
        Daemon { state: initial_state, phase: Phase::Idle }
    }

    /// Takes the next event and tells what to do about it.
    pub fn accept(&mut self, event: DaemonEvent) -> (action: Action)
        ensures
            (*final(self), action) == old(self).step(event),
    {
        match self.phase {
            Phase::ShuttingDown => Action::Ignore,
            Phase::Idle => match event {
                DaemonEvent::Shutdown => {
                    self.phase = Phase::ShuttingDown;
                    Action::Stop
                },
                DaemonEvent::Update(update) => {
                    self.phase = Phase::Resolving;
                    Action::Resolve(update)
                },
            },
            Phase::Resolving => match event {
                DaemonEvent::Shutdown => {
                    self.phase = Phase::ShuttingDown;
                    Action::Stop
                },
                DaemonEvent::Update(update) => Action::Defer(update),
            },
        }
    }

    /// Ends the pass under way. `merged` is the placement that the pass
    /// left, or none where it was given up before the update was merged.
    pub fn complete(&mut self, merged: Option<State>)
        ensures
            *final(self) == old(self).settled(merged),
    {
        match self.phase {
            Phase::Resolving => {
                if let Some(state) = merged {
                    self.state = state;
                }
                self.phase = Phase::Idle;
            },
            _ => {},
        }
    }
}

/// A loop that has stopped stays as it is, whatever it is told and
/// whatever pass is reported to it.
pub proof fn lemma_stopped_loop_stays(daemon: Daemon, event: DaemonEvent, merged: Option<State>)
    requires
        daemon.phase == Phase::ShuttingDown,
    ensures
        daemon.step(event) == (daemon, Action::Ignore),
        daemon.settled(merged) == daemon,
{
}

/// A pass starts only from an idle loop, which is then resolving until the
/// pass is reported: no two passes are under way at once.
pub proof fn lemma_one_pass_at_a_time(daemon: Daemon, event: DaemonEvent)
    ensures
        daemon.step(event).1 is Resolve <==> daemon.phase == Phase::Idle && event is Update,
        daemon.step(event).1 is Resolve ==> daemon.step(event).0.phase == Phase::Resolving,
        daemon.phase == Phase::Resolving ==> !(daemon.step(event).1 is Resolve),
{
}

/// An event never changes the placement in force: only the end of a pass
/// does, and a shutdown reaches every loop that has not stopped.
pub proof fn lemma_events_keep_the_placement(daemon: Daemon, event: DaemonEvent)
    ensures
        daemon.step(event).0.state == daemon.state,
        event is Shutdown ==> daemon.step(event).0.phase == Phase::ShuttingDown,
        event is Shutdown && daemon.phase != Phase::ShuttingDown ==> daemon.step(event).1
            == Action::Stop,
{
}

} // verus!
