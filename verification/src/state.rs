//! The placement a user asked for: the zone, the padding and the size, and
//! how a partial update changes it.
use crate::daemon::DaemonError;
use crate::numeric::clamp;
use crate::unit::{AbsolutePixels, AbsoluteUnit, RelativeUnit, Unit};
use crate::window::Window;
use vstd::prelude::*;
use vstd::string::StringExecFns;
use vstd::std_specs::convert::FromSpecImpl;

verus! {

/// Where in the height of the space the window goes.
#[derive(Debug, Clone, Copy, PartialEq, Eq, Structural)]
pub enum Vertical {
    /// Top-aligned in the top third of the space
    Top,
    /// Centered on the middle third of the space
    Middle,
    /// Bottom-aligned in the bottom third of the space
    Bottom,
}

/// Where in the width of the space the window goes.
#[derive(Debug, Clone, Copy, PartialEq, Eq, Structural)]
pub enum Horizontal {
    /// Left-aligned in the left third of the space
    Left,
    /// Centered on the middle third of the space
    Middle,
    /// Right-aligned in the right third of the space
    Right,
}

impl Default for Vertical {
    fn default() -> (r: Vertical)
        ensures
            r == Vertical::Bottom,
    {
        Vertical::Bottom
    }
}

impl Default for Horizontal {
    fn default() -> (r: Horizontal)
        ensures
            r == Horizontal::Right,
    {
        Horizontal::Right
    }
}

/// A zone of the space: one of three positions on each axis.
#[derive(Debug, Clone, Copy, PartialEq, Eq, Structural)]
pub struct Position(pub Vertical, pub Horizontal);

/// A change of zone; an axis that is absent stays as it is.
#[derive(Debug, Clone, Copy, PartialEq, Eq, Structural)]
pub struct PositionUpdate(pub Option<Vertical>, pub Option<Horizontal>);

impl Position {
    /// This zone after `update`: each axis that the update names replaces
    /// the current one.
    pub open spec fn updated(self, update: PositionUpdate) -> Position {
        Position(
            match update.0 {
                Some(vertical) => vertical,
                None => self.0,
            },
            match update.1 {
                Some(horizontal) => horizontal,
                None => self.1,
            },
        )
    }

    /// Takes over the axes that `update` names.
    pub fn update(&mut self, update: PositionUpdate)
        ensures
            *final(self) == old(self).updated(update),
    {
        if let Some(vertical) = update.0 {
            self.0 = vertical;
        }
        if let Some(horizontal) = update.1 {
            self.1 = horizontal;
        }
    }
}

/// The change that names both axes of a zone.
impl From<Position> for PositionUpdate {
    fn from(value: Position) -> PositionUpdate {
        PositionUpdate(Some(value.0), Some(value.1))
    }
}

impl FromSpecImpl<Position> for PositionUpdate {
    open spec fn obeys_from_spec() -> bool {
        true
    }

    open spec fn from_spec(value: Position) -> PositionUpdate {
        PositionUpdate(Some(value.0), Some(value.1))
    }
}

impl Default for Position {
    fn default() -> (r: Position)
        ensures
            r == Position(Vertical::Bottom, Horizontal::Right),
    {
        Position(Vertical::Bottom, Horizontal::Right)
    }
}

impl Default for PositionUpdate {
    fn default() -> (r: PositionUpdate)
        ensures
            r == PositionUpdate(None, None),
    {
        PositionUpdate(None, None)
    }
}

/// A partial placement: each field that is absent leaves the state as it is.
#[derive(Debug, Clone, Copy, PartialEq, Eq, Structural)]
pub struct StateUpdate {
    pub position: PositionUpdate,
    pub padding: Option<u32>,
    pub width: Option<Unit>,
    pub height: Option<Unit>,
    pub natural: Option<bool>,
}

impl Default for StateUpdate {
    fn default() -> (r: StateUpdate)
        ensures
            r == StateUpdate::empty(),
    {
        StateUpdate {
            position: PositionUpdate(None, None),
            padding: None,
            width: None,
            height: None,
            natural: None,
        }
    }
}

impl StateUpdate {
    /// The update that changes nothing.
    pub open spec fn empty() -> StateUpdate {
        StateUpdate {
            position: PositionUpdate(None, None),
            padding: None,
            width: None,
            height: None,
            natural: None,
        }
    }

    /// The update that names every field of `state`.
    pub open spec fn of_state(state: State) -> StateUpdate {
        StateUpdate {
            position: PositionUpdate(Some(state.position.0), Some(state.position.1)),
            padding: Some(state.padding),
            width: match state.width {
                Some(width) => Some(Unit::Absolute(width)),
                None => None,
            },
            height: match state.height {
                Some(height) => Some(Unit::Absolute(height)),
                None => None,
            },
            natural: Some(state.natural),
        }
    }
}

/// The update that sets everything to what a placement holds.
impl From<State> for StateUpdate {
    fn from(state: State) -> StateUpdate {
        StateUpdate {
            position: PositionUpdate(Some(state.position.0), Some(state.position.1)),
            padding: Some(state.padding),
            width: match state.width {
                Some(width) => Some(Unit::Absolute(width)),
                None => None,
            },
            height: match state.height {
                Some(height) => Some(Unit::Absolute(height)),
                None => None,
            },
            natural: Some(state.natural),
        }
    }
}

impl FromSpecImpl<State> for StateUpdate {
    open spec fn obeys_from_spec() -> bool {
        true
    }

    open spec fn from_spec(state: State) -> StateUpdate {
        StateUpdate::of_state(state)
    }
}

/// What a daemon may be started with. The sizes are absolute: there is
/// no window yet that a relative one could refer to.
#[derive(Debug, Clone, Copy, PartialEq, Eq, Structural)]
pub struct InitialStateOptions {
    pub position: PositionUpdate,
    pub padding: Option<u32>,
    pub width: Option<AbsoluteUnit>,
    pub height: Option<AbsoluteUnit>,
    pub natural: Option<bool>,
}

/// Which extent of a first request was relative.
#[derive(Debug, Clone, Copy, PartialEq, Eq, Structural)]
pub enum InitialStateError {
    RelativeWidth,
    RelativeHeight,
}

impl InitialStateError {
    /// What the user is told.
    pub open spec fn message(self) -> Seq<char> {
        match self {
            InitialStateError::RelativeWidth => "The initial width must not be a relative value"@,
            InitialStateError::RelativeHeight => "The initial height must not be a relative value"@,
        }
    }
}

impl InitialStateOptions {
    /// The options that a first request comes to, or the extent that rules
    /// it out: the width is looked at before the height.
    pub open spec fn of_request(request: StateUpdate) -> Result<
        InitialStateOptions,
        InitialStateError,
    > {
        match request.width {
            Some(Unit::Relative(_)) => Err(InitialStateError::RelativeWidth),
            _ => match request.height {
                Some(Unit::Relative(_)) => Err(InitialStateError::RelativeHeight),
                _ => Ok(
                    InitialStateOptions {
                        position: request.position,
                        padding: request.padding,
                        width: match request.width {
                            Some(Unit::Absolute(width)) => Some(width),
                            _ => None,
                        },
                        height: match request.height {
                            Some(Unit::Absolute(height)) => Some(height),
                            _ => None,
                        },
                        natural: request.natural,
                    },
                ),
            },
        }
    }

    /// Takes a first request as the options to start with. A relative
    /// width or height is refused.
    pub fn try_from(request: StateUpdate) -> (r: Result<InitialStateOptions, DaemonError>)
        ensures
            match InitialStateOptions::of_request(request) {
                Ok(options) => r == Ok::<InitialStateOptions, DaemonError>(options),
                Err(fault) => r matches Err(DaemonError::InvalidInitialState(message))
                    && message@ == fault.message(),
            },
    {
        let width = match request.width {
            Some(Unit::Absolute(width)) => Some(width),
            Some(Unit::Relative(_)) => {
                return Err(
                    DaemonError::InvalidInitialState(
                        "The initial width must not be a relative value".to_owned(),
                    ),
                );
            },
            None => None,
        };
        let height = match request.height {
            Some(Unit::Absolute(height)) => Some(height),
            Some(Unit::Relative(_)) => {
                return Err(
                    DaemonError::InvalidInitialState(
                        "The initial height must not be a relative value".to_owned(),
                    ),
                );
            },
            None => None,
        };
        Ok(
            InitialStateOptions {
                position: request.position,
                padding: request.padding,
                width,
                height,
                natural: request.natural,
            },
        )
    }
}

/// The placement in force.
#[derive(Debug, Clone, Copy, PartialEq, Eq, Structural)]
pub struct State {
    pub position: Position,
    pub padding: u32,
    pub width: Option<AbsoluteUnit>,
    pub height: Option<AbsoluteUnit>,
    pub natural: bool,
}

impl Default for State {
    fn default() -> (r: State)
        ensures
            r == State::initial(),
    {
        State {
            position: Position(Vertical::Bottom, Horizontal::Right),
            padding: 0,
            width: None,
            height: None,
            natural: false,
        }
    }
}

/// An extent in pixels as a size: negative extents count as nothing.
pub open spec fn pixel_count(extent: i32) -> AbsolutePixels {
    AbsolutePixels(clamp(extent as int, 0, i32::MAX as int) as u32)
}

/// Takes an extent in pixels as a size.
pub fn pixels(extent: i32) -> (r: AbsolutePixels)
    ensures
        r == pixel_count(extent),
{
    if extent < 0 {
        AbsolutePixels(0)
    } else {
        AbsolutePixels(extent as u32)
    }
}

/// The size that a requested extent leaves in the state: the request
/// resolved against the size in force, or against the window's own extent
/// `fallback` where none is in force, in a parent of extent `parent`.
pub open spec fn merged_extent(
    current: Option<AbsoluteUnit>,
    requested: Unit,
    fallback: i32,
    parent: i32,
) -> AbsoluteUnit {
    requested.absolute(
        match current {
            Some(size) => size,
            None => AbsoluteUnit::Pixels(pixel_count(fallback)),
        },
        pixel_count(parent),
    )
}

impl State {
    /// The placement before any request: bottom right, no padding, no size.
    pub open spec fn initial() -> State {
        State {
            position: Position(Vertical::Bottom, Horizontal::Right),
            padding: 0,
            width: None,
            height: None,
            natural: false,
        }
    }

    /// The placement that `initial` starts a daemon with.
    pub open spec fn started(initial: InitialStateOptions) -> State {
        State {
            position: State::initial().position.updated(initial.position),
            padding: match initial.padding {
                Some(padding) => padding,
                None => 0,
            },
            width: initial.width,
            height: initial.height,
            natural: match initial.natural {
                Some(natural) => natural,
                None => false,
            },
        }
    }

    /// This placement after `update`, for the window `context`.
    ///
    /// Zone, padding and the natural flag are replaced where the update
    /// names them. Width and height go together: where the update names
    /// both, both are replaced; where it names one, that one is replaced and
    /// the other is cleared; where it names neither, both stay.
    pub open spec fn merged(self, update: StateUpdate, context: Window) -> State {
        State {
            position: self.position.updated(update.position),
            padding: match update.padding {
                Some(padding) => padding,
                None => self.padding,
            },
            width: match (update.width, update.height) {
                (Some(width), _) => Some(
                    merged_extent(
                        self.width,
                        width,
                        context.dimensions.width,
                        context.working_area.width,
                    ),
                ),
                (None, Some(_)) => None,
                (None, None) => self.width,
            },
            height: match (update.width, update.height) {
                (_, Some(height)) => Some(
                    merged_extent(
                        self.height,
                        height,
                        context.dimensions.height,
                        context.working_area.height,
                    ),
                ),
                (Some(_), None) => None,
                (None, None) => self.height,
            },
            natural: match update.natural {
                Some(natural) => natural,
                None => self.natural,
            },
        }
    }

    /// Merges `update` into this placement, for the window `context`.
    pub fn update(&mut self, update: StateUpdate, context: &Window)
        ensures
            *final(self) == old(self).merged(update, *context),
    {
        self.position.update(update.position);
        if let Some(padding) = update.padding {
            self.padding = padding;
        }
        if let Some(natural) = update.natural {
            self.natural = natural;
        }
        let default_width = AbsoluteUnit::Pixels(pixels(context.dimensions.width));
        let default_height = AbsoluteUnit::Pixels(pixels(context.dimensions.height));
        let parent_width = pixels(context.working_area.width);
        let parent_height = pixels(context.working_area.height);
        let current_width = match self.width {
            Some(size) => size,
            None => default_width,
        };
        let current_height = match self.height {
            Some(size) => size,
            None => default_height,
        };
        // With one extent given, the other is cleared: it belonged to another shape.
        match (update.width, update.height) {
            (Some(width), Some(height)) => {
                self.width = Some(width.to_absolute(current_width, parent_width));
                self.height = Some(height.to_absolute(current_height, parent_height));
            },
            (Some(width), None) => {
                self.width = Some(width.to_absolute(current_width, parent_width));
                self.height = None;
            },
            (None, Some(height)) => {
                self.width = None;
                self.height = Some(height.to_absolute(current_height, parent_height));
            },
            (None, None) => {},
        }
    }

    /// The placement that a daemon starts with.
    pub fn with_initial(initial: InitialStateOptions) -> (r: State)
        ensures
            r == State::started(initial),
    {
        let mut position = Position(Vertical::Bottom, Horizontal::Right);
        position.update(initial.position);
        State {
            position,
            padding: match initial.padding {
                Some(padding) => padding,
                None => 0,
            },
            width: initial.width,
            height: initial.height,
            natural: match initial.natural {
                Some(natural) => natural,
                None => false,
            },
        }
    }
}

/// Whether a requested extent asks for the same size again once it has
/// been merged: an absolute size does, and so does a change of nothing.
pub open spec fn settles(requested: Option<Unit>) -> bool {
    match requested {
        Some(Unit::Relative(RelativeUnit::Pixels(change))) => change.0 == 0,
        Some(Unit::Relative(RelativeUnit::Percentage(change))) => change.0 == 0,
        _ => true,
    }
}

/// Whether a requested extent, resolved against the size `merged` that a
/// first merge left, gives that size again.
pub open spec fn stays(requested: Option<Unit>, merged: Option<AbsoluteUnit>, parent: i32)
    -> bool {
    match (requested, merged) {
        (Some(unit), Some(size)) => unit.absolute(size, pixel_count(parent)) == size,
        _ => true,
    }
}

/// Merging the empty update changes nothing.
pub proof fn lemma_empty_update_keeps(state: State, context: Window)
    ensures
        state.merged(StateUpdate::empty(), context) == state,
{
}

/// Merging an update a second time changes nothing more exactly when each
/// size that it asks for stays where the first merge left it. A relative
/// size is applied again by the second merge, so it has to be one that
/// moves nothing.
pub proof fn lemma_update_twice(state: State, update: StateUpdate, context: Window)
    ensures
        ({
            let once = state.merged(update, context);
            once.merged(update, context) == once <==> stays(
                update.width,
                once.width,
                context.working_area.width,
            ) && stays(update.height, once.height, context.working_area.height)
        }),
{
}

/// Merging an update a second time changes nothing more where the sizes
/// that the update asks for are absolute, or changes of nothing.
pub proof fn lemma_update_twice_is_once(state: State, update: StateUpdate, context: Window)
    requires
        settles(update.width),
        settles(update.height),
    ensures
        state.merged(update, context).merged(update, context) == state.merged(update, context),
{
    lemma_update_twice(state, update, context);
}

/// An update that names one extent clears the other, whatever was in
/// force; one that names neither leaves both.
pub proof fn lemma_one_extent_clears_other(state: State, update: StateUpdate, context: Window)
    ensures
        update.width.is_some() && update.height.is_none() ==> state.merged(
            update,
            context,
        ).height.is_none() && state.merged(update, context).width.is_some(),
        update.height.is_some() && update.width.is_none() ==> state.merged(
            update,
            context,
        ).width.is_none() && state.merged(update, context).height.is_some(),
        update.width.is_none() && update.height.is_none() ==> state.merged(update, context).width
            == state.width && state.merged(update, context).height == state.height,
{
}

/// Why a pass could not place a window.
#[derive(Debug, Clone, PartialEq, Eq)]
pub enum StateUpdateError {
    /// The compositor refused or could not be reached; its own words.
    SwayIPC(String),
    /// There is no floating window.
    NoApplicableNode,
    /// There are several floating windows and the focus picks none of them.
    MultipleApplicableNodes,
}

impl StateUpdateError {
    /// This error in words.
    pub open spec fn text(self) -> Seq<char> {
        match self {
            StateUpdateError::SwayIPC(err) => "SwayIPC error: "@ + err@,
            StateUpdateError::NoApplicableNode => "No applicable node found"@,
            StateUpdateError::MultipleApplicableNodes => "Multiple applicable nodes found"@,
        }
    }

    /// Writes this error out.
    pub fn to_string(&self) -> (r: String)
        ensures
            r@ == self.text(),
    {
        match self {
            StateUpdateError::SwayIPC(err) => String::from_str("SwayIPC error: ").concat(
                err.as_str(),
            ),
            StateUpdateError::NoApplicableNode => String::from_str("No applicable node found"),
            StateUpdateError::MultipleApplicableNodes => String::from_str(
                "Multiple applicable nodes found",
            ),
        }
    }
}

} // verus!
