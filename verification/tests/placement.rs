use sway_gravity::daemon::{
    move_window, normalize, select_target, Action, CompositorEvent, Daemon, DaemonError,
    DaemonEvent, Phase, Placement,
};
use sway_gravity::geometry::{Ratio, Rect};
use sway_gravity::handover::{Handover, HandoverStep, HANDOVER_TRIES};
use sway_gravity::state::{
    Horizontal, InitialStateOptions, Position, PositionUpdate, State, StateUpdate,
    StateUpdateError, Vertical,
};
use sway_gravity::unit::{
    AbsolutePercentage, AbsolutePixels, AbsoluteUnit, RelativePercentage, RelativePixels,
    RelativeUnit, Unit,
};
use sway_gravity::window::{
    find_working_area_for, Coordinate, Window, WindowDimension, WindowNode, Workspace,
};

fn window(width: i32, height: i32, area_width: i32, area_height: i32) -> Window {
    Window {
        position: Coordinate::new(0, 0),
        dimensions: WindowDimension { width, height },
        natural_dimensions: None,
        working_area: Rect::_new(0, 0, area_width, area_height),
    }
}

fn node(id: i64, floating: bool, focused: bool) -> WindowNode {
    WindowNode {
        id,
        floating,
        focused,
        rect: Rect::_new(0, 0, 200, 100),
        deco_rect: Rect::_new(0, 0, 200, 20),
        geometry: Rect::_new(0, 0, 300, 100),
    }
}

fn px(value: u32) -> Option<Unit> {
    Some(Unit::Absolute(AbsoluteUnit::Pixels(AbsolutePixels(value))))
}

#[test]
fn default_state_is_bottom_right() {
    let state = State::default();
    assert_eq!(state.position, Position(Vertical::Bottom, Horizontal::Right));
    assert_eq!(state.padding, 0);
    assert_eq!(state.width, None);
    assert_eq!(state.height, None);
    assert!(!state.natural);
    assert_eq!(Vertical::default(), Vertical::Bottom);
    assert_eq!(Horizontal::default(), Horizontal::Right);
    assert_eq!(Position::default(), state.position);
    assert_eq!(PositionUpdate::default(), PositionUpdate(None, None));
}

#[test]
fn position_update_replaces_named_axes() {
    let mut position = Position(Vertical::Top, Horizontal::Left);
    position.update(PositionUpdate(None, Some(Horizontal::Middle)));
    assert_eq!(position, Position(Vertical::Top, Horizontal::Middle));
    position.update(PositionUpdate(Some(Vertical::Bottom), None));
    assert_eq!(position, Position(Vertical::Bottom, Horizontal::Middle));
    position.update(PositionUpdate(None, None));
    assert_eq!(position, Position(Vertical::Bottom, Horizontal::Middle));
    assert_eq!(
        PositionUpdate::from(position),
        PositionUpdate(Some(Vertical::Bottom), Some(Horizontal::Middle))
    );
}

#[test]
fn empty_update_leaves_state_unchanged() {
    let context = window(200, 100, 1000, 500);
    let mut state = State {
        position: Position(Vertical::Top, Horizontal::Middle),
        padding: 12,
        width: Some(AbsoluteUnit::Pixels(AbsolutePixels(300))),
        height: Some(AbsoluteUnit::Percentage(AbsolutePercentage(40_000_000))),
        natural: true,
    };
    let before = state;
    state.update(StateUpdate::default(), &context);
    assert_eq!(state, before);
}

#[test]
fn same_update_twice_is_once() {
    let context = window(200, 100, 1000, 500);
    let update = StateUpdate {
        position: PositionUpdate(Some(Vertical::Middle), None),
        padding: Some(8),
        width: px(640),
        height: None,
        natural: Some(true),
    };
    let mut once = State::default();
    once.update(update, &context);
    let mut twice = once;
    twice.update(update, &context);
    assert_eq!(once, twice);
    assert_eq!(once.position, Position(Vertical::Middle, Horizontal::Right));
    assert_eq!(once.padding, 8);
    assert_eq!(once.width, Some(AbsoluteUnit::Pixels(AbsolutePixels(640))));
    assert_eq!(once.height, None);
    assert!(once.natural);
}

#[test]
fn relative_update_applies_each_time() {
    let context = window(200, 100, 1000, 500);
    let update = StateUpdate {
        width: Some(Unit::Relative(RelativeUnit::Pixels(RelativePixels(50)))),
        ..StateUpdate::default()
    };
    let mut state = State::default();
    state.update(update, &context);
    assert_eq!(state.width, Some(AbsoluteUnit::Pixels(AbsolutePixels(250))));
    state.update(update, &context);
    assert_eq!(state.width, Some(AbsoluteUnit::Pixels(AbsolutePixels(300))));
}

#[test]
fn relative_percentage_update_uses_the_working_area() {
    let context = window(200, 100, 1000, 500);
    let update = StateUpdate {
        height: Some(Unit::Relative(RelativeUnit::Percentage(RelativePercentage(
            5_000_000,
        )))),
        ..StateUpdate::default()
    };
    let mut state = State::default();
    state.update(update, &context);
    assert_eq!(state.width, None);
    assert_eq!(
        state.height,
        Some(AbsoluteUnit::Percentage(AbsolutePercentage(25_000_000)))
    );
}

#[test]
fn one_extent_clears_the_other() {
    let context = window(200, 100, 1000, 500);
    let both = State {
        width: Some(AbsoluteUnit::Pixels(AbsolutePixels(300))),
        height: Some(AbsoluteUnit::Pixels(AbsolutePixels(150))),
        ..State::default()
    };
    let mut state = both;
    state.update(
        StateUpdate {
            width: px(400),
            ..StateUpdate::default()
        },
        &context,
    );
    assert_eq!(state.width, Some(AbsoluteUnit::Pixels(AbsolutePixels(400))));
    assert_eq!(state.height, None);

    let mut state = both;
    state.update(
        StateUpdate {
            height: px(400),
            ..StateUpdate::default()
        },
        &context,
    );
    assert_eq!(state.width, None);
    assert_eq!(state.height, Some(AbsoluteUnit::Pixels(AbsolutePixels(400))));

    let mut state = both;
    state.update(
        StateUpdate {
            width: px(10),
            height: px(20),
            ..StateUpdate::default()
        },
        &context,
    );
    assert_eq!(state.width, Some(AbsoluteUnit::Pixels(AbsolutePixels(10))));
    assert_eq!(state.height, Some(AbsoluteUnit::Pixels(AbsolutePixels(20))));

    let mut state = both;
    state.update(
        StateUpdate {
            padding: Some(3),
            ..StateUpdate::default()
        },
        &context,
    );
    assert_eq!(state.width, both.width);
    assert_eq!(state.height, both.height);
    assert_eq!(state.padding, 3);
}

#[test]
fn initial_options_refuse_relative_sizes() {
    let request = StateUpdate {
        position: PositionUpdate(Some(Vertical::Top), None),
        padding: Some(4),
        width: px(100),
        height: None,
        natural: None,
    };
    let options = InitialStateOptions::try_from(request).unwrap();
    assert_eq!(options.position, PositionUpdate(Some(Vertical::Top), None));
    assert_eq!(options.padding, Some(4));
    assert_eq!(options.width, Some(AbsoluteUnit::Pixels(AbsolutePixels(100))));
    assert_eq!(options.height, None);
    assert_eq!(options.natural, None);

    let state = State::with_initial(options);
    assert_eq!(state.position, Position(Vertical::Top, Horizontal::Right));
    assert_eq!(state.padding, 4);
    assert_eq!(state.width, Some(AbsoluteUnit::Pixels(AbsolutePixels(100))));
    assert_eq!(state.height, None);
    assert!(!state.natural);

    let relative = Some(Unit::Relative(RelativeUnit::Pixels(RelativePixels(1))));
    assert_eq!(
        InitialStateOptions::try_from(StateUpdate {
            width: relative,
            height: relative,
            ..StateUpdate::default()
        }),
        Err(DaemonError::InvalidInitialState(
            "The initial width must not be a relative value".to_string()
        ))
    );
    assert_eq!(
        InitialStateOptions::try_from(StateUpdate {
            height: relative,
            ..StateUpdate::default()
        }),
        Err(DaemonError::InvalidInitialState(
            "The initial height must not be a relative value".to_string()
        ))
    );
}

#[test]
fn state_as_update_names_every_field() {
    let state = State {
        position: Position(Vertical::Top, Horizontal::Left),
        padding: 7,
        width: Some(AbsoluteUnit::Pixels(AbsolutePixels(300))),
        height: None,
        natural: true,
    };
    let update = StateUpdate::from(state);
    assert_eq!(
        update,
        StateUpdate {
            position: PositionUpdate(Some(Vertical::Top), Some(Horizontal::Left)),
            padding: Some(7),
            width: px(300),
            height: None,
            natural: Some(true),
        }
    );
}

#[test]
fn window_shares_of_the_working_area() {
    let w = window(200, 100, 1000, 300);
    assert_eq!(w.width_in_parent_percentage(), AbsolutePercentage(20_000_000));
    assert_eq!(w.height_in_parent_percentage(), AbsolutePercentage(33_333_333));
    let empty = window(200, 100, 0, 0);
    assert_eq!(empty.width_in_parent_percentage(), AbsolutePercentage(0));
    assert!(w.dimensions.ratio().same_as(&Ratio::new(2, 1)));
    assert!(WindowDimension { width: 5, height: 0 }
        .ratio()
        .same_as(&Ratio::new(0, 1)));
    let from = Window::from_node(&node(1, true, true), Rect::_new(0, 0, 1000, 300));
    assert_eq!(from.dimensions, WindowDimension { width: 200, height: 100 });
    assert_eq!(
        from.natural_dimensions,
        Some(WindowDimension { width: 300, height: 100 })
    );
    assert_eq!(from.position, Coordinate::new(0, 0));
    assert_eq!(from.working_area, Rect::_new(0, 0, 1000, 300));
}

#[test]
fn target_is_the_single_floating_window() {
    let nodes = vec![node(1, false, true), node(2, true, false), node(3, false, false)];
    assert_eq!(select_target(&nodes).map(|n| n.id), Ok(2));
}

#[test]
fn target_is_the_focused_floating_window() {
    let nodes = vec![
        node(1, false, false),
        node(2, true, false),
        node(3, true, true),
        node(4, true, false),
    ];
    assert_eq!(select_target(&nodes).map(|n| n.id), Ok(3));
}

#[test]
fn no_floating_window_is_no_target() {
    assert_eq!(
        select_target(&Vec::new()),
        Err(StateUpdateError::NoApplicableNode)
    );
    let nodes = vec![node(1, false, true), node(2, false, false)];
    assert_eq!(
        select_target(&nodes),
        Err(StateUpdateError::NoApplicableNode)
    );
}

#[test]
fn several_floating_windows_need_one_focus() {
    let none = vec![node(1, true, false), node(2, true, false), node(3, false, true)];
    assert_eq!(
        select_target(&none),
        Err(StateUpdateError::MultipleApplicableNodes)
    );
    let two = vec![node(1, true, true), node(2, true, true)];
    assert_eq!(
        select_target(&two),
        Err(StateUpdateError::MultipleApplicableNodes)
    );
}

#[test]
fn move_window_width_only_bottom_right() {
    let target = node(9, true, true);
    let area = Rect::_new(0, 0, 200, 100);
    let update = StateUpdate {
        width: px(400),
        ..StateUpdate::default()
    };
    let placement = move_window(&target, area, State::default(), update).unwrap();
    assert_eq!(
        placement,
        Placement {
            state: State {
                width: Some(AbsoluteUnit::Pixels(AbsolutePixels(400))),
                ..State::default()
            },
            width: AbsolutePixels(400),
            height: AbsolutePixels(200),
            x: -200,
            y: -100,
        }
    );
}

#[test]
fn move_window_natural_ratio_and_padding() {
    let target = node(9, true, true);
    let area = Rect::_new(0, 0, 1000, 500);
    let update = StateUpdate {
        position: PositionUpdate(Some(Vertical::Top), Some(Horizontal::Left)),
        padding: Some(10),
        width: px(300),
        height: None,
        natural: Some(true),
    };
    let placement = move_window(&target, area, State::default(), update).unwrap();
    assert_eq!(placement.width, AbsolutePixels(300));
    assert_eq!(placement.height, AbsolutePixels(100));
    assert_eq!((placement.x, placement.y), (10, 10));

    let update = StateUpdate {
        position: PositionUpdate(Some(Vertical::Middle), Some(Horizontal::Middle)),
        padding: Some(10),
        width: Some(Unit::Absolute(AbsoluteUnit::Percentage(AbsolutePercentage(
            50_000_000,
        )))),
        height: None,
        natural: None,
    };
    let placement = move_window(&target, area, State::default(), update).unwrap();
    assert_eq!(placement.width, AbsolutePixels(490));
    assert_eq!(placement.height, AbsolutePixels(245));
    assert_eq!((placement.x, placement.y), (255, 127));
}

#[test]
fn move_window_without_a_size_keeps_the_window() {
    let target = node(9, true, true);
    let area = Rect::_new(0, 0, 100, 100);
    let placement = move_window(&target, area, State::default(), StateUpdate::default()).unwrap();
    assert_eq!(placement.state, State::default());
    assert_eq!(placement.width, AbsolutePixels(200));
    assert_eq!(placement.height, AbsolutePixels(100));
    assert_eq!((placement.x, placement.y), (-100, 0));
}

#[test]
fn move_window_out_of_range() {
    let target = node(9, true, true);
    let area = Rect::_new(0, 0, 100, 100);
    let huge = StateUpdate {
        padding: Some(u32::MAX),
        ..StateUpdate::default()
    };
    assert_eq!(move_window(&target, area, State::default(), huge), None);
    let large = StateUpdate {
        padding: Some(i32::MAX as u32),
        ..StateUpdate::default()
    };
    assert_eq!(move_window(&target, area, State::default(), large), None);
    let far = Rect::_new(0, 0, i32::MAX, i32::MAX);
    let inside_out = WindowNode {
        rect: Rect::_new(0, 0, -10, -10),
        ..target
    };
    let update = StateUpdate {
        padding: Some(5),
        ..StateUpdate::default()
    };
    assert_eq!(move_window(&inside_out, far, State::default(), update), None);
    let fits = move_window(&target, far, State::default(), update).unwrap();
    assert_eq!((fits.x, fits.y), (i32::MAX - 205, i32::MAX - 105));
}

#[test]
fn events_from_requests_and_from_the_compositor() {
    let update = StateUpdate {
        padding: Some(1),
        ..StateUpdate::default()
    };
    assert_eq!(DaemonEvent::from_request(true, update), DaemonEvent::Shutdown);
    assert_eq!(
        DaemonEvent::from_request(false, update),
        DaemonEvent::Update(update)
    );
    assert_eq!(
        normalize(CompositorEvent::WorkspaceReload),
        Some(DaemonEvent::Update(StateUpdate::default()))
    );
    for other in [
        CompositorEvent::Workspace,
        CompositorEvent::Window,
        CompositorEvent::Output,
        CompositorEvent::Shutdown,
        CompositorEvent::Tick,
        CompositorEvent::Other,
    ] {
        assert_eq!(normalize(other), None);
    }
}

#[test]
fn loop_runs_one_pass_at_a_time() {
    let update = StateUpdate {
        padding: Some(1),
        ..StateUpdate::default()
    };
    let merged = State {
        padding: 1,
        ..State::default()
    };
    let mut daemon = Daemon::new(State::default());
    assert_eq!(daemon.phase, Phase::Idle);

    assert_eq!(
        daemon.accept(DaemonEvent::Update(update)),
        Action::Resolve(update)
    );
    assert_eq!(daemon.phase, Phase::Resolving);
    assert_eq!(
        daemon.accept(DaemonEvent::Update(update)),
        Action::Defer(update)
    );
    assert_eq!(daemon.phase, Phase::Resolving);

    daemon.complete(Some(merged));
    assert_eq!(daemon.phase, Phase::Idle);
    assert_eq!(daemon.state, merged);

    assert_eq!(
        daemon.accept(DaemonEvent::Update(StateUpdate::default())),
        Action::Resolve(StateUpdate::default())
    );
    daemon.complete(None);
    assert_eq!(daemon.phase, Phase::Idle);
    assert_eq!(daemon.state, merged);

    daemon.complete(Some(State::default()));
    assert_eq!(daemon.state, merged);

    assert_eq!(daemon.accept(DaemonEvent::Shutdown), Action::Stop);
    assert_eq!(daemon.phase, Phase::ShuttingDown);
    assert_eq!(daemon.accept(DaemonEvent::Update(update)), Action::Ignore);
    assert_eq!(daemon.accept(DaemonEvent::Shutdown), Action::Ignore);
    assert_eq!(daemon.phase, Phase::ShuttingDown);
    daemon.complete(Some(State::default()));
    assert_eq!(daemon.state, merged);
}

#[test]
fn shutdown_during_a_pass_stops_the_loop() {
    let mut daemon = Daemon::new(State::default());
    daemon.accept(DaemonEvent::Update(StateUpdate::default()));
    assert_eq!(daemon.accept(DaemonEvent::Shutdown), Action::Stop);
    assert_eq!(daemon.phase, Phase::ShuttingDown);
}

#[test]
fn failed_pass_becomes_a_daemon_error() {
    assert_eq!(
        DaemonError::from(StateUpdateError::NoApplicableNode),
        DaemonError::StateUpdateFailed(StateUpdateError::NoApplicableNode)
    );
    assert_eq!(
        DaemonError::from(StateUpdateError::SwayIPC("closed".to_string())),
        DaemonError::StateUpdateFailed(StateUpdateError::SwayIPC("closed".to_string()))
    );
}

#[test]
fn working_area_is_the_first_workspace_with_the_node() {
    let workspaces = vec![
        Workspace {
            focus: vec![1, 2],
            rect: Rect::_new(0, 0, 100, 100),
        },
        Workspace {
            focus: vec![],
            rect: Rect::_new(100, 0, 50, 50),
        },
        Workspace {
            focus: vec![3, 4, 2],
            rect: Rect::_new(200, 0, 300, 300),
        },
    ];
    assert_eq!(
        find_working_area_for(&workspaces, 2),
        Some(Rect::_new(0, 0, 100, 100))
    );
    assert_eq!(
        find_working_area_for(&workspaces, 4),
        Some(Rect::_new(200, 0, 300, 300))
    );
    assert_eq!(find_working_area_for(&workspaces, 5), None);
    assert_eq!(find_working_area_for(&Vec::new(), 1), None);
}

#[test]
fn handover_binds_a_free_path_at_once() {
    assert_eq!(
        Handover::Probing.next(false),
        (Handover::Ready, HandoverStep::Bind)
    );
    assert_eq!(
        Handover::Ready.next(true),
        (Handover::Ready, HandoverStep::Bind)
    );
    assert_eq!(
        Handover::Failed.next(false),
        (Handover::Failed, HandoverStep::GiveUp)
    );
}

#[test]
fn handover_asks_then_waits_then_gives_up() {
    let (mut handover, step) = Handover::Probing.next(true);
    assert_eq!(handover, Handover::Waiting(0));
    assert_eq!(step, HandoverStep::AskToStop);
    let mut waits = 0;
    loop {
        let (next, step) = handover.next(true);
        handover = next;
        match step {
            HandoverStep::Wait => waits += 1,
            other => {
                assert_eq!(other, HandoverStep::GiveUp);
                break;
            }
        }
    }
    assert_eq!(waits, HANDOVER_TRIES);
    assert_eq!(handover, Handover::Failed);

    assert_eq!(
        Handover::Waiting(3).next(true),
        (Handover::Waiting(4), HandoverStep::Wait)
    );
    assert_eq!(
        Handover::Waiting(3).next(false),
        (Handover::Ready, HandoverStep::Bind)
    );
    assert_eq!(
        Handover::Waiting(u32::MAX).next(true),
        (Handover::Failed, HandoverStep::GiveUp)
    );
}

#[test]
fn errors_are_written_out() {
    assert_eq!(
        StateUpdateError::NoApplicableNode.to_string(),
        "No applicable node found"
    );
    assert_eq!(
        StateUpdateError::MultipleApplicableNodes.to_string(),
        "Multiple applicable nodes found"
    );
    assert_eq!(
        StateUpdateError::SwayIPC("closed".to_string()).to_string(),
        "SwayIPC error: closed"
    );
    assert_eq!(
        DaemonError::IoError("no such file".to_string()).to_string(),
        "IO error: no such file"
    );
    assert_eq!(
        DaemonError::InvalidMessage("eof".to_string()).to_string(),
        "Message decoding error: eof"
    );
    assert_eq!(
        DaemonError::InvalidInitialState("bad".to_string()).to_string(),
        "Invalid initial state: bad"
    );
    assert_eq!(
        DaemonError::StateUpdateFailed(StateUpdateError::NoApplicableNode).to_string(),
        "State update error: No applicable node found"
    );
}
