use desktop_shell::config::{AppConfigData, FloatBallConfig};
use desktop_shell::overlay::{
    Completion, FloatingOverlayController, OverlayCommand, OverlayError, OverlayState,
    OverlayWindowSpec, WindowOp,
};
use desktop_shell::placement::MonitorGeometry;

fn config() -> FloatBallConfig {
    AppConfigData::default().float_ball
}

fn monitor() -> Option<MonitorGeometry> {
    Some(MonitorGeometry { width: 2880, height: 1800, scale_milli: 2000 })
}

fn run(c: &mut FloatingOverlayController, cmd: OverlayCommand) -> Result<(), OverlayError> {
    let ops = c.plan(cmd, &config(), monitor());
    c.record(&ops, Completion::AllSucceeded)
}

fn in_state(s: OverlayState) -> FloatingOverlayController {
    let mut c = FloatingOverlayController::new();
    match s {
        OverlayState::Absent => {}
        OverlayState::Visible => run(&mut c, OverlayCommand::SetVisible(true)).unwrap(),
        OverlayState::Hidden => {
            run(&mut c, OverlayCommand::SetVisible(true)).unwrap();
            run(&mut c, OverlayCommand::SetVisible(false)).unwrap();
        }
    }
    assert_eq!(c.state(), s);
    c
}

#[test]
fn starts_absent_and_invisible() {
    let c = FloatingOverlayController::new();
    assert_eq!(c.state(), OverlayState::Absent);
    assert!(!c.is_float_ball_visible());
}

#[test]
fn show_from_absent_creates_places_and_shows() {
    let c = in_state(OverlayState::Absent);
    let ops = c.plan(OverlayCommand::SetVisible(true), &config(), monitor());
    let w = OverlayWindowSpec { x: 1300, y: 760, width: 60, height: 60, always_on_top: true };
    assert_eq!(
        ops,
        vec![WindowOp::Create(w), WindowOp::ApplyTransparency, WindowOp::Show, WindowOp::Focus]
    );
}

#[test]
fn show_from_absent_without_monitor_uses_fallback() {
    let c = in_state(OverlayState::Absent);
    let ops = c.plan(OverlayCommand::SetVisible(true), &config(), None);
    let w = OverlayWindowSpec { x: 100, y: 100, width: 60, height: 60, always_on_top: true };
    assert_eq!(ops[0], WindowOp::Create(w));
}

#[test]
fn transition_table_is_total() {
    let (absent, hidden, visible) = (OverlayState::Absent, OverlayState::Hidden, OverlayState::Visible);
    let show = OverlayCommand::SetVisible(true);
    let hide = OverlayCommand::SetVisible(false);
    let close = OverlayCommand::Close;
    let table = [
        (absent, show, 4usize, visible),
        (hidden, show, 2, visible),
        (visible, show, 0, visible),
        (absent, hide, 0, absent),
        (hidden, hide, 0, hidden),
        (visible, hide, 1, hidden),
        (absent, close, 0, absent),
        (hidden, close, 1, absent),
        (visible, close, 1, absent),
    ];
    for (from, cmd, n_ops, to) in table {
        let mut c = in_state(from);
        assert_eq!(c.is_float_ball_visible(), from == visible);
        assert_eq!(c.state(), from);
        let ops = c.plan(cmd, &config(), monitor());
        assert_eq!(ops.len(), n_ops);
        assert_eq!(c.record(&ops, Completion::AllSucceeded), Ok(()));
        assert_eq!(c.state(), to);
        assert_eq!(c.is_float_ball_visible(), to == visible);
    }
}

#[test]
fn show_failure_after_create_leaves_hidden() {
    let mut c = in_state(OverlayState::Absent);
    let ops = c.plan(OverlayCommand::SetVisible(true), &config(), monitor());
    let r = c.record(&ops, Completion::FailedAt(2, "no display".to_string()));
    assert_eq!(r, Err(OverlayError { op: WindowOp::Show, cause: "no display".to_string() }));
    assert_eq!(c.state(), OverlayState::Hidden);
    assert!(!c.is_float_ball_visible());
    // A later show only shows the existing window.
    let again = c.plan(OverlayCommand::SetVisible(true), &config(), monitor());
    assert_eq!(again, vec![WindowOp::Show, WindowOp::Focus]);
}

#[test]
fn create_failure_leaves_absent() {
    let mut c = in_state(OverlayState::Absent);
    let ops = c.plan(OverlayCommand::SetVisible(true), &config(), monitor());
    let r = c.record(&ops, Completion::FailedAt(0, "denied".to_string()));
    assert_eq!(r.unwrap_err().op.name(), "create");
    assert_eq!(c.state(), OverlayState::Absent);
}

#[test]
fn focus_failure_after_show_is_visible() {
    let mut c = in_state(OverlayState::Hidden);
    let ops = c.plan(OverlayCommand::SetVisible(true), &config(), monitor());
    let r = c.record(&ops, Completion::FailedAt(1, "busy".to_string()));
    assert_eq!(r.unwrap_err().op, WindowOp::Focus);
    assert_eq!(c.state(), OverlayState::Visible);
}

#[test]
fn hide_failure_keeps_visible() {
    let mut c = in_state(OverlayState::Visible);
    let ops = c.plan(OverlayCommand::SetVisible(false), &config(), monitor());
    let r = c.record(&ops, Completion::FailedAt(0, "x".to_string()));
    assert_eq!(r.unwrap_err().op.name(), "hide");
    assert_eq!(c.state(), OverlayState::Visible);
}

#[test]
fn close_failure_keeps_window() {
    let mut c = in_state(OverlayState::Hidden);
    let ops = c.plan(OverlayCommand::Close, &config(), monitor());
    assert!(c.record(&ops, Completion::FailedAt(0, "x".to_string())).is_err());
    assert_eq!(c.state(), OverlayState::Hidden);
}

#[test]
fn close_is_idempotent() {
    let mut c = in_state(OverlayState::Visible);
    assert_eq!(run(&mut c, OverlayCommand::Close), Ok(()));
    assert_eq!(run(&mut c, OverlayCommand::Close), Ok(()));
    assert_eq!(c.state(), OverlayState::Absent);
}

#[test]
fn operation_names() {
    assert_eq!(WindowOp::Show.name(), "show");
    assert_eq!(WindowOp::Focus.name(), "focus");
    assert_eq!(WindowOp::Close.name(), "close");
    assert_eq!(WindowOp::ApplyTransparency.name(), "apply-transparency");
}

#[test]
fn command_surface_plans() {
    let mut c = in_state(OverlayState::Absent);
    assert!(c.close_float_ball().is_empty());
    assert_eq!(c.toggle_float_ball(false, &config(), monitor()), vec![]);
    let ops = c.toggle_float_ball(true, &config(), None);
    assert_eq!(ops.len(), 4);
    assert_eq!(c.record(&ops, Completion::AllSucceeded), Ok(()));
    assert!(c.is_float_ball_visible());
    assert_eq!(c.toggle_float_ball(true, &config(), monitor()), vec![]);
    assert_eq!(c.toggle_float_ball(false, &config(), monitor()), vec![WindowOp::Hide]);
    let close = c.close_float_ball();
    assert_eq!(close, vec![WindowOp::Close]);
    assert_eq!(c.record(&close, Completion::AllSucceeded), Ok(()));
    assert_eq!(c.state(), OverlayState::Absent);
}
