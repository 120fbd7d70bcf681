//! Existence and visibility of the floating overlay window.
//!
//! The controller decides which window-system operations a command needs
//! ([`FloatingOverlayController::plan`]); the host performs them in order,
//! stops at the first failure and reports back
//! ([`FloatingOverlayController::record`]). The recorded state reflects the
//! operations that actually succeeded, so a failure part-way through a
//! transition never leaves the state out of step with the window.
//!
//! All operations are meant to be driven from the single UI thread: the
//! check-then-create sequence of showing the overlay is not atomic against
//! concurrent callers.
use crate::config::FloatBallConfig;
use crate::placement::{overlay_position_spec, place_overlay, MonitorGeometry};
use vstd::prelude::*;

verus! {

/// The overlay's runtime state.
#[derive(Clone, Copy, Debug, PartialEq, Eq, Structural)]
pub enum OverlayState {
    /// No window object exists.
    Absent,
    /// The window exists and is not visible.
    Hidden,
    /// The window exists and is visible.
    Visible,
}

/// A command of the host UI that changes the overlay.
#[derive(Clone, Copy, Debug, PartialEq, Eq, Structural)]
pub enum OverlayCommand {
    SetVisible(bool),
    Close,
}

/// Everything needed to construct the overlay window.
#[derive(Clone, Copy, Debug, PartialEq, Eq, Structural)]
pub struct OverlayWindowSpec {
    pub x: i64,
    pub y: i64,
    pub width: u32,
    pub height: u32,
    pub always_on_top: bool,
}

/// One operation of the host window system on the overlay window.
#[derive(Clone, Copy, Debug, PartialEq, Eq, Structural)]
pub enum WindowOp {
    /// Build the borderless, skip-taskbar window, not yet shown.
    Create(OverlayWindowSpec),
    /// Run the platform transparency hook; it never fails.
    ApplyTransparency,
    Show,
    Focus,
    Hide,
    Close,
}

/// How far the host got through a list of operations.
#[derive(Clone, Debug, PartialEq, Eq)]
pub enum Completion {
    /// Every operation succeeded.
    AllSucceeded,
    /// The operations before `index` succeeded and the one at `index` failed
    /// with `cause`; none after it was attempted.
    FailedAt(usize, String),
}

/// A window-system operation failed.
#[derive(Clone, Debug, PartialEq, Eq)]
pub struct OverlayError {
    pub op: WindowOp,
    pub cause: String,
}

impl WindowOp {
    pub open spec fn name_spec(self) -> Seq<char> {
        match self {
            WindowOp::Create(_) => "create"@,
            WindowOp::ApplyTransparency => "apply-transparency"@,
            WindowOp::Show => "show"@,
            WindowOp::Focus => "focus"@,
            WindowOp::Hide => "hide"@,
            WindowOp::Close => "close"@,
        }
    }

    /// The operation's name, for error reports.
    pub fn name(&self) -> (r: &'static str)
        ensures
            r@ == self.name_spec(),
    {
        match self {
            WindowOp::Create(_) => "create",
            WindowOp::ApplyTransparency => "apply-transparency",
            WindowOp::Show => "show",
            WindowOp::Focus => "focus",
            WindowOp::Hide => "hide",
            WindowOp::Close => "close",
        }
    }
}

/// The state after `op` succeeded in state `s`.
pub open spec fn effect(s: OverlayState, op: WindowOp) -> OverlayState {
    match op {
        WindowOp::Create(_) => OverlayState::Hidden,
        WindowOp::Show => OverlayState::Visible,
        WindowOp::Hide => OverlayState::Hidden,
        WindowOp::Close => OverlayState::Absent,
        WindowOp::ApplyTransparency | WindowOp::Focus => s,
    }
}

/// The state after all of `ops` succeeded, in order, starting in `s`.
pub open spec fn run_ops(s: OverlayState, ops: Seq<WindowOp>) -> OverlayState
    decreases ops.len(),
{
    if ops.len() == 0 {
        s
    } else {
        effect(run_ops(s, ops.drop_last()), ops.last())
    }
}

/// The operations that `cmd` needs in state `s`; `w` describes the window to
/// create, if one is created.
pub open spec fn plan_spec(s: OverlayState, cmd: OverlayCommand, w: OverlayWindowSpec) -> Seq<
    WindowOp,
> {
    match (cmd, s) {
        (OverlayCommand::SetVisible(true), OverlayState::Absent) => seq![
            WindowOp::Create(w),
            WindowOp::ApplyTransparency,
            WindowOp::Show,
            WindowOp::Focus,
        ],
        (OverlayCommand::SetVisible(true), OverlayState::Hidden) => seq![
            WindowOp::Show,
            WindowOp::Focus,
        ],
        (OverlayCommand::SetVisible(false), OverlayState::Visible) => seq![WindowOp::Hide],
        (OverlayCommand::Close, OverlayState::Hidden) => seq![WindowOp::Close],
        (OverlayCommand::Close, OverlayState::Visible) => seq![WindowOp::Close],
        _ => Seq::empty(),
    }
}

/// The state that `cmd` leads to from `s` when every operation succeeds.
pub open spec fn transition(s: OverlayState, cmd: OverlayCommand) -> OverlayState {
    match cmd {
        OverlayCommand::SetVisible(true) => OverlayState::Visible,
        OverlayCommand::SetVisible(false) => if s == OverlayState::Absent {
            OverlayState::Absent
        } else {
            OverlayState::Hidden
        },
        OverlayCommand::Close => OverlayState::Absent,
    }
}

/// The window that the overlay configuration asks for on `monitor`.
pub open spec fn window_spec_of(config: FloatBallConfig, monitor: Option<MonitorGeometry>) -> OverlayWindowSpec {
    OverlayWindowSpec {
        x: overlay_position_spec(config, monitor).0 as i64,
        y: overlay_position_spec(config, monitor).1 as i64,
        width: config.width,
        height: config.height,
        always_on_top: config.always_on_top,
    }
}

/// Number of operations of `ops` that succeeded according to `c`.
pub open spec fn succeeded_count(ops: Seq<WindowOp>, c: Completion) -> int {
    match c {
        Completion::AllSucceeded => ops.len() as int,
        Completion::FailedAt(i, _) => i as int,
    }
}

/// What a command reports once the host has attempted `ops`.
pub open spec fn outcome_spec(ops: Seq<WindowOp>, c: Completion) -> Result<(), OverlayError> {
    match c {
        Completion::AllSucceeded => Ok(()),
        Completion::FailedAt(i, cause) => Err(OverlayError { op: ops[i as int], cause }),
    }
}

/// Owns the overlay window's state. It starts `Absent`.
pub struct FloatingOverlayController {
    state: OverlayState,
}

impl FloatingOverlayController {
    pub closed spec fn view(&self) -> OverlayState {
        self.state
    }

    pub fn new() -> (r: Self)
        ensures
            r@ == OverlayState::Absent,
    {
        FloatingOverlayController { state: OverlayState::Absent }
    }

    pub fn state(&self) -> (r: OverlayState)
        ensures
            r == self@,
    {
        self.state
    }

    /// Whether the overlay is visible; `false` while no window exists.
    pub fn is_float_ball_visible(&self) -> (r: bool)
        ensures
            r == (self@ == OverlayState::Visible),
    {
        match self.state {
            OverlayState::Visible => true,
            _ => false,
        }
    }

    /// The window-system operations that `cmd` needs now, in order. Creating
    /// the window places it by the configuration and `monitor`.
    pub fn plan(
        &self,
        cmd: OverlayCommand,
        config: &FloatBallConfig,
        monitor: Option<MonitorGeometry>,
    ) -> (r: Vec<WindowOp>)
        requires
            monitor matches Some(m) ==> m.valid(),
        ensures
            r@ == plan_spec(self@, cmd, window_spec_of(*config, monitor)),
    {
        match (cmd, self.state) {
            (OverlayCommand::SetVisible(true), OverlayState::Absent) => {
                let p = place_overlay(config, monitor);
                let w = OverlayWindowSpec {
                    x: p.x,
                    y: p.y,
                    width: config.width,
                    height: config.height,
                    always_on_top: config.always_on_top,
                };
                let r = vec![
                    WindowOp::Create(w),
                    WindowOp::ApplyTransparency,
                    WindowOp::Show,
                    WindowOp::Focus,
                ];
                assert(r@ =~= plan_spec(self@, cmd, window_spec_of(*config, monitor)));
                r
            },
            (OverlayCommand::SetVisible(true), OverlayState::Hidden) => {
                let r = vec![WindowOp::Show, WindowOp::Focus];
                assert(r@ =~= plan_spec(self@, cmd, window_spec_of(*config, monitor)));
                r
            },
            (OverlayCommand::SetVisible(false), OverlayState::Visible) => {
                let r = vec![WindowOp::Hide];
                assert(r@ =~= plan_spec(self@, cmd, window_spec_of(*config, monitor)));
                r
            },
            (OverlayCommand::Close, OverlayState::Hidden) | (
                OverlayCommand::Close,
                OverlayState::Visible,
            ) => {
                let r = vec![WindowOp::Close];
                assert(r@ =~= plan_spec(self@, cmd, window_spec_of(*config, monitor)));
                r
            },
            _ => {
                let r = Vec::new();
                assert(r@ =~= plan_spec(self@, cmd, window_spec_of(*config, monitor)));
                r
            },
        }
    }

    /// The operations that showing (`show`) or hiding the overlay needs now.
    pub fn toggle_float_ball(
        &self,
        show: bool,
        config: &FloatBallConfig,
        monitor: Option<MonitorGeometry>,
    ) -> (r: Vec<WindowOp>)
        requires
            monitor matches Some(m) ==> m.valid(),
        ensures
            r@ == plan_spec(self@, OverlayCommand::SetVisible(show), window_spec_of(*config, monitor)),
    {
        self.plan(OverlayCommand::SetVisible(show), config, monitor)
    }

    /// The operations that closing the overlay needs now: none when there is
    /// no window.
    pub fn close_float_ball(&self) -> (r: Vec<WindowOp>)
        ensures
            r@ == (if self@ == OverlayState::Absent {
                Seq::<WindowOp>::empty()
            } else {
                seq![WindowOp::Close]
            }),
    {
        match self.state {
            OverlayState::Absent => Vec::new(),
            _ => {
                let r = vec![WindowOp::Close];
                assert(r@ =~= seq![WindowOp::Close]);
                r
            },
        }
    }

    /// Records how the host fared with `ops`: the state follows the
    /// operations that succeeded, and the first failure is reported.
    pub fn record(&mut self, ops: &Vec<WindowOp>, completion: Completion) -> (r: Result<
        (),
        OverlayError,
    >)
        requires
            completion matches Completion::FailedAt(i, _) ==> i < ops@.len(),
        ensures
            final(self)@ == run_ops(old(self)@, ops@.take(succeeded_count(ops@, completion))),
            r == outcome_spec(ops@, completion),
    {
        let n: usize = match &completion {
            Completion::AllSucceeded => ops.len(),
            Completion::FailedAt(i, _) => *i,
        };
        let ghost s0 = self.state;
        let mut k: usize = 0;
        while k < n
            invariant
                n <= ops@.len(),
                n == succeeded_count(ops@, completion),
                0 <= k <= n,
                self.state == run_ops(s0, ops@.take(k as int)),
            decreases n - k,
        {
            let op = ops[k];
            self.state = match op {
                WindowOp::Create(_) => OverlayState::Hidden,
                WindowOp::Show => OverlayState::Visible,
                WindowOp::Hide => OverlayState::Hidden,
                WindowOp::Close => OverlayState::Absent,
                WindowOp::ApplyTransparency | WindowOp::Focus => self.state,
            };
            proof {
                assert(ops@.take(k + 1).drop_last() =~= ops@.take(k as int));
            }
            k = k + 1;
        }
        match completion {
            Completion::AllSucceeded => Ok(()),
            Completion::FailedAt(i, cause) => Err(OverlayError { op: ops[i], cause }),
        }
    }
}

/// Every command, from every state, ends in the state of the transition
/// table when its operations succeed; the commands that need no operation
/// are exactly the no-ops of the table.
pub proof fn lemma_transition_table(s: OverlayState, cmd: OverlayCommand, w: OverlayWindowSpec)
    ensures
        run_ops(s, plan_spec(s, cmd, w)) == transition(s, cmd),
        (plan_spec(s, cmd, w).len() == 0) <==> (transition(s, cmd) == s),
{
    let ops = plan_spec(s, cmd, w);
    reveal_with_fuel(run_ops, 5);
    if ops.len() == 4 {
        assert(ops.drop_last().drop_last().drop_last().drop_last() =~= Seq::<WindowOp>::empty());
    }
    if ops.len() == 2 {
        assert(ops.drop_last().drop_last() =~= Seq::<WindowOp>::empty());
    }
    if ops.len() == 1 {
        assert(ops.drop_last() =~= Seq::<WindowOp>::empty());
    }
}

/// When showing an absent overlay fails at the show step, the window that was
/// already created remains: the state is `Hidden` and the show is reported.
pub proof fn lemma_show_failure_after_create(w: OverlayWindowSpec, cause: String)
    ensures
        ({
            let ops = plan_spec(OverlayState::Absent, OverlayCommand::SetVisible(true), w);
            let c = Completion::FailedAt(2, cause);
            &&& run_ops(OverlayState::Absent, ops.take(succeeded_count(ops, c)))
                == OverlayState::Hidden
            &&& outcome_spec(ops, c) == Err::<(), OverlayError>(
                OverlayError { op: WindowOp::Show, cause },
            )
        }),
{
    let ops = plan_spec(OverlayState::Absent, OverlayCommand::SetVisible(true), w);
    reveal_with_fuel(run_ops, 3);
    assert(ops.take(2).drop_last().drop_last() =~= Seq::<WindowOp>::empty());
    assert(ops.take(2).drop_last() =~= seq![WindowOp::Create(w)]);
}

/// Without a monitor, showing an absent overlay still creates its window, at
/// the fallback position when none is configured.
pub proof fn lemma_creation_without_monitor(config: FloatBallConfig)
    requires
        config.wants_auto_placement(),
    ensures
        plan_spec(
            OverlayState::Absent,
            OverlayCommand::SetVisible(true),
            window_spec_of(config, None),
        )[0] == WindowOp::Create(
            OverlayWindowSpec {
                x: 100,
                y: 100,
                width: config.width,
                height: config.height,
                always_on_top: config.always_on_top,
            },
        ),
{
}

} // verus!
