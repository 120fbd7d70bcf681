//! First-run placement of the overlay window.
//!
//! Lengths are whole logical pixels. A monitor reports its size in device
//! pixels and its scale factor in thousandths (`2000` stands for `2.0`); the
//! logical size is the device size divided by the scale, rounded down.
use crate::config::FloatBallConfig;
use vstd::prelude::*;

verus! {

/// Position used when no monitor geometry is available.
pub const FALLBACK_X: i64 = 100;

pub const FALLBACK_Y: i64 = 100;

/// Physical size and scale factor of a monitor.
#[derive(Clone, Copy, Debug, PartialEq, Eq, Structural)]
pub struct MonitorGeometry {
    pub width: u32,
    pub height: u32,
    /// Scale factor in thousandths; a valid geometry has it above zero.
    pub scale_milli: u32,
}

/// A point in logical coordinates.
#[derive(Clone, Copy, Debug, PartialEq, Eq, Structural)]
pub struct Position {
    pub x: i64,
    pub y: i64,
}

/// How an automatically placed overlay is positioned on its monitor.
#[derive(Clone, Copy, Debug, PartialEq, Eq, Structural)]
pub enum PlacementPolicy {
    Centered,
    Corner { margin: u32 },
}

impl MonitorGeometry {
    pub open spec fn valid(self) -> bool {
        self.scale_milli > 0
    }
}

/// Logical length of `physical` device pixels at the given scale.
pub open spec fn logical_len(physical: int, scale_milli: int) -> int {
    physical * 1000 / scale_milli
}

/// Offset that centers a span of `size` within `extent` (rounded down).
pub open spec fn centered_offset(extent: int, size: int) -> int {
    (extent - size) / 2
}

/// Offset that leaves `margin` between a span of `size` and the far edge of `extent`.
pub open spec fn corner_offset(extent: int, size: int, margin: int) -> int {
    extent - size - margin
}

pub open spec fn axis_spec(extent: int, size: int, policy: PlacementPolicy) -> int {
    match policy {
        PlacementPolicy::Centered => centered_offset(extent, size),
        PlacementPolicy::Corner { margin } => corner_offset(extent, size, margin as int),
    }
}

/// Where an overlay of `width` x `height` goes on `monitor` under `policy`.
pub open spec fn position_spec(
    monitor: MonitorGeometry,
    width: int,
    height: int,
    policy: PlacementPolicy,
) -> (int, int) {
    (
        axis_spec(logical_len(monitor.width as int, monitor.scale_milli as int), width, policy),
        axis_spec(logical_len(monitor.height as int, monitor.scale_milli as int), height, policy),
    )
}

fn logical_length(physical: u32, scale_milli: u32) -> (r: i64)
    requires
        scale_milli > 0,
    ensures
        r == logical_len(physical as int, scale_milli as int),
        0 <= r <= physical as int * 1000,
{
    let scaled: u64 = physical as u64 * 1000;
    let r: u64 = scaled / (scale_milli as u64);
    proof {
        assert(r <= scaled) by (nonlinear_arith)
            requires
                r == scaled / (scale_milli as u64),
                scale_milli > 0,
        ;
    }
    r as i64
}

fn axis_offset(extent: i64, size: u32, policy: PlacementPolicy) -> (r: i64)
    requires
        0 <= extent <= u32::MAX as int * 1000,
    ensures
        r == axis_spec(extent as int, size as int, policy),
{
    match policy {
        PlacementPolicy::Centered => {
            let diff: i64 = extent - size as i64;
            if diff >= 0 {
                diff / 2
            } else {
                let r: i64 = -((1 - diff) / 2);
                proof {
                    assert(r == diff / 2) by (nonlinear_arith)
                        requires
                            diff < 0,
                            r == -((1 - diff) / 2),
                    ;
                }
                r
            }
        },
        PlacementPolicy::Corner { margin } => extent - size as i64 - margin as i64,
    }
}

/// Computes where an overlay of `width` x `height` logical pixels goes on
/// `monitor`; without a monitor the fixed fallback position is used.
pub fn compute_position(
    monitor: Option<MonitorGeometry>,
    width: u32,
    height: u32,
    policy: PlacementPolicy,
) -> (r: Position)
    requires
        monitor matches Some(m) ==> m.valid(),
    ensures
        monitor matches Some(m) ==> (r.x as int, r.y as int) == position_spec(
            m,
            width as int,
            height as int,
            policy,
        ),
        monitor is None ==> r == (Position { x: FALLBACK_X, y: FALLBACK_Y }),
{
    match monitor {
        Some(m) => {
            let screen_w = logical_length(m.width, m.scale_milli);
            let screen_h = logical_length(m.height, m.scale_milli);
            Position {
                x: axis_offset(screen_w, width, policy),
                y: axis_offset(screen_h, height, policy),
            }
        },
        None => Position { x: FALLBACK_X, y: FALLBACK_Y },
    }
}

/// Where the overlay described by `config` opens: its explicit position when
/// one is configured, else the bottom-right corner of `monitor` at the
/// configured margin, else the fallback position.
pub open spec fn overlay_position_spec(config: FloatBallConfig, monitor: Option<MonitorGeometry>) -> (
    int,
    int,
) {
    if !config.wants_auto_placement() {
        (config.default_x as int, config.default_y as int)
    } else {
        match monitor {
            Some(m) => position_spec(
                m,
                config.width as int,
                config.height as int,
                PlacementPolicy::Corner { margin: config.margin },
            ),
            None => (FALLBACK_X as int, FALLBACK_Y as int),
        }
    }
}

/// Computes the first-run position of the overlay window.
pub fn place_overlay(config: &FloatBallConfig, monitor: Option<MonitorGeometry>) -> (r: Position)
    requires
        monitor matches Some(m) ==> m.valid(),
    ensures
        (r.x as int, r.y as int) == overlay_position_spec(*config, monitor),
{
    if config.default_x == 0 && config.default_y == 0 {
        compute_position(monitor, config.width, config.height, PlacementPolicy::Corner { margin: config.margin })
    } else {
        Position { x: config.default_x, y: config.default_y }
    }
}

/// A configured position other than `(0, 0)` is used as it is, whatever the
/// monitor.
pub proof fn lemma_explicit_position_overrides(
    config: FloatBallConfig,
    monitor: Option<MonitorGeometry>,
)
    requires
        !config.wants_auto_placement(),
    ensures
        overlay_position_spec(config, monitor) == (config.default_x as int, config.default_y as int),
        overlay_position_spec(config, monitor) == overlay_position_spec(config, None),
{
}

/// Without monitor geometry an automatically placed overlay goes to the
/// fallback position.
pub proof fn lemma_fallback_without_monitor(config: FloatBallConfig)
    requires
        config.wants_auto_placement(),
    ensures
        overlay_position_spec(config, None) == (FALLBACK_X as int, FALLBACK_Y as int),
{
}

} // verus!
