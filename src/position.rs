use vstd::prelude::*;

use crate::utils::{div_toward_zero, Rect, ScaleBy, ScalingFactor, SCALE_ONE};

verus! {

/// Unscaled width kept free for the microphone warning, at the display's center.
pub const MICROPHONE_WARNING_WIDTH: i32 = 78;

/// The DPI at which scaling is 1.
pub const USER_DEFAULT_SCREEN_DPI: u32 = 96;

/// Largest DPI whose scaling factor fits.
pub const MAX_DPI: u32 = 6_291_455;

/// Why no window rectangle could be placed.
#[derive(Copy, Clone, Debug, PartialEq, Eq, Structural)]
pub enum PlacementError {
    /// The rectangle would have no height or no width.
    Empty,
    /// An edge falls outside the coordinate range.
    OutOfRange,
}

/// The scaling factor for a DPI.
pub open spec fn dpi_scale(dpi: u32) -> int {
    (SCALE_ONE as int) * (dpi as int) / (USER_DEFAULT_SCREEN_DPI as int)
}

/// Midpoint of `a` and `b`, rounded toward `a`.
pub open spec fn midpoint(a: int, b: int) -> int {
    a + div_toward_zero(b - a, 2)
}

/// The taskbar lies between the bottom of the work area and the bottom of the monitor.
pub open spec fn taskbar_spec(monitor: Rect, work: Rect) -> Rect {
    Rect { top: work.bottom, bottom: monitor.bottom, left: monitor.left, right: monitor.right }
}

/// Left edge of the window: at the taskbar's horizontal midpoint, less half
/// the scaled warning width.
pub open spec fn window_left(taskbar: Rect, dpi: ScalingFactor) -> int {
    midpoint(taskbar.left as int, taskbar.right as int) - div_toward_zero(
        MICROPHONE_WARNING_WIDTH.scaled(dpi) as int,
        2,
    )
}

/// The window spans the taskbar's height, from the left edge above to the
/// left edge of the system tray.
pub open spec fn placement(taskbar: Rect, tray_left_edge: i32, dpi: ScalingFactor) -> Result<Rect, PlacementError> {
    let left = window_left(taskbar, dpi);
    if !(i32::MIN <= left <= i32::MAX) {
        Err(PlacementError::OutOfRange)
    } else if taskbar.top == taskbar.bottom || left == tray_left_edge {
        Err(PlacementError::Empty)
    } else {
        Ok(Rect { top: taskbar.top, bottom: taskbar.bottom, left: left as i32, right: tray_left_edge })
    }
}

/// The taskbar rectangle from the primary monitor's bounds and work area.
pub fn taskbar_position(monitor: Rect, work: Rect) -> (r: Rect)
    ensures
        r == taskbar_spec(monitor, work),
{
    Rect { top: work.bottom, bottom: monitor.bottom, left: monitor.left, right: monitor.right }
}

/// Places the window; see `placement`.
pub fn compute_placement(taskbar: Rect, tray_left_edge: i32, dpi: ScalingFactor) -> (r: Result<Rect, PlacementError>)
    ensures
        r == placement(taskbar, tray_left_edge, dpi),
{
    let a = taskbar.left as i64;
    let b = taskbar.right as i64;
    let span: i64 = b - a;
    let half_span: i64 = if span >= 0 { span / 2 } else { -((-span) / 2) };
    let warning: i64 = MICROPHONE_WARNING_WIDTH.scale_by(dpi) as i64;
    let half_warning: i64 = if warning >= 0 { warning / 2 } else { -((-warning) / 2) };
    let left: i64 = a + half_span - half_warning;
    if left < i32::MIN as i64 || left > i32::MAX as i64 {
        Err(PlacementError::OutOfRange)
    } else if taskbar.top == taskbar.bottom || left == tray_left_edge as i64 {
        Err(PlacementError::Empty)
    } else {
        Ok(Rect { top: taskbar.top, bottom: taskbar.bottom, left: left as i32, right: tray_left_edge })
    }
}

/// The scaling factor of a DPI value.
pub fn scale_of_dpi(dpi: u32) -> (r: ScalingFactor)
    requires
        dpi <= MAX_DPI,
    ensures
        r@ == dpi_scale(dpi),
{
    ScalingFactor::from_ratio(dpi, USER_DEFAULT_SCREEN_DPI)
}

/// Where the window goes: the taskbar and tray positions last read, the DPI,
/// and the rectangle last placed.
pub struct Position {
    dpi: ScalingFactor,
    taskbar: Rect,
    tray_left_edge: i32,
    rect: Rect,
}

impl Position {
    pub closed spec fn dpi_spec(&self) -> ScalingFactor {
        self.dpi
    }

    pub closed spec fn taskbar_spec(&self) -> Rect {
        self.taskbar
    }

    pub closed spec fn tray_left_edge_spec(&self) -> i32 {
        self.tray_left_edge
    }

    pub closed spec fn rect_spec(&self) -> Rect {
        self.rect
    }

    /// Starts with the given DPI, and with everything at size and position zero.
    pub fn new(dpi: u32) -> (r: Position)
        requires
            dpi <= MAX_DPI,
        ensures
            r.dpi_spec()@ == dpi_scale(dpi),
            r.taskbar_spec() == (Rect { left: 0, top: 0, right: 0, bottom: 0 }),
            r.tray_left_edge_spec() == 0,
            r.rect_spec() == (Rect { left: 0, top: 0, right: 0, bottom: 0 }),
    {
        let empty = Rect { left: 0, top: 0, right: 0, bottom: 0 };
        Position { dpi: scale_of_dpi(dpi), taskbar: empty, tray_left_edge: 0, rect: empty }
    }

    pub fn get(&self) -> (r: (Rect, ScalingFactor))
        ensures
            r == (self.rect_spec(), self.dpi_spec()),
    {
        (self.rect, self.dpi)
    }

    /// Sets the DPI; returns its scaling factor.
    pub fn set_dpi(&mut self, dpi: u32) -> (r: ScalingFactor)
        requires
            dpi <= MAX_DPI,
        ensures
            r@ == dpi_scale(dpi),
            final(self).dpi_spec() == r,
            final(self).taskbar_spec() == old(self).taskbar_spec(),
            final(self).tray_left_edge_spec() == old(self).tray_left_edge_spec(),
            final(self).rect_spec() == old(self).rect_spec(),
    {
        let scale = scale_of_dpi(dpi);
        self.dpi = scale;
        scale
    }

    /// Takes in the monitor bounds and work area read (`None`: the read
    /// failed, and the old taskbar position is kept).
    pub fn update_taskbar_position(&mut self, read: Option<(Rect, Rect)>)
        ensures
            final(self).taskbar_spec() == (match read {
                Some((monitor, work)) => taskbar_spec(monitor, work),
                None => old(self).taskbar_spec(),
            }),
            final(self).dpi_spec() == old(self).dpi_spec(),
            final(self).tray_left_edge_spec() == old(self).tray_left_edge_spec(),
            final(self).rect_spec() == old(self).rect_spec(),
    {
        if let Some((monitor, work)) = read {
            self.taskbar = taskbar_position(monitor, work);
        }
    }

    /// Takes in the tray's left edge read (`None`: the read failed, and the
    /// old edge is kept).
    pub fn update_tray_position(&mut self, read: Option<i32>)
        ensures
            final(self).tray_left_edge_spec() == (match read {
                Some(x) => x,
                None => old(self).tray_left_edge_spec(),
            }),
            final(self).dpi_spec() == old(self).dpi_spec(),
            final(self).taskbar_spec() == old(self).taskbar_spec(),
            final(self).rect_spec() == old(self).rect_spec(),
    {
        if let Some(x) = read {
            self.tray_left_edge = x;
        }
    }

    /// Places the window anew; where that fails the old rectangle is kept.
    /// Returns the rectangle and the scaling factor to apply.
    pub fn recompute(&mut self) -> (r: (Rect, ScalingFactor))
        ensures
            final(self).rect_spec() == (match placement(
                old(self).taskbar_spec(),
                old(self).tray_left_edge_spec(),
                old(self).dpi_spec(),
            ) {
                Ok(rect) => rect,
                Err(_) => old(self).rect_spec(),
            }),
            final(self).dpi_spec() == old(self).dpi_spec(),
            final(self).taskbar_spec() == old(self).taskbar_spec(),
            final(self).tray_left_edge_spec() == old(self).tray_left_edge_spec(),
            r == (final(self).rect_spec(), final(self).dpi_spec()),
    {
        if let Ok(rect) = compute_placement(self.taskbar, self.tray_left_edge, self.dpi) {
            self.rect = rect;
        }
        (self.rect, self.dpi)
    }
}

} // verus!
