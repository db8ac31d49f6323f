use vstd::prelude::*;

verus! {

/// Number of bytes a boot-mouse input report takes on the wire
/// (buttons, x, y, wheel, pan).
pub const REPORT_LEN: usize = 5;

/// One relative-movement input report, laid out as the boot-mouse
/// report descriptor declares it.
#[derive(Clone, Copy, Debug, PartialEq, Eq, Structural)]
pub struct MouseReport {
    pub buttons: u8,
    pub x: i8,
    pub y: i8,
    pub wheel: i8,
    pub pan: i8,
}

impl MouseReport {
    /// True when the report only moves the pointer: no button, wheel or pan activity.
    pub open spec fn is_plain_move(&self) -> bool {
        self.buttons == 0 && self.wheel == 0 && self.pan == 0
    }

    /// A report that moves the pointer by `(x, y)` and touches nothing else.
    pub fn movement(x: i8, y: i8) -> (r: MouseReport)
        ensures
            r.x == x,
            r.y == y,
            r.is_plain_move(),
    {
        MouseReport { buttons: 0, x, y, wheel: 0, pan: 0 }
    }
}

/// Sum of the horizontal displacements of a run of reports.
pub open spec fn total_dx(reports: Seq<MouseReport>) -> int
    decreases reports.len(),
{
    if reports.len() == 0 {
        0
    } else {
        total_dx(reports.drop_last()) + reports.last().x as int
    }
}

/// Sum of the vertical displacements of a run of reports.
pub open spec fn total_dy(reports: Seq<MouseReport>) -> int
    decreases reports.len(),
{
    if reports.len() == 0 {
        0
    } else {
        total_dy(reports.drop_last()) + reports.last().y as int
    }
}

} // verus!
