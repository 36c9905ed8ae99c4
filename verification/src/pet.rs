//! The desktop pet's click-through poll: when the pet window lets clicks
//! pass to what lies below it, and when the bubble window is raised again.

use vstd::prelude::*;

verus! {

/// Every this many polls the bubble window is raised above other windows.
pub const RAISE_EVERY: u32 = 40;

/// The poll's memory between ticks.
#[derive(Debug, Clone, Copy, PartialEq, Eq, Structural)]
pub struct HitTestPoll {
    /// Whether the window currently lets clicks through.
    pub was_ignored: bool,
    /// Polls counted while hit testing was on.
    pub ticks: u32,
}

/// What one poll does.
#[derive(Debug, Clone, Copy, PartialEq, Eq, Structural)]
pub struct PollActions {
    pub raise_bubble: bool,
    /// Whether to start (`true`) or stop (`false`) letting clicks through.
    pub set_ignore: Option<bool>,
}

pub open spec fn wrapping_inc(n: u32) -> u32 {
    if n == u32::MAX {
        0
    } else {
        (n + 1) as u32
    }
}

impl HitTestPoll {
    pub fn new() -> (r: Self)
        ensures
            !r.was_ignored,
            r.ticks == 0,
    {
        HitTestPoll { was_ignored: false, ticks: 0 }
    }

    /// One poll. `enabled` is whether hit testing is on; `over_solid` is
    /// whether the cursor is over a solid part of the pet, or `None` when
    /// the cursor or window could not be read this time.
    pub fn step(&mut self, enabled: bool, over_solid: Option<bool>) -> (r: PollActions)
        ensures
            !enabled ==> final(self).ticks == old(self).ticks && !final(self).was_ignored
                && !r.raise_bubble && r.set_ignore == (if old(self).was_ignored {
                Some(false)
            } else {
                None::<bool>
            }),
            enabled ==> final(self).ticks == wrapping_inc(old(self).ticks) && r.raise_bubble == (
            wrapping_inc(old(self).ticks) % RAISE_EVERY == 0),
            enabled && over_solid is None ==> final(self).was_ignored == old(self).was_ignored
                && r.set_ignore is None,
            enabled && over_solid == Some(true) ==> !final(self).was_ignored && r.set_ignore == (
            if old(self).was_ignored {
                Some(false)
            } else {
                None::<bool>
            }),
            enabled && over_solid == Some(false) ==> final(self).was_ignored && r.set_ignore == (
            if old(self).was_ignored {
                None::<bool>
            } else {
                Some(true)
            }),
    {
        if !enabled {
            let set = if self.was_ignored {
                Some(false)
            } else {
                None
            };
            self.was_ignored = false;
            return PollActions { raise_bubble: false, set_ignore: set };
        }
        self.ticks = if self.ticks == u32::MAX {
            0
        } else {
            self.ticks + 1
        };
        let raise = self.ticks % RAISE_EVERY == 0;
        let set = match over_solid {
            None => None,
            Some(true) => {
                if self.was_ignored {
                    self.was_ignored = false;
                    Some(false)
                } else {
                    None
                }
            },
            Some(false) => {
                if !self.was_ignored {
                    self.was_ignored = true;
                    Some(true)
                } else {
                    None
                }
            },
        };
        PollActions { raise_bubble: raise, set_ignore: set }
    }
}

/// The size the main window returns to: 1500 by 800 physical pixels, cut
/// to the monitor's work area.
pub fn normal_size(work_width: u32, work_height: u32) -> (r: (u32, u32))
    ensures
        r.0 == if work_width < 1500 { work_width } else { 1500 },
        r.1 == if work_height < 800 { work_height } else { 800 },
{
    let w = if work_width < 1500 { work_width } else { 1500 };
    let h = if work_height < 800 { work_height } else { 800 };
    (w, h)
}

/// Where a window of the given outer size stands centred in the work area
/// (never left of or above it, even when larger).
pub open spec fn centred_offset(work: u32, outer: u32) -> int {
    if work > outer {
        (work - outer) / 2
    } else {
        0
    }
}

pub fn centred_position(work_x: i32, work_y: i32, work_width: u32, work_height: u32, outer_width: u32, outer_height: u32) -> (r: (i32, i32))
    requires
        work_x + centred_offset(work_width, outer_width) <= i32::MAX,
        work_y + centred_offset(work_height, outer_height) <= i32::MAX,
    ensures
        r.0 == work_x + centred_offset(work_width, outer_width),
        r.1 == work_y + centred_offset(work_height, outer_height),
{
    let dx: u32 = if work_width > outer_width { (work_width - outer_width) / 2 } else { 0 };
    let dy: u32 = if work_height > outer_height { (work_height - outer_height) / 2 } else { 0 };
    (work_x + dx as i32, work_y + dy as i32)
}

} // verus!
