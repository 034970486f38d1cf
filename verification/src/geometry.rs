//! Fixed layout geometry: portrait sizes, the window's client area, and the
//! rectangle each toggle widget occupies.

use vstd::prelude::*;

use crate::table::Group;

verus! {

/// Width in pixels of one boss portrait button.
pub const ROBO_PORTRAIT_WIDTH: i32 = 54;

/// Height in pixels of one boss portrait button.
pub const ROBO_PORTRAIT_HEIGHT: i32 = 60;

/// Width in pixels of one item portrait button.
pub const ITEM_PORTRAIT_WIDTH: i32 = 37;

/// Height in pixels of one item portrait button.
pub const ITEM_PORTRAIT_HEIGHT: i32 = 20;

/// Number of boss portrait widgets; the boss group's asset list has this many pairs.
pub const ROBO_GROUP_SIZE: usize = 8;

/// Number of item portrait widgets; the item group's asset list has this many pairs.
pub const ITEM_GROUP_SIZE: usize = 3;

/// A rectangle in window coordinates, as the host reports and accepts it.
#[derive(Clone, Copy, Debug, PartialEq, Eq, Structural)]
pub struct Rect {
    pub left: i32,
    pub top: i32,
    pub right: i32,
    pub bottom: i32,
}

/// A cursor position in screen coordinates, as delivered with a context-menu request.
#[derive(Clone, Copy, Debug, PartialEq, Eq, Structural)]
pub struct CursorPos {
    pub x: i32,
    pub y: i32,
}

/// The desired client area: all boss portraits in one row, with the item
/// portraits stacked in one column to their right.
pub fn client_area_size() -> (size: (i32, i32))
    ensures
        size.0 == ROBO_PORTRAIT_WIDTH * ROBO_GROUP_SIZE + ITEM_PORTRAIT_WIDTH,
        size.1 == if ROBO_PORTRAIT_HEIGHT >= ITEM_PORTRAIT_HEIGHT * ITEM_GROUP_SIZE {
            ROBO_PORTRAIT_HEIGHT as int
        } else {
            ITEM_PORTRAIT_HEIGHT * ITEM_GROUP_SIZE
        },
{
    let width: i32 = ROBO_PORTRAIT_WIDTH * (ROBO_GROUP_SIZE as i32) + ITEM_PORTRAIT_WIDTH;
    let stacked: i32 = ITEM_PORTRAIT_HEIGHT * (ITEM_GROUP_SIZE as i32);
    let height: i32 = if ROBO_PORTRAIT_HEIGHT >= stacked {
        ROBO_PORTRAIT_HEIGHT
    } else {
        stacked
    };
    (width, height)
}

/// Where the widget at a group position sits: boss portraits run left to
/// right along the top edge; item portraits stack top to bottom in the
/// column right of them.
pub fn widget_rect(group: Group, index: usize) -> (r: Rect)
    requires
        group is RoboMaster ==> index < ROBO_GROUP_SIZE,
        group is Item ==> index < ITEM_GROUP_SIZE,
    ensures
        group is RoboMaster ==> {
            &&& r.left == ROBO_PORTRAIT_WIDTH * index
            &&& r.top == 0
            &&& r.right == ROBO_PORTRAIT_WIDTH * (index + 1)
            &&& r.bottom == ROBO_PORTRAIT_HEIGHT
        },
        group is Item ==> {
            &&& r.left == ROBO_PORTRAIT_WIDTH * ROBO_GROUP_SIZE
            &&& r.top == ITEM_PORTRAIT_HEIGHT * index
            &&& r.right == ROBO_PORTRAIT_WIDTH * ROBO_GROUP_SIZE + ITEM_PORTRAIT_WIDTH
            &&& r.bottom == ITEM_PORTRAIT_HEIGHT * (index + 1)
        },
{
    match group {
        Group::RoboMaster => {
            let left: i32 = ROBO_PORTRAIT_WIDTH * (index as i32);
            Rect {
                left,
                top: 0,
                right: left + ROBO_PORTRAIT_WIDTH,
                bottom: ROBO_PORTRAIT_HEIGHT,
            }
        },
        Group::Item => {
            let left: i32 = ROBO_PORTRAIT_WIDTH * (ROBO_GROUP_SIZE as i32);
            let top: i32 = ITEM_PORTRAIT_HEIGHT * (index as i32);
            Rect {
                left,
                top,
                right: left + ITEM_PORTRAIT_WIDTH,
                bottom: top + ITEM_PORTRAIT_HEIGHT,
            }
        },
    }
}

} // verus!
