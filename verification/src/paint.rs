//! The paint interceptor: given a widget's handle, its client rectangle and
//! the check state the host reports at this instant, pick the image the
//! widget must show and emit the one draw command that fully replaces the
//! host's default rendering.

use vstd::prelude::*;

use crate::assets::ImageHandle;
use crate::geometry::Rect;
use crate::table::{lemma_index_of_unique, Group, Tracker, WidgetHandle};

verus! {

/// One draw command back to the host: fill the whole client rectangle with
/// this image as a pattern.
#[derive(Clone, Copy, Debug, PartialEq, Eq, Structural)]
pub struct DrawCommand {
    pub rect: Rect,
    pub image: ImageHandle,
}

/// A paint notification arrived for a handle the table does not know. That
/// cannot happen through correct wiring — the host only forwards
/// notifications for registered widgets — so it marks a table-corruption
/// defect, to be failed on loudly, never painted over.
#[derive(Clone, Copy, Debug, PartialEq, Eq, Structural)]
pub struct InvariantViolation {
    pub widget: WidgetHandle,
}

impl Tracker {
    /// The image a tracked widget shows: its pair's checked image exactly
    /// when the host reports it checked, else the unchecked image.
    pub open spec fn chosen_image(self, w: WidgetHandle, checked: bool) -> ImageHandle
        recommends
            self.spec_tracks(w),
    {
        if checked {
            self.pair_of(w).checked_image
        } else {
            self.pair_of(w).unchecked_image
        }
    }

    /// Renders one widget: selects the image by the check state the host
    /// reports now — never a cached one, no drawing context survives between
    /// calls — and covers the full client rectangle with it. An untracked
    /// handle is an invariant violation, reported as is.
    pub fn render(&self, widget: WidgetHandle, client_rect: Rect, checked: bool) -> (r: Result<
        DrawCommand,
        InvariantViolation,
    >)
        requires
            self.wf(),
        ensures
            r is Ok <==> self.spec_tracks(widget),
            r matches Ok(cmd) ==> cmd == (DrawCommand {
                rect: client_rect,
                image: self.chosen_image(widget, checked),
            }),
            r matches Err(e) ==> e.widget == widget,
    {
        match self.lookup(widget) {
            Some(t) => {
                let pair = match t.group {
                    Group::RoboMaster => self.robo.assets[t.asset_index],
                    Group::Item => self.item.assets[t.asset_index],
                };
                let image = if checked {
                    pair.checked_image
                } else {
                    pair.unchecked_image
                };
                Ok(DrawCommand { rect: client_rect, image })
            },
            None => Err(InvariantViolation { widget }),
        }
    }
}

/// The widget standing at position `i` of a group renders with the `i`-th
/// declared asset pair of that group: table order matches asset-list order.
pub proof fn lemma_position_maps_to_declared_pair(t: Tracker, g: Group, i: int, checked: bool)
    requires
        t.wf(),
        0 <= i < t.group(g).widgets@.len(),
    ensures
        t.spec_tracks(t.group(g).widgets@[i]),
        t.group_of(t.group(g).widgets@[i]) == g,
        t.index_of(t.group(g).widgets@[i]) == i,
        t.pair_of(t.group(g).widgets@[i]) == t.group(g).assets@[i],
{
    let w = t.group(g).widgets@[i];
    match g {
        Group::RoboMaster => {
            lemma_index_of_unique(t.robo.widgets@, w, i);
        },
        Group::Item => {
            lemma_index_of_unique(t.item.widgets@, w, i);
            assert(!t.robo.widgets@.contains(w));
        },
    }
}

/// What a render selects is decided by the host's answer at call time and by
/// nothing else: the checked image if and only if the host reported checked
/// (the equivalence degenerates only for a pair whose two images coincide).
pub proof fn lemma_render_selects_by_check_state(t: Tracker, w: WidgetHandle, checked: bool)
    requires
        t.wf(),
        t.spec_tracks(w),
    ensures
        t.chosen_image(w, checked) == t.pair_of(w).checked_image <==> (checked || t.pair_of(
            w,
        ).checked_image == t.pair_of(w).unchecked_image),
        checked ==> t.chosen_image(w, checked) == t.pair_of(w).checked_image,
        !checked ==> t.chosen_image(w, checked) == t.pair_of(w).unchecked_image,
{
}

} // verus!
