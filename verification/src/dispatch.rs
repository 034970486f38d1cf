//! The command dispatcher: a three-state machine that routes host
//! notifications. Before the window is fully built every notification falls
//! through to the host's default handling; once ready, paint requests go to
//! the paint interceptor, a right-click raises the two-entry context menu,
//! and a destroy notification ends the session. After termination nothing is
//! processed any more.

use vstd::prelude::*;

use crate::geometry::CursorPos;
use crate::paint::InvariantViolation;
use crate::table::{
    lemma_push_keeps_disjoint, lemma_push_keeps_unique, lemma_push_other_keeps_disjoint, Group,
    Tracker, WidgetHandle,
};
use crate::assets::ImageHandle;
use crate::geometry::Rect;

verus! {

/// The two selectable context-menu entries.
#[derive(Clone, Copy, Debug, PartialEq, Eq, Structural)]
pub enum MenuEntry {
    Reset,
    Exit,
}

impl MenuEntry {
    /// The text the menu shows for this entry.
    pub fn label(&self) -> (s: &'static str)
        ensures
            self is Reset ==> s@ == "Reset"@,
            self is Exit ==> s@ == "Exit"@,
    {
        match self {
            MenuEntry::Reset => "Reset",
            MenuEntry::Exit => "Exit",
        }
    }
}

/// One line of the context menu: a selectable entry or the separator.
#[derive(Clone, Copy, Debug, PartialEq, Eq, Structural)]
pub enum MenuItem {
    Command(MenuEntry),
    Separator,
}

/// The context menu's fixed contents: exactly two enabled entries, "Reset"
/// first, then a separator, then "Exit".
pub fn context_menu() -> (items: Vec<MenuItem>)
    ensures
        items@ == seq![
            MenuItem::Command(MenuEntry::Reset),
            MenuItem::Separator,
            MenuItem::Command(MenuEntry::Exit),
        ],
{
    let mut items: Vec<MenuItem> = Vec::new();
    items.push(MenuItem::Command(MenuEntry::Reset));
    items.push(MenuItem::Separator);
    items.push(MenuItem::Command(MenuEntry::Exit));
    proof {
        assert(items@ =~= seq![
            MenuItem::Command(MenuEntry::Reset),
            MenuItem::Separator,
            MenuItem::Command(MenuEntry::Exit),
        ]);
    }
    items
}

/// A notification from the windowing host. A paint request carries the check
/// state the host reports for the widget at delivery time, queried at the
/// moment of use and never cached. Anything the dispatcher does not handle
/// arrives as `Other`.
#[derive(Clone, Copy, Debug, PartialEq, Eq, Structural)]
pub enum Notification {
    PaintRequest { widget: WidgetHandle, rect: Rect, checked: bool },
    ContextMenuRequest { pos: CursorPos },
    Destroy,
    Other,
}

/// A command back to the windowing host.
#[derive(Clone, Copy, Debug, PartialEq, Eq, Structural)]
pub enum HostCommand {
    /// Fill this rectangle with this image as a pattern brush.
    DrawFill { rect: Rect, image: ImageHandle },
    /// Skip the host's own default rendering for this paint pass.
    SuppressDefaultPaint,
    /// Set the host-owned check state of this widget.
    SetCheckState { widget: WidgetHandle, checked: bool },
    /// Show the context menu, anchored at this cursor position.
    ShowMenu { pos: CursorPos },
    /// End the process's message loop.
    RequestExit,
}

/// Where the dispatcher stands in its lifecycle.
#[derive(Clone, Copy, Debug, PartialEq, Eq, Structural)]
pub enum DispatchState {
    Uninitialized,
    Ready,
    Terminating,
}

/// What one notification produced: commands for the host to perform, in
/// order, and whether the host's default handling should still run.
#[derive(Debug)]
pub struct DispatchResult {
    pub commands: Vec<HostCommand>,
    pub forward_default: bool,
}

/// The reset broadcast: one set-unchecked command per widget, in table order.
pub open spec fn reset_seq(t: Tracker) -> Seq<HostCommand> {
    t.widget_seq().map(
        |i: int, w: WidgetHandle| HostCommand::SetCheckState { widget: w, checked: false },
    )
}

/// Builds the reset broadcast: sets every widget of both groups unchecked,
/// in table order, the boss group first.
pub fn reset_commands(t: &Tracker) -> (cmds: Vec<HostCommand>)
    ensures
        cmds@ == reset_seq(*t),
        cmds@.len() == t.widget_seq().len(),
        forall|i: int|
            0 <= i < cmds@.len() ==> cmds@[i] == (HostCommand::SetCheckState {
                widget: t.widget_seq()[i],
                checked: false,
            }),
{
    let mut cmds: Vec<HostCommand> = Vec::new();
    let mut i: usize = 0;
    while i < t.robo.widgets.len()
        invariant
            i <= t.robo.widgets@.len(),
            cmds@.len() == i,
            forall|j: int|
                0 <= j < i ==> cmds@[j] == (HostCommand::SetCheckState {
                    widget: t.robo.widgets@[j],
                    checked: false,
                }),
        decreases t.robo.widgets@.len() - i,
    {
        cmds.push(HostCommand::SetCheckState { widget: t.robo.widgets[i], checked: false });
        i = i + 1;
    }
    let mut k: usize = 0;
    while k < t.item.widgets.len()
        invariant
            k <= t.item.widgets@.len(),
            cmds@.len() == t.robo.widgets@.len() + k,
            forall|j: int|
                0 <= j < t.robo.widgets@.len() ==> cmds@[j] == (HostCommand::SetCheckState {
                    widget: t.robo.widgets@[j],
                    checked: false,
                }),
            forall|j: int|
                0 <= j < k ==> cmds@[t.robo.widgets@.len() + j] == (HostCommand::SetCheckState {
                    widget: t.item.widgets@[j],
                    checked: false,
                }),
        decreases t.item.widgets@.len() - k,
    {
        cmds.push(HostCommand::SetCheckState { widget: t.item.widgets[k], checked: false });
        k = k + 1;
    }
    proof {
        assert forall|j: int| 0 <= j < cmds@.len() implies cmds@[j] == reset_seq(*t)[j] by {
            if j < t.robo.widgets@.len() {
                assert(t.widget_seq()[j] == t.robo.widgets@[j]);
            } else {
                assert(t.widget_seq()[j] == t.item.widgets@[j - t.robo.widgets@.len()]);
            }
        }
        assert(cmds@ =~= reset_seq(*t));
    }
    cmds
}

/// The command dispatcher, owning the widget table and the asset registries
/// it routes by. Constructed before the window exists; made ready once every
/// widget is registered.
pub struct Dispatcher {
    pub tracker: Tracker,
    pub state: DispatchState,
}

impl Dispatcher {
    /// Well-formed: the owned table is.
    pub open spec fn wf(self) -> bool {
        self.tracker.wf()
    }

    /// A dispatcher over a well-formed table, not yet ready: until
    /// `mark_ready` it lets every notification fall through unhandled.
    pub fn new(tracker: Tracker) -> (d: Dispatcher)
        requires
            tracker.wf(),
        ensures
            d.wf(),
            d.tracker == tracker,
            d.state is Uninitialized,
    {
        Dispatcher { tracker, state: DispatchState::Uninitialized }
    }

    /// Registers the next widget of a group, during layout: the handle takes
    /// the next free position of that group, so registration order fixes
    /// which asset pair the widget renders with.
    pub fn register_widget(&mut self, group: Group, widget: WidgetHandle)
        requires
            old(self).wf(),
            old(self).state is Uninitialized,
            !old(self).tracker.spec_tracks(widget),
            old(self).tracker.group(group).widgets@.len() < old(self).tracker.group(
                group,
            ).assets@.len(),
        ensures
            final(self).wf(),
            final(self).state == old(self).state,
            final(self).tracker.group(group).widgets@ == old(self).tracker.group(
                group,
            ).widgets@.push(widget),
            final(self).tracker.group(group).assets == old(self).tracker.group(group).assets,
            group is RoboMaster ==> final(self).tracker.item == old(self).tracker.item,
            group is Item ==> final(self).tracker.robo == old(self).tracker.robo,
    {
        proof {
            match group {
                Group::RoboMaster => {
                    lemma_push_keeps_unique(old(self).tracker.robo.widgets@, widget);
                    lemma_push_keeps_disjoint(
                        old(self).tracker.robo.widgets@,
                        old(self).tracker.item.widgets@,
                        widget,
                    );
                },
                Group::Item => {
                    lemma_push_keeps_unique(old(self).tracker.item.widgets@, widget);
                    lemma_push_other_keeps_disjoint(
                        old(self).tracker.robo.widgets@,
                        old(self).tracker.item.widgets@,
                        widget,
                    );
                },
            }
        }
        match group {
            Group::RoboMaster => {
                self.tracker.robo.widgets.push(widget);
            },
            Group::Item => {
                self.tracker.item.widgets.push(widget);
            },
        }
    }

    /// The one transition out of `Uninitialized`, taken when the window is
    /// fully constructed: every declared widget must be registered.
    pub fn mark_ready(&mut self)
        requires
            old(self).wf(),
            old(self).state is Uninitialized,
            old(self).tracker.complete(),
        ensures
            final(self).wf(),
            final(self).tracker == old(self).tracker,
            final(self).state is Ready,
    {
        self.state = DispatchState::Ready;
    }

    /// Routes one host notification.
    ///
    /// Outside `Ready` — before the table is complete, or after termination —
    /// nothing is processed: no commands, and the host's default handling
    /// runs. In `Ready`, a paint request for a tracked widget yields the
    /// paint interceptor's draw command and suppresses default rendering; a
    /// paint request for an unknown handle is an invariant violation,
    /// reported as an error; a context-menu request asks the host to show the
    /// menu; a destroy notification requests exit and enters `Terminating`;
    /// every other notification passes through unmodified.
    pub fn handle_notification(&mut self, n: Notification) -> (r: Result<
        DispatchResult,
        InvariantViolation,
    >)
        requires
            old(self).wf(),
        ensures
            final(self).wf(),
            final(self).tracker == old(self).tracker,
            !(old(self).state is Ready) ==> {
                &&& final(self).state == old(self).state
                &&& r matches Ok(res)
                &&& res.commands@ == Seq::<HostCommand>::empty()
                &&& res.forward_default
            },
            old(self).state is Ready ==> match n {
                Notification::PaintRequest { widget, rect, checked } => {
                    &&& old(self).tracker.spec_tracks(widget) ==> {
                        &&& final(self).state is Ready
                        &&& r matches Ok(res)
                        &&& res.commands@ == seq![
                            (HostCommand::DrawFill {
                                rect,
                                image: old(self).tracker.chosen_image(widget, checked),
                            }),
                            HostCommand::SuppressDefaultPaint,
                        ]
                        &&& !res.forward_default
                    }
                    &&& !old(self).tracker.spec_tracks(widget) ==> {
                        &&& final(self).state is Ready
                        &&& r matches Err(e)
                        &&& e.widget == widget
                    }
                },
                Notification::ContextMenuRequest { pos } => {
                    &&& final(self).state is Ready
                    &&& r matches Ok(res)
                    &&& res.commands@ == seq![(HostCommand::ShowMenu { pos })]
                    &&& res.forward_default
                },
                Notification::Destroy => {
                    &&& final(self).state is Terminating
                    &&& r matches Ok(res)
                    &&& res.commands@ == seq![HostCommand::RequestExit]
                    &&& res.forward_default
                },
                Notification::Other => {
                    &&& final(self).state is Ready
                    &&& r matches Ok(res)
                    &&& res.commands@ == Seq::<HostCommand>::empty()
                    &&& res.forward_default
                },
            },
    {
        match self.state {
            DispatchState::Ready => {
                match n {
                    Notification::PaintRequest { widget, rect, checked } => {
                        match self.tracker.render(widget, rect, checked) {
                            Ok(cmd) => {
                                let mut commands: Vec<HostCommand> = Vec::new();
                                commands.push(
                                    HostCommand::DrawFill { rect: cmd.rect, image: cmd.image },
                                );
                                commands.push(HostCommand::SuppressDefaultPaint);
                                Ok(DispatchResult { commands, forward_default: false })
                            },
                            Err(e) => Err(e),
                        }
                    },
                    Notification::ContextMenuRequest { pos } => {
                        let mut commands: Vec<HostCommand> = Vec::new();
                        commands.push(HostCommand::ShowMenu { pos });
                        Ok(DispatchResult { commands, forward_default: true })
                    },
                    Notification::Destroy => {
                        self.state = DispatchState::Terminating;
                        let mut commands: Vec<HostCommand> = Vec::new();
                        commands.push(HostCommand::RequestExit);
                        Ok(DispatchResult { commands, forward_default: true })
                    },
                    Notification::Other => {
                        Ok(DispatchResult { commands: Vec::new(), forward_default: true })
                    },
                }
            },
            _ => Ok(DispatchResult { commands: Vec::new(), forward_default: true }),
        }
    }

    /// Applies the user's pick from the context menu, delivered by the host
    /// after the menu closed. "Exit" requests termination; "Reset" broadcasts
    /// set-unchecked to every widget in table order; a dismissed menu does
    /// nothing at all.
    pub fn handle_menu_selection(&mut self, selection: Option<MenuEntry>) -> (cmds: Vec<
        HostCommand,
    >)
        requires
            old(self).wf(),
            old(self).state is Ready,
        ensures
            final(self).wf(),
            final(self).tracker == old(self).tracker,
            selection == Some(MenuEntry::Exit) ==> final(self).state is Terminating && cmds@
                == seq![HostCommand::RequestExit],
            selection == Some(MenuEntry::Reset) ==> final(self).state is Ready && cmds@
                == reset_seq(old(self).tracker),
            selection is None ==> final(self).state is Ready && cmds@ == Seq::<
                HostCommand,
            >::empty(),
    {
        match selection {
            Some(MenuEntry::Exit) => {
                self.state = DispatchState::Terminating;
                let mut commands: Vec<HostCommand> = Vec::new();
                commands.push(HostCommand::RequestExit);
                commands
            },
            Some(MenuEntry::Reset) => reset_commands(&self.tracker),
            None => Vec::new(),
        }
    }

    /// Whether the table knows this handle; for the host adapter, which must
    /// hand in only fresh handles while registering.
    pub fn tracks(&self, w: WidgetHandle) -> (b: bool)
        ensures
            b == self.tracker.spec_tracks(w),
    {
        self.tracker.tracks(w)
    }

    /// How many widgets of a group are registered so far.
    pub fn registered_count(&self, group: Group) -> (n: usize)
        ensures
            n == self.tracker.group(group).widgets@.len(),
    {
        match group {
            Group::RoboMaster => self.tracker.robo.widgets.len(),
            Group::Item => self.tracker.item.widgets.len(),
        }
    }

    /// How many asset pairs a group declares.
    pub fn declared_count(&self, group: Group) -> (n: usize)
        ensures
            n == self.tracker.group(group).assets@.len(),
    {
        match group {
            Group::RoboMaster => self.tracker.robo.assets.len(),
            Group::Item => self.tracker.item.assets.len(),
        }
    }
}

} // verus!
