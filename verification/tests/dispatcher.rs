use mm2tracker::assets::{AssetPair, ImageHandle};
use mm2tracker::dispatch::{Dispatcher, HostCommand, MenuEntry, Notification};
use mm2tracker::geometry::{CursorPos, Rect};
use mm2tracker::table::{Group, Tracker, WidgetHandle};

fn image(id: u64) -> ImageHandle {
    ImageHandle { id }
}

fn robo_unchecked(i: u64) -> ImageHandle {
    image(1000 + i)
}

fn robo_checked(i: u64) -> ImageHandle {
    image(2000 + i)
}

fn item_unchecked(i: u64) -> ImageHandle {
    image(3000 + i)
}

fn item_checked(i: u64) -> ImageHandle {
    image(4000 + i)
}

fn some_rect() -> Rect {
    Rect { left: 0, top: 0, right: 54, bottom: 60 }
}

/// A dispatcher over the full 8-boss, 3-item layout, made ready, with the
/// widget handles in registration order.
fn build_dispatcher() -> (Dispatcher, Vec<WidgetHandle>, Vec<WidgetHandle>) {
    let mut robo_assets = Vec::new();
    for i in 0..8u64 {
        robo_assets.push(AssetPair {
            unchecked_image: robo_unchecked(i),
            checked_image: robo_checked(i),
        });
    }
    let mut item_assets = Vec::new();
    for i in 0..3u64 {
        item_assets.push(AssetPair {
            unchecked_image: item_unchecked(i),
            checked_image: item_checked(i),
        });
    }
    let mut dispatcher = Dispatcher::new(Tracker::new(robo_assets, item_assets));
    let mut robo_widgets = Vec::new();
    for i in 0..8u64 {
        let w = WidgetHandle { id: 1 + i };
        dispatcher.register_widget(Group::RoboMaster, w);
        robo_widgets.push(w);
    }
    let mut item_widgets = Vec::new();
    for i in 0..3u64 {
        let w = WidgetHandle { id: 101 + i };
        dispatcher.register_widget(Group::Item, w);
        item_widgets.push(w);
    }
    dispatcher.mark_ready();
    (dispatcher, robo_widgets, item_widgets)
}

/// The simulated host-owned check states, one per widget.
fn fresh_host(robo: &[WidgetHandle], item: &[WidgetHandle]) -> Vec<(WidgetHandle, bool)> {
    let mut host = Vec::new();
    for w in robo.iter().chain(item.iter()) {
        host.push((*w, false));
    }
    host
}

fn apply_to_host(host: &mut Vec<(WidgetHandle, bool)>, cmds: &[HostCommand]) {
    for c in cmds {
        if let HostCommand::SetCheckState { widget, checked } = c {
            for entry in host.iter_mut() {
                if entry.0 == *widget {
                    entry.1 = *checked;
                }
            }
        }
    }
}

fn host_checked(host: &[(WidgetHandle, bool)], w: WidgetHandle) -> bool {
    host.iter().find(|e| e.0 == w).expect("widget known to host").1
}

/// Paints one widget through the dispatcher, handing it the host's current
/// check state, and returns the image the draw command selected.
fn paint(d: &mut Dispatcher, w: WidgetHandle, checked: bool) -> ImageHandle {
    let res = d
        .handle_notification(Notification::PaintRequest { widget: w, rect: some_rect(), checked })
        .expect("paint for a tracked widget");
    assert!(!res.forward_default, "custom paint replaces default rendering");
    assert_eq!(res.commands.len(), 2);
    assert_eq!(res.commands[1], HostCommand::SuppressDefaultPaint);
    match res.commands[0] {
        HostCommand::DrawFill { rect, image } => {
            assert_eq!(rect, some_rect());
            image
        },
        _ => panic!("the first command must fill the client rectangle"),
    }
}

#[test]
fn render_selects_checked_image_iff_checked() {
    let (mut d, robo, item) = build_dispatcher();
    assert_eq!(paint(&mut d, robo[2], true), robo_checked(2));
    assert_eq!(paint(&mut d, robo[2], false), robo_unchecked(2));
    assert_eq!(paint(&mut d, item[1], true), item_checked(1));
    assert_eq!(paint(&mut d, item[1], false), item_unchecked(1));
}

#[test]
fn every_position_renders_its_declared_pair() {
    let (mut d, robo, item) = build_dispatcher();
    for i in 0..8u64 {
        assert_eq!(paint(&mut d, robo[i as usize], false), robo_unchecked(i));
        assert_eq!(paint(&mut d, robo[i as usize], true), robo_checked(i));
    }
    for i in 0..3u64 {
        assert_eq!(paint(&mut d, item[i as usize], false), item_unchecked(i));
        assert_eq!(paint(&mut d, item[i as usize], true), item_checked(i));
    }
}

#[test]
fn untracked_paint_is_an_invariant_violation() {
    let (mut d, _, _) = build_dispatcher();
    let stranger = WidgetHandle { id: 999 };
    let err = d
        .handle_notification(Notification::PaintRequest {
            widget: stranger,
            rect: some_rect(),
            checked: false,
        })
        .expect_err("nobody registered this handle");
    assert_eq!(err.widget, stranger);
}

#[test]
fn uninitialized_dispatcher_ignores_notifications() {
    let mut d = Dispatcher::new(Tracker::new(Vec::new(), Vec::new()));
    let res = d
        .handle_notification(Notification::PaintRequest {
            widget: WidgetHandle { id: 1 },
            rect: some_rect(),
            checked: true,
        })
        .expect("ignored safely before the table is ready");
    assert!(res.commands.is_empty());
    assert!(res.forward_default);
}

#[test]
fn lookup_reports_group_and_position() {
    let (d, robo, item) = build_dispatcher();
    let found = d.tracker.lookup(robo[5]).expect("registered");
    assert_eq!(found.native_handle, robo[5]);
    assert_eq!(found.group, Group::RoboMaster);
    assert_eq!(found.asset_index, 5);
    let found = d.tracker.lookup(item[2]).expect("registered");
    assert_eq!(found.group, Group::Item);
    assert_eq!(found.asset_index, 2);
    assert!(d.tracker.lookup(WidgetHandle { id: 999 }).is_none());
}

#[test]
fn clicking_fourth_boss_only_affects_it() {
    // Group RoboMaster has 8 entries; a click toggles the host-owned state of
    // widget index 3, and the next render of it must select its checked
    // image while every other widget is untouched.
    let (mut d, robo, item) = build_dispatcher();
    let mut host = fresh_host(&robo, &item);
    apply_to_host(
        &mut host,
        &[HostCommand::SetCheckState { widget: robo[3], checked: true }],
    );
    assert_eq!(
        paint(&mut d, robo[3], host_checked(&host, robo[3])),
        robo_checked(3)
    );
    for i in 0..8usize {
        if i != 3 {
            assert_eq!(
                paint(&mut d, robo[i], host_checked(&host, robo[i])),
                robo_unchecked(i as u64)
            );
        }
    }
    for i in 0..3usize {
        assert_eq!(
            paint(&mut d, item[i], host_checked(&host, item[i])),
            item_unchecked(i as u64)
        );
    }
}

#[test]
fn context_menu_request_asks_host_to_show_menu() {
    let (mut d, _, _) = build_dispatcher();
    let pos = CursorPos { x: 17, y: 29 };
    let res = d
        .handle_notification(Notification::ContextMenuRequest { pos })
        .expect("menu request is handled");
    assert_eq!(res.commands, vec![HostCommand::ShowMenu { pos }]);
    assert!(res.forward_default);
}

#[test]
fn reset_returns_all_eleven_widgets_unchecked() {
    // Five widgets individually checked; one reset command returns all 8+3
    // to unchecked, observable through every render selecting the unchecked
    // image.
    let (mut d, robo, item) = build_dispatcher();
    let mut host = fresh_host(&robo, &item);
    for w in [robo[0], robo[3], robo[7], item[0], item[2]] {
        apply_to_host(&mut host, &[HostCommand::SetCheckState { widget: w, checked: true }]);
    }
    let cmds = d.handle_menu_selection(Some(MenuEntry::Reset));
    assert_eq!(cmds.len(), 11);
    for (i, w) in robo.iter().chain(item.iter()).enumerate() {
        assert_eq!(cmds[i], HostCommand::SetCheckState { widget: *w, checked: false });
    }
    apply_to_host(&mut host, &cmds);
    for w in robo.iter() {
        assert!(!host_checked(&host, *w));
    }
    for w in item.iter() {
        assert!(!host_checked(&host, *w));
    }
    for i in 0..8usize {
        assert_eq!(
            paint(&mut d, robo[i], host_checked(&host, robo[i])),
            robo_unchecked(i as u64)
        );
    }
    for i in 0..3usize {
        assert_eq!(
            paint(&mut d, item[i], host_checked(&host, item[i])),
            item_unchecked(i as u64)
        );
    }
}

#[test]
fn reset_twice_leaves_the_same_state_as_once() {
    let (mut d, robo, item) = build_dispatcher();
    let mut host = fresh_host(&robo, &item);
    for w in [robo[1], robo[4], item[1]] {
        apply_to_host(&mut host, &[HostCommand::SetCheckState { widget: w, checked: true }]);
    }
    let cmds = d.handle_menu_selection(Some(MenuEntry::Reset));
    apply_to_host(&mut host, &cmds);
    let after_once = host.clone();
    let cmds = d.handle_menu_selection(Some(MenuEntry::Reset));
    apply_to_host(&mut host, &cmds);
    assert_eq!(host, after_once);
}

#[test]
fn dismissed_menu_changes_nothing() {
    let (mut d, robo, item) = build_dispatcher();
    let mut host = fresh_host(&robo, &item);
    apply_to_host(&mut host, &[HostCommand::SetCheckState { widget: robo[6], checked: true }]);
    let before = host.clone();
    let cmds = d.handle_menu_selection(None);
    assert!(cmds.is_empty());
    apply_to_host(&mut host, &cmds);
    assert_eq!(host, before);
    assert_eq!(
        paint(&mut d, robo[6], host_checked(&host, robo[6])),
        robo_checked(6)
    );
}

#[test]
fn exit_selection_terminates_dispatch() {
    let (mut d, robo, _) = build_dispatcher();
    let cmds = d.handle_menu_selection(Some(MenuEntry::Exit));
    assert_eq!(cmds, vec![HostCommand::RequestExit]);
    // After termination nothing is processed any more.
    let res = d
        .handle_notification(Notification::PaintRequest {
            widget: robo[0],
            rect: some_rect(),
            checked: true,
        })
        .expect("passed through untouched");
    assert!(res.commands.is_empty());
    assert!(res.forward_default);
}

#[test]
fn destroy_notification_requests_exit() {
    let (mut d, _, _) = build_dispatcher();
    let res = d.handle_notification(Notification::Destroy).expect("destroy is handled");
    assert_eq!(res.commands, vec![HostCommand::RequestExit]);
    assert!(res.forward_default);
    let res = d
        .handle_notification(Notification::ContextMenuRequest { pos: CursorPos { x: 0, y: 0 } })
        .expect("ignored after termination");
    assert!(res.commands.is_empty());
}

#[test]
fn unhandled_notifications_pass_through() {
    let (mut d, _, _) = build_dispatcher();
    let res = d.handle_notification(Notification::Other).expect("passed through");
    assert!(res.commands.is_empty());
    assert!(res.forward_default);
}
