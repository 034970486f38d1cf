//! A model of the host-owned check states — one boolean per native widget —
//! and what a run of host commands does to them. The tracker never caches
//! these states; this model exists to state and prove what the reset
//! broadcast and a dismissed menu leave behind.

use vstd::prelude::*;

use crate::dispatch::{reset_seq, HostCommand};
use crate::table::{Tracker, WidgetHandle};

verus! {

/// How one host command changes the host's check states: a set-check-state
/// command writes its widget's state, every other command leaves them alone.
pub open spec fn apply_command(
    states: Map<WidgetHandle, bool>,
    c: HostCommand,
) -> Map<WidgetHandle, bool> {
    match c {
        HostCommand::SetCheckState { widget, checked } => states.insert(widget, checked),
        _ => states,
    }
}

/// The host's check states after performing a run of commands in order.
pub open spec fn apply_commands(
    states: Map<WidgetHandle, bool>,
    cs: Seq<HostCommand>,
) -> Map<WidgetHandle, bool>
    decreases cs.len(),
{
    if cs.len() == 0 {
        states
    } else {
        apply_commands(apply_command(states, cs[0]), cs.drop_first())
    }
}

/// Whether a command sets some widget unchecked.
pub open spec fn sets_unchecked(c: HostCommand) -> bool {
    c matches HostCommand::SetCheckState { widget, checked } && !checked
}

/// Whether every command of a run sets some widget unchecked.
pub open spec fn all_set_unchecked(cs: Seq<HostCommand>) -> bool {
    forall|i: int| 0 <= i < cs.len() ==> sets_unchecked(cs[i])
}

/// Whether a run carries a set-unchecked command for this widget.
pub open spec fn targets(cs: Seq<HostCommand>, w: WidgetHandle) -> bool {
    exists|i: int|
        0 <= i < cs.len() && cs[i] == (HostCommand::SetCheckState { widget: w, checked: false })
}

/// A run of set-unchecked commands leaves every targeted widget unchecked and
/// every other widget's state exactly as it was.
pub proof fn lemma_apply_set_unchecked(states: Map<WidgetHandle, bool>, cs: Seq<HostCommand>)
    requires
        all_set_unchecked(cs),
    ensures
        forall|w: WidgetHandle|
            targets(cs, w) ==> #[trigger] apply_commands(states, cs).dom().contains(w)
                && apply_commands(states, cs)[w] == false,
        forall|w: WidgetHandle|
            !targets(cs, w) ==> (#[trigger] apply_commands(states, cs).dom().contains(w)
                <==> states.dom().contains(w)),
        forall|w: WidgetHandle|
            !targets(cs, w) && states.dom().contains(w) ==> #[trigger] apply_commands(states, cs)[w]
                == states[w],
    decreases cs.len(),
{
    if cs.len() == 0 {
    } else {
        let c0 = cs[0];
        let rest = cs.drop_first();
        let m0 = apply_command(states, c0);
        assert(sets_unchecked(c0));
        let w0 = c0->SetCheckState_widget;
        assert(c0 == (HostCommand::SetCheckState { widget: w0, checked: false }));
        assert(all_set_unchecked(rest)) by {
            assert forall|i: int| 0 <= i < rest.len() implies sets_unchecked(rest[i]) by {
                assert(rest[i] == cs[i + 1]);
            }
        }
        lemma_apply_set_unchecked(m0, rest);
        assert(apply_commands(states, cs) == apply_commands(m0, rest));
        assert forall|w: WidgetHandle| targets(cs, w) implies #[trigger] apply_commands(
            states,
            cs,
        ).dom().contains(w) && apply_commands(states, cs)[w] == false by {
            let i = choose|i: int|
                0 <= i < cs.len() && cs[i] == (HostCommand::SetCheckState {
                    widget: w,
                    checked: false,
                });
            if targets(rest, w) {
                assert(apply_commands(m0, rest).dom().contains(w) && apply_commands(m0, rest)[w]
                    == false);
            } else {
                if i == 0 {
                    assert(w == w0);
                    assert(m0.dom().contains(w) && m0[w] == false);
                    assert(apply_commands(m0, rest).dom().contains(w) <==> m0.dom().contains(w));
                    assert(apply_commands(m0, rest)[w] == m0[w]);
                } else {
                    assert(rest[i - 1] == cs[i]);
                    assert(targets(rest, w));
                }
            }
        }
        assert forall|w: WidgetHandle| !targets(cs, w) implies ((#[trigger] apply_commands(
            states,
            cs,
        ).dom().contains(w) <==> states.dom().contains(w)) && (states.dom().contains(w)
            ==> apply_commands(states, cs)[w] == states[w])) by {
            assert(w != w0) by {
                if w == w0 {
                    assert(cs[0] == (HostCommand::SetCheckState { widget: w, checked: false }));
                    assert(targets(cs, w));
                }
            }
            assert(!targets(rest, w)) by {
                if targets(rest, w) {
                    let j = choose|j: int|
                        0 <= j < rest.len() && rest[j] == (HostCommand::SetCheckState {
                            widget: w,
                            checked: false,
                        });
                    assert(cs[j + 1] == rest[j]);
                    assert(targets(cs, w));
                }
            }
            assert(m0.dom().contains(w) <==> states.dom().contains(w));
            assert(apply_commands(m0, rest).dom().contains(w) <==> m0.dom().contains(w));
            if states.dom().contains(w) {
                assert(m0[w] == states[w]);
                assert(apply_commands(m0, rest)[w] == m0[w]);
            }
        }
    }
}

/// Reset leaves every tracked widget unchecked, and touches nothing else:
/// an untracked widget's state, known to the host or not, stays as it was.
pub proof fn lemma_reset_clears_all(t: Tracker, states: Map<WidgetHandle, bool>)
    requires
        t.wf(),
    ensures
        forall|w: WidgetHandle|
            t.spec_tracks(w) ==> #[trigger] apply_commands(states, reset_seq(t)).dom().contains(w)
                && apply_commands(states, reset_seq(t))[w] == false,
        forall|w: WidgetHandle|
            !t.spec_tracks(w) ==> (#[trigger] apply_commands(states, reset_seq(t)).dom().contains(
                w,
            ) <==> states.dom().contains(w)),
        forall|w: WidgetHandle|
            !t.spec_tracks(w) && states.dom().contains(w) ==> #[trigger] apply_commands(
                states,
                reset_seq(t),
            )[w] == states[w],
{
    let cs = reset_seq(t);
    assert(all_set_unchecked(cs)) by {
        assert forall|i: int| 0 <= i < cs.len() implies sets_unchecked(cs[i]) by {
            assert(cs[i] == (HostCommand::SetCheckState {
                widget: t.widget_seq()[i],
                checked: false,
            }));
        }
    }
    assert forall|w: WidgetHandle| #[trigger] t.spec_tracks(w) <==> targets(cs, w) by {
        crate::table::lemma_tracks_iff_in_widget_seq(t, w);
        if t.widget_seq().contains(w) {
            let i = choose|i: int|
                0 <= i < t.widget_seq().len() && t.widget_seq()[i] == w;
            assert(cs[i] == (HostCommand::SetCheckState { widget: w, checked: false }));
            assert(targets(cs, w));
        }
        if targets(cs, w) {
            let i = choose|i: int|
                0 <= i < cs.len() && cs[i] == (HostCommand::SetCheckState {
                    widget: w,
                    checked: false,
                });
            assert(cs[i] == (HostCommand::SetCheckState {
                widget: t.widget_seq()[i],
                checked: false,
            }));
            assert(t.widget_seq()[i] == w);
            assert(t.widget_seq().contains(w));
        }
    }
    lemma_apply_set_unchecked(states, cs);
}

/// Reset is idempotent: a second reset right after a first changes nothing
/// the host observes.
pub proof fn lemma_reset_idempotent(t: Tracker, states: Map<WidgetHandle, bool>)
    requires
        t.wf(),
    ensures
        apply_commands(apply_commands(states, reset_seq(t)), reset_seq(t)) == apply_commands(
            states,
            reset_seq(t),
        ),
{
    let m1 = apply_commands(states, reset_seq(t));
    let m2 = apply_commands(m1, reset_seq(t));
    lemma_reset_clears_all(t, states);
    lemma_reset_clears_all(t, m1);
    assert(m2 =~= m1);
}

/// A dismissed menu issues no commands, and no commands change no state.
pub proof fn lemma_no_commands_change_nothing(states: Map<WidgetHandle, bool>)
    ensures
        apply_commands(states, Seq::<HostCommand>::empty()) == states,
{
}

} // verus!
