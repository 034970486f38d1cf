//! The toggle widget table: for each group, the ordered list of native widget
//! handles beside the group's asset list. A widget's position in its group's
//! list is its index into that group's asset pairs, so insertion order fixes
//! both the on-screen layout and the image each widget renders with.

use vstd::prelude::*;

use crate::assets::AssetPair;

verus! {

/// An opaque native widget identity, assigned by the host at creation and
/// unique across the whole table.
#[derive(Clone, Copy, Debug, PartialEq, Eq, Structural)]
pub struct WidgetHandle {
    pub id: u64,
}

/// The named group a toggle widget belongs to; each group has its own asset
/// list and its own run of widgets.
#[derive(Clone, Copy, Debug, PartialEq, Eq, Structural)]
pub enum Group {
    RoboMaster,
    Item,
}

/// One on-screen control, as a lookup reports it: its native handle, the
/// group that owns it, and its index into that group's asset list.
#[derive(Clone, Copy, Debug, PartialEq, Eq, Structural)]
pub struct ToggleWidget {
    pub native_handle: WidgetHandle,
    pub group: Group,
    pub asset_index: usize,
}

/// One group's widgets and assets. The widget at position `i` renders with
/// the asset pair at position `i`; during layout the widget list grows from
/// empty up to the asset list's length.
pub struct GroupTable {
    pub assets: Vec<AssetPair>,
    pub widgets: Vec<WidgetHandle>,
}

impl GroupTable {
    /// Well-formed: no widget registered beyond the declared assets, and no
    /// handle registered twice.
    pub open spec fn wf(self) -> bool {
        &&& self.widgets@.len() <= self.assets@.len()
        &&& self.widgets@.no_duplicates()
    }

    /// Every declared asset pair has its widget.
    pub open spec fn complete(self) -> bool {
        self.widgets@.len() == self.assets@.len()
    }
}

/// The whole table: both groups, with handles unique across them.
pub struct Tracker {
    pub robo: GroupTable,
    pub item: GroupTable,
}

impl Tracker {
    /// Well-formed: each group is, and no handle sits in both groups.
    pub open spec fn wf(self) -> bool {
        &&& self.robo.wf()
        &&& self.item.wf()
        &&& self.robo.widgets@.disjoint(self.item.widgets@)
    }

    /// Every widget of both groups is registered.
    pub open spec fn complete(self) -> bool {
        self.robo.complete() && self.item.complete()
    }

    /// The group's table.
    pub open spec fn group(self, g: Group) -> GroupTable {
        match g {
            Group::RoboMaster => self.robo,
            Group::Item => self.item,
        }
    }

    /// All widget handles in table order: the boss group's, then the item group's.
    pub open spec fn widget_seq(self) -> Seq<WidgetHandle> {
        self.robo.widgets@ + self.item.widgets@
    }

    /// Whether the table knows this handle.
    pub open spec fn spec_tracks(&self, w: WidgetHandle) -> bool {
        self.robo.widgets@.contains(w) || self.item.widgets@.contains(w)
    }

    /// The group that owns a tracked handle.
    pub open spec fn group_of(self, w: WidgetHandle) -> Group
        recommends
            self.spec_tracks(w),
    {
        if self.robo.widgets@.contains(w) {
            Group::RoboMaster
        } else {
            Group::Item
        }
    }

    /// A tracked handle's position within its group, which is also its index
    /// into the group's asset list.
    pub open spec fn index_of(self, w: WidgetHandle) -> int
        recommends
            self.spec_tracks(w),
    {
        self.group(self.group_of(w)).widgets@.index_of(w)
    }

    /// The asset pair a tracked handle renders with.
    pub open spec fn pair_of(self, w: WidgetHandle) -> AssetPair
        recommends
            self.spec_tracks(w),
    {
        self.group(self.group_of(w)).assets@[self.index_of(w)]
    }

    /// A fresh table with the given asset lists and no widgets registered yet.
    pub fn new(robo_assets: Vec<AssetPair>, item_assets: Vec<AssetPair>) -> (t: Tracker)
        ensures
            t.wf(),
            t.robo.assets == robo_assets,
            t.item.assets == item_assets,
            t.robo.widgets@ == Seq::<WidgetHandle>::empty(),
            t.item.widgets@ == Seq::<WidgetHandle>::empty(),
    {
        let t = Tracker {
            robo: GroupTable { assets: robo_assets, widgets: Vec::new() },
            item: GroupTable { assets: item_assets, widgets: Vec::new() },
        };
        t
    }

    /// Whether the table knows this handle.
    #[verifier::when_used_as_spec(spec_tracks)]
    pub fn tracks(&self, w: WidgetHandle) -> (b: bool)
        ensures
            b == self.spec_tracks(w),
    {
        find_position(&self.robo.widgets, w).is_some() || find_position(
            &self.item.widgets,
            w,
        ).is_some()
    }

    /// Looks a handle up: which group owns it and at which position, or an
    /// untracked handle, reported as is.
    pub fn lookup(&self, w: WidgetHandle) -> (r: Option<ToggleWidget>)
        requires
            self.wf(),
        ensures
            r is Some <==> self.spec_tracks(w),
            r matches Some(t) ==> {
                &&& t.native_handle == w
                &&& t.group == self.group_of(w)
                &&& t.asset_index == self.index_of(w)
                &&& t.asset_index < self.group(t.group).widgets@.len()
            },
    {
        match find_position(&self.robo.widgets, w) {
            Some(i) => {
                proof {
                    lemma_index_of_unique(self.robo.widgets@, w, i as int);
                }
                Some(ToggleWidget { native_handle: w, group: Group::RoboMaster, asset_index: i })
            },
            None => {
                match find_position(&self.item.widgets, w) {
                    Some(i) => {
                        proof {
                            lemma_index_of_unique(self.item.widgets@, w, i as int);
                        }
                        Some(
                            ToggleWidget {
                                native_handle: w,
                                group: Group::Item,
                                asset_index: i,
                            },
                        )
                    },
                    None => None,
                }
            },
        }
    }
}

/// The position of a handle in a list, or nothing when the list lacks it.
pub(crate) fn find_position(v: &Vec<WidgetHandle>, w: WidgetHandle) -> (r: Option<usize>)
    ensures
        r matches Some(i) ==> i < v@.len() && v@[i as int] == w,
        r is None ==> !v@.contains(w),
{
    let mut i: usize = 0;
    while i < v.len()
        invariant
            i <= v@.len(),
            forall|j: int| 0 <= j < i ==> v@[j] != w,
        decreases v@.len() - i,
    {
        if v[i] == w {
            return Some(i);
        }
        i = i + 1;
    }
    None
}

/// The table tracks a handle exactly when the combined table-order list of
/// both groups' widgets holds it.
pub proof fn lemma_tracks_iff_in_widget_seq(t: Tracker, w: WidgetHandle)
    ensures
        t.spec_tracks(w) <==> t.widget_seq().contains(w),
{
    if t.robo.widgets@.contains(w) {
        let i = choose|i: int| 0 <= i < t.robo.widgets@.len() && t.robo.widgets@[i] == w;
        assert(t.widget_seq()[i] == w);
    } else if t.item.widgets@.contains(w) {
        let i = choose|i: int| 0 <= i < t.item.widgets@.len() && t.item.widgets@[i] == w;
        assert(t.widget_seq()[t.robo.widgets@.len() + i] == w);
    }
    if t.widget_seq().contains(w) {
        let i = choose|i: int| 0 <= i < t.widget_seq().len() && t.widget_seq()[i] == w;
        if i < t.robo.widgets@.len() {
            assert(t.robo.widgets@[i] == w);
        } else {
            assert(t.item.widgets@[i - t.robo.widgets@.len()] == w);
        }
    }
}

/// Appending a fresh handle keeps a list duplicate-free.
pub proof fn lemma_push_keeps_unique(s: Seq<WidgetHandle>, w: WidgetHandle)
    requires
        s.no_duplicates(),
        !s.contains(w),
    ensures
        s.push(w).no_duplicates(),
{
    let t = s.push(w);
    assert forall|i: int, j: int|
        0 <= i < t.len() && 0 <= j < t.len() && i != j implies t[i] != t[j] by {
        if i < s.len() && j == s.len() {
            if s[i] == w {
                assert(s.contains(w));
            }
        } else if j < s.len() && i == s.len() {
            if s[j] == w {
                assert(s.contains(w));
            }
        }
    }
}

/// Appending a handle that the other list lacks keeps two lists disjoint.
pub proof fn lemma_push_keeps_disjoint(s: Seq<WidgetHandle>, other: Seq<WidgetHandle>, w: WidgetHandle)
    requires
        s.disjoint(other),
        !other.contains(w),
    ensures
        s.push(w).disjoint(other),
{
    let t = s.push(w);
    assert forall|i: int, j: int|
        0 <= i < t.len() && 0 <= j < other.len() implies t[i] != other[j] by {
        if i == s.len() {
            if other[j] == w {
                assert(other.contains(w));
            }
        }
    }
}

/// Two lists stay disjoint when the second grows by a handle the first lacks.
pub proof fn lemma_push_other_keeps_disjoint(
    s: Seq<WidgetHandle>,
    other: Seq<WidgetHandle>,
    w: WidgetHandle,
)
    requires
        s.disjoint(other),
        !s.contains(w),
    ensures
        s.disjoint(other.push(w)),
{
    let t = other.push(w);
    assert forall|i: int, j: int|
        0 <= i < s.len() && 0 <= j < t.len() implies s[i] != t[j] by {
        if j == other.len() {
            if s[i] == w {
                assert(s.contains(w));
            }
        }
    }
}

/// In a duplicate-free list a handle sits at one position only, so the
/// position an occurrence is found at is the list's `index_of` that handle.
pub proof fn lemma_index_of_unique(s: Seq<WidgetHandle>, w: WidgetHandle, i: int)
    requires
        s.no_duplicates(),
        0 <= i < s.len(),
        s[i] == w,
    ensures
        s.contains(w),
        s.index_of(w) == i,
{
    assert(s.contains(w));
    let j = s.index_of(w);
    assert(0 <= j < s.len() && s[j] == w);
}

} // verus!
