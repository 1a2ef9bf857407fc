//! From an enumeration of volumes to the entries of the tray menu.

use vstd::prelude::*;
use crate::units::{capacity_text, render_capacity};
use crate::volume::{Volume, VolumeView, volume_views};

verus! {

/// One selectable line of the menu: what it shows, and the identifier by
/// which a later selection names it.
#[derive(Debug, Clone, PartialEq, Eq)]
pub struct MenuEntry {
    pub label: String,
    pub id: u64,
}

/// The mathematical content of a [`MenuEntry`].
pub struct MenuEntryView {
    pub label: Seq<char>,
    pub id: u64,
}

impl View for MenuEntry {
    type V = MenuEntryView;

    open spec fn view(&self) -> MenuEntryView {
        MenuEntryView { label: self.label@, id: self.id }
    }
}

/// The whole menu: one entry per listed volume, in enumeration order, and the
/// closing Quit entry.
#[derive(Debug, Clone, PartialEq, Eq)]
pub struct TrayMenu {
    pub entries: Vec<MenuEntry>,
    pub quit: MenuEntry,
}

/// The mathematical content of a [`TrayMenu`].
pub struct TrayMenuView {
    pub entries: Seq<MenuEntryView>,
    pub quit: MenuEntryView,
}

impl View for TrayMenu {
    type V = TrayMenuView;

    open spec fn view(&self) -> TrayMenuView {
        TrayMenuView {
            entries: Seq::new(self.entries@.len(), |i: int| self.entries@[i]@),
            quit: self.quit@,
        }
    }
}

/// `"<name>: <available>/<total>"`.
pub open spec fn label_text(
    name: Seq<char>,
    available: Seq<char>,
    total: Seq<char>,
) -> Seq<char> {
    name + ": "@ + available + "/"@ + total
}

/// The label of a volume: its name, then free and total space in
/// human-readable binary units.
pub open spec fn volume_label_text(volume: VolumeView) -> Seq<char> {
    label_text(volume.name, capacity_text(volume.available), capacity_text(volume.total))
}

/// How many volumes of an enumeration of `n` are listed: all but the first,
/// which is taken to be the system volume.
pub open spec fn listed_count(n: nat) -> nat {
    if n == 0 {
        0
    } else {
        (n - 1) as nat
    }
}

/// The entry at position `i` of the menu: it shows the volume at position
/// `i + 1` and is identified by `i`.
pub open spec fn disk_entry(volumes: Seq<VolumeView>, i: int) -> MenuEntryView {
    MenuEntryView { label: volume_label_text(volumes[i + 1]), id: i as u64 }
}

/// The entries that stand for volumes.
pub open spec fn disk_entries(volumes: Seq<VolumeView>) -> Seq<MenuEntryView> {
    Seq::new(listed_count(volumes.len()), |i: int| disk_entry(volumes, i))
}

/// The identifier of the Quit entry: the first one that no volume uses.
pub open spec fn quit_id(volumes: Seq<VolumeView>) -> u64 {
    listed_count(volumes.len()) as u64
}

/// The menu shown for an enumeration.
pub open spec fn menu_of(volumes: Seq<VolumeView>) -> TrayMenuView {
    TrayMenuView {
        entries: disk_entries(volumes),
        quit: MenuEntryView { label: "Quit"@, id: quit_id(volumes) },
    }
}

/// Joins the three parts of a label.
pub fn compose_label(name: &str, available: &str, total: &str) -> (label: String)
    ensures
        label@ == label_text(name@, available@, total@),
{
    let mut label = name.to_owned();
    label.append(": ");
    label.append(available);
    label.append("/");
    label.append(total);
    label
}

/// The label under which a volume is listed.
pub fn volume_label(volume: &Volume) -> (label: String)
    ensures
        label@ == volume_label_text(volume@),
{
    let available = render_capacity(volume.available);
    let total = render_capacity(volume.total);
    compose_label(volume.name.as_str(), available.as_str(), total.as_str())
}

/// Builds the menu for an enumeration: the first volume is skipped, every
/// other one gets an entry in order, and a Quit entry closes the menu.
pub fn build_menu(volumes: &Vec<Volume>) -> (menu: TrayMenu)
    ensures
        menu@ == menu_of(volume_views(volumes@)),
        menu.entries@.len() == listed_count(volumes@.len()),
        volumes@.len() >= 1 ==> menu.entries@.len() == volumes@.len() - 1,
        forall|i: int|
            0 <= i < menu.entries@.len() ==> (#[trigger] menu.entries@[i]).label@
                == volume_label_text(volumes@[i + 1]@) && menu.entries@[i].id == i,
        menu.quit.label@ == "Quit"@,
        menu.quit.id == menu.entries@.len(),
{
    let ghost views = volume_views(volumes@);
    let mut entries: Vec<MenuEntry> = Vec::new();
    let mut idx: usize = 1;
    while idx < volumes.len()
        invariant
            1 <= idx,
            idx <= volumes@.len() || (volumes@.len() == 0 && idx == 1),
            views == volume_views(volumes@),
            entries@.len() == idx - 1,
            forall|i: int| 0 <= i < entries@.len() ==> (#[trigger] entries@[i])@ == disk_entry(views, i),
        decreases volumes@.len() - idx,
    {
        let label = volume_label(&volumes[idx]);
        let id: u64 = (idx - 1) as u64;
        entries.push(MenuEntry { label, id });
        idx = idx + 1;
    }
    let quit = MenuEntry { label: "Quit".to_owned(), id: entries.len() as u64 };
    let menu = TrayMenu { entries, quit };
    proof {
        assert(menu@.entries =~= disk_entries(views));
    }
    menu
}

} // verus!
