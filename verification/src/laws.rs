//! What holds of every menu and of every run of the tray.
//!
//! Identifiers are positions held in 64 bits, so the statements about
//! identifiers speak of enumerations of at most `u64::MAX` volumes: every one
//! that a `Vec` can hold.

use vstd::prelude::*;
use crate::menu::{
    TrayMenuView, disk_entries, listed_count, menu_of, quit_id, volume_label_text,
};
use crate::tray::{ActionView, EventView, TrayView, next};
use crate::volume::VolumeView;

verus! {

/// The labels of a menu from top to bottom, the Quit entry last.
pub open spec fn menu_labels(menu: TrayMenuView) -> Seq<Seq<char>> {
    Seq::new(menu.entries.len(), |i: int| menu.entries[i].label).push(menu.quit.label)
}

/// The menu of `n >= 1` volumes has `n - 1` entries for volumes, the one at
/// position `i` labelled after the volume at position `i + 1`, and then the
/// Quit entry.
pub proof fn menu_lists_all_but_first(volumes: Seq<VolumeView>)
    requires
        volumes.len() >= 1,
    ensures
        menu_of(volumes).entries.len() == volumes.len() - 1,
        forall|i: int|
            0 <= i < volumes.len() - 1 ==> (#[trigger] menu_of(volumes).entries[i]).label
                == volume_label_text(volumes[i + 1]),
        menu_of(volumes).quit.label == "Quit"@,
        menu_labels(menu_of(volumes)).len() == volumes.len(),
        menu_labels(menu_of(volumes)).last() == "Quit"@,
{
}

/// No two entries of a menu share an identifier, the Quit entry included.
pub proof fn identifiers_are_distinct(volumes: Seq<VolumeView>, i: int, j: int)
    requires
        volumes.len() <= u64::MAX,
        0 <= i < j < listed_count(volumes.len()),
    ensures
        menu_of(volumes).entries[i].id != menu_of(volumes).entries[j].id,
        menu_of(volumes).entries[i].id != menu_of(volumes).quit.id,
        menu_of(volumes).entries[j].id != menu_of(volumes).quit.id,
{
}

/// Selecting the Quit entry stops the tray and asks for Quit, not for an
/// unmount; a stopped tray asks for nothing, whatever the event.
pub proof fn quit_stops_without_unmount(state: TrayView, later: EventView)
    requires
        state.running,
    ensures
        next(state, EventView::Selected(menu_of(state.volumes).quit.id)) == (
            TrayView { volumes: state.volumes, running: false },
            ActionView::Quit,
        ),
        next(TrayView { volumes: state.volumes, running: false }, later) == (
            TrayView { volumes: state.volumes, running: false },
            ActionView::Nothing,
        ),
{
}

/// Selecting the entry of a volume that is not removable asks for nothing
/// and changes nothing.
pub proof fn fixed_volume_is_left_alone(state: TrayView, i: int)
    requires
        state.running,
        state.volumes.len() <= u64::MAX,
        0 <= i < listed_count(state.volumes.len()),
        !state.volumes[i + 1].removable,
    ensures
        next(state, EventView::Selected(menu_of(state.volumes).entries[i].id)) == (
            state,
            ActionView::Nothing,
        ),
{
}

/// Selecting the entry of a removable volume asks for the unmount of exactly
/// that volume's mount path, and the tray goes on running.
pub proof fn removable_volume_is_unmounted(state: TrayView, i: int)
    requires
        state.running,
        state.volumes.len() <= u64::MAX,
        0 <= i < listed_count(state.volumes.len()),
        state.volumes[i + 1].removable,
    ensures
        next(state, EventView::Selected(menu_of(state.volumes).entries[i].id)) == (
            state,
            ActionView::Unmount(state.volumes[i + 1].mount_path),
        ),
{
}

/// An unmount is only ever asked for a removable volume of the current
/// enumeration other than the first, and for its mount path.
pub proof fn unmount_names_a_listed_removable_volume(
    state: TrayView,
    event: EventView,
    path: Seq<u8>,
)
    requires
        next(state, event).1 == ActionView::Unmount(path),
    ensures
        state.running,
        exists|k: int|
            1 <= k < state.volumes.len() && event == EventView::Selected((k - 1) as u64)
                && (#[trigger] state.volumes[k]).removable && state.volumes[k].mount_path == path,
{
    match event {
        EventView::Selected(id) => {
            assert(state.volumes[id + 1].removable);
        },
        _ => {},
    }
}

/// The labels depend on nothing but the names and the two capacities: two
/// enumerations that agree on them give the same labels.
pub proof fn labels_follow_names_and_capacities(first: Seq<VolumeView>, second: Seq<VolumeView>)
    requires
        first.len() == second.len(),
        forall|k: int|
            0 <= k < first.len() ==> (#[trigger] first[k]).name == second[k].name
                && first[k].available == second[k].available && first[k].total
                == second[k].total,
    ensures
        menu_labels(menu_of(first)) == menu_labels(menu_of(second)),
{
    assert forall|i: int| 0 <= i < listed_count(first.len()) implies disk_entries(first)[i].label
        == disk_entries(second)[i].label by {
        assert(first[i + 1].name == second[i + 1].name);
    }
    assert(menu_labels(menu_of(first)) =~= menu_labels(menu_of(second)));
}

/// Two ticks in a row with the same enumeration leave the tray, and so its
/// menu, as one tick does.
pub proof fn repeated_tick_changes_nothing(state: TrayView, volumes: Seq<VolumeView>)
    ensures
        next(next(state, EventView::Tick(volumes)).0, EventView::Tick(volumes)).0 == next(
            state,
            EventView::Tick(volumes),
        ).0,
        menu_of(next(next(state, EventView::Tick(volumes)).0, EventView::Tick(volumes)).0.volumes)
            == menu_of(next(state, EventView::Tick(volumes)).0.volumes),
{
}

} // verus!
