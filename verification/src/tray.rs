//! The tray's state machine: what a timer tick and a menu selection do.
//!
//! The host program owns the event loop. It hands each event to
//! [`Tray::step`] and performs the [`Action`] that comes back.

use vstd::prelude::*;
use crate::menu::{TrayMenu, build_menu, disk_entries, disk_entry, listed_count, menu_of, quit_id};
use crate::volume::{Volume, VolumeView, volume_views};

verus! {

/// Milliseconds between two timer ticks. The first tick is due at once.
pub const REFRESH_PERIOD_MS: u64 = 500;

/// What the event loop reports.
#[derive(Debug, Clone, PartialEq, Eq)]
pub enum Event {
    /// The refresh timer fired; the payload is the fresh enumeration.
    Tick(Vec<Volume>),
    /// The user picked the menu entry with this identifier.
    Selected(u64),
    /// Anything else.
    Other,
}

/// The mathematical content of an [`Event`].
pub enum EventView {
    Tick(Seq<VolumeView>),
    Selected(u64),
    Other,
}

impl View for Event {
    type V = EventView;

    open spec fn view(&self) -> EventView {
        match self {
            Event::Tick(volumes) => EventView::Tick(volume_views(volumes@)),
            Event::Selected(id) => EventView::Selected(*id),
            Event::Other => EventView::Other,
        }
    }
}

/// What the host program has to do after an event.
#[derive(Debug, Clone, PartialEq, Eq)]
pub enum Action {
    /// Show the tray's current menu in place of the previous one.
    Display,
    /// Unmount the volume mounted at this path.
    Unmount(Vec<u8>),
    /// Remove the tray icon and leave the event loop.
    Quit,
    /// Nothing.
    Nothing,
}

/// The mathematical content of an [`Action`].
pub enum ActionView {
    Display,
    Unmount(Seq<u8>),
    Quit,
    Nothing,
}

impl View for Action {
    type V = ActionView;

    open spec fn view(&self) -> ActionView {
        match self {
            Action::Display => ActionView::Display,
            Action::Unmount(path) => ActionView::Unmount(path@),
            Action::Quit => ActionView::Quit,
            Action::Nothing => ActionView::Nothing,
        }
    }
}

/// The tray between two events: the latest enumeration, the menu built from
/// it, and whether the loop is still running.
#[derive(Debug)]
pub struct Tray {
    volumes: Vec<Volume>,
    menu: TrayMenu,
    running: bool,
}

/// The mathematical content of a [`Tray`]. The menu is not part of it: it is
/// always `menu_of(volumes)`.
pub struct TrayView {
    pub volumes: Seq<VolumeView>,
    pub running: bool,
}

impl View for Tray {
    type V = TrayView;

    closed spec fn view(&self) -> TrayView {
        TrayView { volumes: volume_views(self.volumes@), running: self.running }
    }
}

/// What selecting the entry `id` asks for, given the enumeration the menu was
/// built from: Quit for the Quit entry; for the entry of a removable volume,
/// unmounting that volume's mount path; otherwise nothing.
pub open spec fn selection_action(volumes: Seq<VolumeView>, id: u64) -> ActionView {
    if id == quit_id(volumes) {
        ActionView::Quit
    } else if id < listed_count(volumes.len()) && volumes[id + 1].removable {
        ActionView::Unmount(volumes[id + 1].mount_path)
    } else {
        ActionView::Nothing
    }
}

/// The transition function: the state after an event, and the action the
/// event calls for. A stopped tray ignores every event.
pub open spec fn next(state: TrayView, event: EventView) -> (TrayView, ActionView) {
    if !state.running {
        (state, ActionView::Nothing)
    } else {
        match event {
            EventView::Tick(volumes) => (
                TrayView { volumes, running: true },
                ActionView::Display,
            ),
            EventView::Selected(id) => {
                let action = selection_action(state.volumes, id);
                (TrayView { volumes: state.volumes, running: !(action is Quit) }, action)
            },
            EventView::Other => (state, ActionView::Nothing),
        }
    }
}

impl Tray {
    #[verifier::type_invariant]
    spec fn consistent(&self) -> bool {
        self.menu@ == menu_of(volume_views(self.volumes@))
    }

    /// A running tray showing the menu of a first enumeration.
    pub fn new(volumes: Vec<Volume>) -> (tray: Tray)
        ensures
            tray@ == (TrayView { volumes: volume_views(volumes@), running: true }),
    {
        let menu = build_menu(&volumes);
        Tray { volumes, menu, running: true }
    }

    /// The menu to display.
    pub fn menu(&self) -> (menu: &TrayMenu)
        ensures
            menu@ == menu_of(self@.volumes),
    {
        proof {
            use_type_invariant(self);
        }
        &self.menu
    }

    /// The enumeration the current menu was built from.
    pub fn volumes(&self) -> (volumes: &Vec<Volume>)
        ensures
            volume_views(volumes@) == self@.volumes,
    {
        &self.volumes
    }

    /// Whether the loop has not been told to quit yet.
    pub fn is_running(&self) -> (running: bool)
        ensures
            running == self@.running,
    {
        self.running
    }

    /// Handles a timer tick: the enumeration and the menu are replaced as a
    /// whole.
    pub fn on_tick(&mut self, volumes: Vec<Volume>) -> (action: Action)
        ensures
            (final(self)@, action@) == next(old(self)@, EventView::Tick(volume_views(volumes@))),
    {
        if !self.running {
            return Action::Nothing;
        }
        let menu = build_menu(&volumes);
        *self = Tray { volumes, menu, running: true };
        Action::Display
    }

    /// Handles the selection of the entry `id`.
    pub fn on_selection(&mut self, id: u64) -> (action: Action)
        ensures
            (final(self)@, action@) == next(old(self)@, EventView::Selected(id)),
    {
        proof {
            use_type_invariant(&*self);
        }
        if !self.running {
            return Action::Nothing;
        }
        if id == self.menu.quit.id {
            self.running = false;
            return Action::Quit;
        }
        let ghost views = volume_views(self.volumes@);
        assert(self.menu@.entries.len() == disk_entries(views).len());
        let mut idx: usize = 0;
        while idx < self.menu.entries.len()
            invariant
                self.running,
                *self == *old(self),
                views == volume_views(self.volumes@),
                self.menu@ == menu_of(views),
                id != quit_id(views),
                idx <= self.menu.entries@.len(),
                self.menu.entries@.len() == listed_count(views.len()),
                views.len() == self.volumes@.len(),
                id < idx ==> !views[id + 1].removable,
            decreases self.menu.entries@.len() - idx,
        {
            assert(self.menu@.entries[idx as int] == disk_entry(views, idx as int));
            assert(views[idx + 1] == self.volumes@[idx + 1]@);
            if self.menu.entries[idx].id == id && self.volumes[idx + 1].removable {
                let path = copy_bytes(&self.volumes[idx + 1].mount_path);
                return Action::Unmount(path);
            }
            idx = idx + 1;
        }
        Action::Nothing
    }

    /// Handles one event of the loop.
    pub fn step(&mut self, event: Event) -> (action: Action)
        ensures
            (final(self)@, action@) == next(old(self)@, event@),
    {
        match event {
            Event::Tick(volumes) => self.on_tick(volumes),
            Event::Selected(id) => self.on_selection(id),
            Event::Other => Action::Nothing,
        }
    }
}

/// A copy of a byte string.
fn copy_bytes(bytes: &Vec<u8>) -> (copy: Vec<u8>)
    ensures
        copy@ == bytes@,
{
    let mut copy: Vec<u8> = Vec::new();
    let mut i: usize = 0;
    while i < bytes.len()
        invariant
            i <= bytes@.len(),
            copy@ == bytes@.take(i as int),
        decreases bytes@.len() - i,
    {
        copy.push(bytes[i]);
        assert(bytes@.take(i + 1) =~= bytes@.take(i as int).push(bytes@[i as int]));
        i = i + 1;
    }
    assert(bytes@.take(i as int) =~= bytes@);
    copy
}

} // verus!
