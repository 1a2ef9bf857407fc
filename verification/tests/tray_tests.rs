use tray_mounter::menu::build_menu;
use tray_mounter::tray::{Action, Event, Tray};
use tray_mounter::volume::Volume;

fn disk(name: &str, path: &str, removable: bool) -> Volume {
    Volume::new(name.to_string(), 1_048_576, 4_194_304, path.as_bytes().to_vec(), removable)
}

fn disks() -> Vec<Volume> {
    vec![
        disk("Macintosh HD", "/", true),
        disk("Internal", "/Volumes/Internal", false),
        disk("USB", "/Volumes/USB", true),
    ]
}

#[test]
fn new_tray_runs_and_shows_the_menu_of_its_volumes() {
    let tray = Tray::new(disks());
    assert!(tray.is_running());
    assert_eq!(tray.volumes(), &disks());
    assert_eq!(tray.menu(), &build_menu(&disks()));
    assert_eq!(tray.menu().entries.len(), 2);
}

#[test]
fn quit_stops_the_tray_without_unmount() {
    let mut tray = Tray::new(disks());
    let quit = tray.menu().quit.id;
    assert_eq!(tray.step(Event::Selected(quit)), Action::Quit);
    assert!(!tray.is_running());
}

#[test]
fn stopped_tray_ignores_every_event() {
    let mut tray = Tray::new(disks());
    let quit = tray.menu().quit.id;
    let usb = tray.menu().entries[1].id;
    tray.step(Event::Selected(quit));
    assert_eq!(tray.step(Event::Selected(usb)), Action::Nothing);
    assert_eq!(tray.step(Event::Tick(Vec::new())), Action::Nothing);
    assert_eq!(tray.step(Event::Selected(quit)), Action::Nothing);
    assert_eq!(tray.volumes(), &disks());
    assert!(!tray.is_running());
}

#[test]
fn fixed_volume_is_not_unmounted() {
    let mut tray = Tray::new(disks());
    let internal = tray.menu().entries[0].id;
    assert_eq!(tray.step(Event::Selected(internal)), Action::Nothing);
    assert!(tray.is_running());
}

#[test]
fn removable_volume_is_unmounted_by_its_mount_path() {
    let mut tray = Tray::new(disks());
    let usb = tray.menu().entries[1].id;
    assert_eq!(tray.step(Event::Selected(usb)), Action::Unmount(b"/Volumes/USB".to_vec()));
    assert!(tray.is_running());
    assert_eq!(tray.volumes(), &disks());
}

#[test]
fn first_volume_is_never_offered() {
    let mut tray = Tray::new(disks());
    for id in 0..10u64 {
        let action = tray.on_selection(id);
        assert_ne!(action, Action::Unmount(b"/".to_vec()));
    }
}

#[test]
fn unknown_identifier_does_nothing() {
    let mut tray = Tray::new(disks());
    assert_eq!(tray.step(Event::Selected(3)), Action::Nothing);
    assert_eq!(tray.step(Event::Selected(u64::MAX)), Action::Nothing);
    assert!(tray.is_running());
}

#[test]
fn other_events_do_nothing() {
    let mut tray = Tray::new(disks());
    assert_eq!(tray.step(Event::Other), Action::Nothing);
    assert!(tray.is_running());
    assert_eq!(tray.menu(), &build_menu(&disks()));
}

#[test]
fn tick_replaces_volumes_and_menu() {
    let mut tray = Tray::new(disks());
    let fresh = vec![disk("Macintosh HD", "/", false), disk("Card", "/Volumes/Card", true)];
    assert_eq!(tray.step(Event::Tick(fresh.clone())), Action::Display);
    assert_eq!(tray.volumes(), &fresh);
    assert_eq!(tray.menu().entries.len(), 1);
    assert_eq!(tray.menu().entries[0].label, "Card: 1024.00 KiB/4.00 MiB");
    assert_eq!(tray.step(Event::Selected(0)), Action::Unmount(b"/Volumes/Card".to_vec()));
    assert_eq!(tray.step(Event::Selected(1)), Action::Quit);
}

#[test]
fn two_ticks_with_the_same_volumes_give_identical_labels() {
    let mut tray = Tray::new(Vec::new());
    assert_eq!(tray.on_tick(disks()), Action::Display);
    let first: Vec<Vec<u8>> =
        tray.menu().entries.iter().map(|entry| entry.label.as_bytes().to_vec()).collect();
    let first_quit = tray.menu().quit.label.as_bytes().to_vec();
    assert_eq!(tray.on_tick(disks()), Action::Display);
    let second: Vec<Vec<u8>> =
        tray.menu().entries.iter().map(|entry| entry.label.as_bytes().to_vec()).collect();
    assert_eq!(first, second);
    assert_eq!(first_quit, tray.menu().quit.label.as_bytes().to_vec());
    assert_eq!(first.len(), 2);
}

#[test]
fn tray_without_volumes_offers_quit_only() {
    let mut tray = Tray::new(Vec::new());
    assert!(tray.menu().entries.is_empty());
    assert_eq!(tray.step(Event::Selected(1)), Action::Nothing);
    assert_eq!(tray.step(Event::Selected(0)), Action::Quit);
}
