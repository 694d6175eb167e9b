use std::sync::atomic::{AtomicUsize, Ordering};
use std::sync::Arc;

use tray_item::api::Appearance;
use tray_item::menu::RenderedItem;
use tray_item::{TIError, TrayItem};

type Callback = Box<dyn Fn() + Send + Sync>;

fn counter() -> (Arc<AtomicUsize>, Callback) {
    let count = Arc::new(AtomicUsize::new(0));
    let seen = count.clone();
    let cb: Callback = Box::new(move || {
        seen.fetch_add(1, Ordering::SeqCst);
    });
    (count, cb)
}

fn item(text: &str, enabled: bool) -> RenderedItem {
    RenderedItem { text: text.to_string(), enabled }
}

#[test]
fn label_then_quit_item_scenario() {
    let mut tray: TrayItem<Callback> = TrayItem::new("App", "").unwrap();
    assert_eq!(tray.inner_mut().menu_len(), 0);
    tray.add_label("v1.0").unwrap();
    assert_eq!(tray.inner_mut().menu_items(), vec![item("v1.0", false)]);
    let (count, cb) = counter();
    tray.add_menu_item("Quit", cb).unwrap();
    assert_eq!(tray.inner_mut().menu_items(), vec![item("v1.0", false), item("Quit", true)]);
    assert!(tray.inner_mut().activate(1));
    assert_eq!(count.load(Ordering::SeqCst), 1);
}

#[test]
fn unresolvable_icon_falls_back_to_title() {
    let mut tray: TrayItem<Callback> = TrayItem::new("App", "no-such-icon").unwrap();
    assert_eq!(tray.inner_mut().icon(), "no-such-icon");
    assert_eq!(tray.inner_mut().appearance(false), Appearance::Title("App".to_string()));
}

#[test]
fn resolved_icon_is_shown() {
    let mut tray: TrayItem<Callback> = TrayItem::new("App", "app-icon").unwrap();
    assert_eq!(tray.inner_mut().appearance(true), Appearance::Icon("app-icon".to_string()));
}

#[test]
fn empty_icon_shows_title() {
    let mut tray: TrayItem<Callback> = TrayItem::new("App", "").unwrap();
    assert_eq!(tray.inner_mut().title(), "App");
    assert_eq!(tray.inner_mut().appearance(true), Appearance::Title("App".to_string()));
}

#[test]
fn set_icon_twice_equals_once() {
    let mut once: TrayItem<Callback> = TrayItem::new("App", "").unwrap();
    let mut twice: TrayItem<Callback> = TrayItem::new("App", "").unwrap();
    once.add_label("a").unwrap();
    twice.add_label("a").unwrap();
    once.set_icon("other").unwrap();
    twice.set_icon("other").unwrap();
    twice.set_icon("other").unwrap();
    assert_eq!(once.inner_mut().icon(), twice.inner_mut().icon());
    assert_eq!(once.inner_mut().appearance(true), twice.inner_mut().appearance(true));
    assert_eq!(once.inner_mut().menu_items(), twice.inner_mut().menu_items());
    assert_eq!(twice.inner_mut().appearance(true), Appearance::Icon("other".to_string()));
}

#[test]
fn set_icon_keeps_menu() {
    let mut tray: TrayItem<Callback> = TrayItem::new("App", "first").unwrap();
    let (count, cb) = counter();
    tray.add_menu_item("Go", cb).unwrap();
    tray.set_icon("second").unwrap();
    assert_eq!(tray.inner_mut().menu_items(), vec![item("Go", true)]);
    assert!(tray.inner_mut().activate(0));
    assert_eq!(count.load(Ordering::SeqCst), 1);
}

#[test]
fn entries_keep_call_order() {
    let mut tray: TrayItem<Callback> = TrayItem::new("App", "").unwrap();
    let (_, a) = counter();
    let (_, b) = counter();
    tray.add_menu_item("one", a).unwrap();
    tray.add_label("two").unwrap();
    tray.add_menu_item("three", b).unwrap();
    tray.add_label("four").unwrap();
    assert_eq!(
        tray.inner_mut().menu_items(),
        vec![item("one", true), item("two", false), item("three", true), item("four", false)]
    );
}

#[test]
fn each_activation_runs_callback_once() {
    let mut tray: TrayItem<Callback> = TrayItem::new("App", "").unwrap();
    let (first, a) = counter();
    let (second, b) = counter();
    tray.add_menu_item("a", a).unwrap();
    tray.add_menu_item("b", b).unwrap();
    assert!(tray.inner_mut().activate(0));
    assert_eq!(first.load(Ordering::SeqCst), 1);
    assert!(tray.inner_mut().activate(0));
    assert_eq!(first.load(Ordering::SeqCst), 2);
    assert_eq!(second.load(Ordering::SeqCst), 0);
}

#[test]
fn callback_survives_later_appends() {
    let mut tray: TrayItem<Callback> = TrayItem::new("App", "").unwrap();
    let (count, cb) = counter();
    tray.add_menu_item("early", cb).unwrap();
    for k in 0..5 {
        tray.add_label(&format!("label {}", k)).unwrap();
        let (_, other) = counter();
        tray.add_menu_item("later", other).unwrap();
    }
    assert_eq!(tray.inner_mut().menu_len(), 11);
    assert!(tray.inner_mut().activate(0));
    assert_eq!(count.load(Ordering::SeqCst), 1);
}

#[test]
fn label_and_missing_entry_run_nothing() {
    let mut tray: TrayItem<Callback> = TrayItem::new("App", "").unwrap();
    let (count, cb) = counter();
    tray.add_label("info").unwrap();
    tray.add_menu_item("act", cb).unwrap();
    assert!(!tray.inner_mut().activate(0));
    assert!(!tray.inner_mut().activate(2));
    assert!(!tray.inner_mut().activate(usize::MAX));
    assert_eq!(count.load(Ordering::SeqCst), 0);
}

#[test]
fn empty_menu_renders_nothing() {
    let mut tray: TrayItem<Callback> = TrayItem::new("", "").unwrap();
    assert_eq!(tray.inner_mut().menu_items(), Vec::<RenderedItem>::new());
    assert!(!tray.inner_mut().activate(0));
}

#[test]
fn error_keeps_its_message() {
    let e = TIError::new("menu failed");
    assert_eq!(e.message(), "menu failed");
}
