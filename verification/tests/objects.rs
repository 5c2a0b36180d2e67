use fixit::config::GameState;
use fixit::game_object::GameObject;
use fixit::geometry::{footprint_anchor, footprint_fits, Point, Size};
use fixit::keys::FixKey;
use fixit::object::FixableGameObject;
use fixit::pause::{GameOverCause, GameOverScreen};
use fixit::popup::KeyPopup;
use fixit::trigger::FixedSource;

fn lamp() -> FixableGameObject {
    FixableGameObject::new("/lamp", Point::new(1478, 384), FixKey::L)
}

fn state(lifetime: i32) -> GameState {
    GameState { broken_lifetime: lifetime }
}

#[test]
fn new_object_is_intact() {
    let object = lamp();
    assert!(!object.is_broken());
    assert!(!object.is_timed_out());
    assert_eq!(object.frames_since_broken(), None);
    assert!(object.key_object().is_none());
    assert_eq!(object.position(), Point::new(1478, 384));
    assert_eq!(object.size(), Size::zero());
    assert_eq!(object.fix_key(), FixKey::L);
    assert_eq!(object.texture(), "/lamp");
}

#[test]
fn mess_up_breaks_with_fresh_countdown() {
    let mut object = lamp();
    object.mess_up(&state(120));
    assert!(object.is_broken());
    assert_eq!(object.frames_since_broken(), Some(0));
    let popup = object.key_object().unwrap();
    assert_eq!(popup.frames_existed(), 0);
    assert_eq!(popup.lifetime(), 120);
    assert_eq!(popup.key(), FixKey::L);
    assert_eq!(popup.center(), Point::new(1478, 384));
    assert_eq!(popup.text(), "L");
}

#[test]
fn mess_up_on_broken_object_changes_nothing() {
    let mut object = lamp();
    let mut source = FixedSource::new(500);
    object.mess_up(&state(120));
    object.update(&state(120), &mut source);
    object.update(&state(120), &mut source);
    object.mess_up(&state(7));
    assert_eq!(object.frames_since_broken(), Some(2));
    let popup = object.key_object().unwrap();
    assert_eq!(popup.frames_existed(), 2);
    assert_eq!(popup.lifetime(), 120);
}

#[test]
fn countdown_hangs_below_the_middle_of_the_footprint() {
    let mut object = FixableGameObject::new("/milk", Point::new(10, 20), FixKey::M);
    assert!(object.set_size(Size::new(7, 5)));
    assert_eq!(object.size(), Size::new(7, 5));
    object.mess_up(&state(120));
    assert_eq!(object.key_object().unwrap().center(), Point::new(13, 25));
    assert_eq!(footprint_anchor(Point::new(-10, -20), Size::new(8, 6)), Point::new(-6, -14));
}

#[test]
fn footprint_that_leaves_the_scene_is_refused() {
    let mut object = FixableGameObject::new("/milk", Point::new(i32::MAX, 0), FixKey::M);
    assert!(!object.set_size(Size::new(2, 0)));
    assert_eq!(object.size(), Size::zero());
    assert!(object.set_size(Size::new(1, 0)));
    assert_eq!(object.size(), Size::new(1, 0));
    let mut low = FixableGameObject::new("/milk", Point::new(0, i32::MAX), FixKey::M);
    assert!(!low.set_size(Size::new(0, 1)));
    assert!(footprint_fits(Point::new(i32::MAX - 1, i32::MAX - 1), Size::new(3, 1)));
    assert!(!footprint_fits(Point::new(i32::MAX - 1, i32::MAX - 1), Size::new(4, 1)));
    assert!(!footprint_fits(Point::new(0, 0), Size::new(0, u32::MAX)));
}

#[test]
fn broken_object_counts_every_frame() {
    let mut object = lamp();
    let mut source = FixedSource::new(0);
    object.mess_up(&state(120));
    for n in 1..=50 {
        object.update(&state(120), &mut source);
        assert_eq!(object.frames_since_broken(), Some(n));
        assert_eq!(object.key_object().unwrap().frames_existed(), n);
    }
}

#[test]
fn timeout_boundary_is_strict() {
    let mut object = lamp();
    let mut source = FixedSource::new(0);
    object.mess_up(&state(3));
    for _ in 0..3 {
        object.update(&state(3), &mut source);
        assert!(!object.is_timed_out());
    }
    assert_eq!(object.key_object().unwrap().frames_existed(), 3);
    assert!(!object.key_object().unwrap().is_timed_out());
    object.update(&state(3), &mut source);
    assert_eq!(object.key_object().unwrap().frames_existed(), 4);
    assert!(object.is_timed_out());
    assert!(object.key_object().unwrap().is_timed_out());
}

#[test]
fn right_key_repairs_broken_object() {
    let mut object = lamp();
    object.mess_up(&state(120));
    assert!(object.on_key_pressed(&FixKey::L));
    assert!(!object.is_broken());
    assert_eq!(object.frames_since_broken(), None);
    assert!(object.key_object().is_none());
    assert_eq!(object.position(), Point::new(1478, 384));
    assert_eq!(object.fix_key(), FixKey::L);
}

#[test]
fn right_key_on_intact_object_is_ignored() {
    let mut object = lamp();
    assert!(!object.on_key_pressed(&FixKey::L));
    assert!(!object.is_broken());
}

#[test]
fn wrong_key_leaves_broken_object_as_it_is() {
    let mut object = lamp();
    let mut source = FixedSource::new(0);
    object.mess_up(&state(120));
    object.update(&state(120), &mut source);
    assert!(!object.on_key_pressed(&FixKey::M));
    assert!(object.is_broken());
    assert_eq!(object.frames_since_broken(), Some(1));
    assert_eq!(object.key_object().unwrap().frames_existed(), 1);
}

#[test]
fn released_key_changes_nothing() {
    let mut object = lamp();
    object.mess_up(&state(120));
    object.on_key_released(&FixKey::L);
    assert!(object.is_broken());
    assert_eq!(object.frames_since_broken(), Some(0));
}

#[test]
fn intact_object_breaks_when_sample_is_below_chance() {
    let mut below = lamp();
    below.update(&state(120), &mut FixedSource::new(119));
    assert!(below.is_broken());
    assert_eq!(below.frames_since_broken(), Some(0));
    assert_eq!(below.key_object().unwrap().lifetime(), 120);

    let mut at = lamp();
    at.update(&state(120), &mut FixedSource::new(120));
    assert!(!at.is_broken());

    let mut with = lamp();
    with.update_with(&state(120), 0);
    assert!(with.is_broken());
    with.update_with(&state(120), 99_999);
    assert_eq!(with.frames_since_broken(), Some(1));
    let mut without = lamp();
    without.update_with(&state(120), 99_999);
    assert!(!without.is_broken());
}

#[test]
fn texture_path_follows_the_state() {
    let mut object = lamp();
    assert_eq!(object.texture_path(), "/lamp.png");
    object.mess_up(&state(120));
    assert_eq!(object.texture_path(), "/lamp_broken.png");
    object.on_key_pressed(&FixKey::L);
    assert_eq!(object.texture_path(), "/lamp.png");
}

#[test]
fn popup_counts_and_reports_progress() {
    let mut popup = KeyPopup::new(Point::new(5, 6), FixKey::W, 120);
    assert_eq!(popup.progress_per_mille(), 0);
    for _ in 0..60 {
        popup.update(&state(120));
    }
    assert_eq!(popup.frames_existed(), 60);
    assert_eq!(popup.progress_per_mille(), 500);
    for _ in 0..61 {
        popup.update(&state(120));
    }
    assert_eq!(popup.frames_existed(), 121);
    assert_eq!(popup.progress_per_mille(), 1008);
    assert!(popup.is_timed_out());
    assert_eq!(popup.center(), Point::new(5, 6));
    assert_eq!(popup.text(), "W");
    assert_eq!(KeyPopup::texture(), "/key.png");
}

#[test]
fn popup_progress_rounds_down() {
    let mut popup = KeyPopup::new(Point::new(0, 0), FixKey::A, 7);
    popup.update(&state(7));
    assert_eq!(popup.progress_per_mille(), 142);
    popup.update(&state(7));
    assert_eq!(popup.progress_per_mille(), 285);
}

#[test]
fn key_names() {
    assert_eq!(FixKey::W.name(), "W");
    assert_eq!(FixKey::Key1.name(), "Key1");
    assert_eq!(FixKey::Key0.name(), "Key0");
    assert_eq!(FixKey::Escape.name(), "Escape");
    assert_eq!(FixKey::Return.name(), "Return");
    assert_eq!(FixKey::Other(77).name(), "Other");
    assert_eq!(FixKey::Other(3), FixKey::Other(3));
    assert_ne!(FixKey::Other(3), FixKey::Other(4));
    assert_ne!(FixKey::D, FixKey::R);
}

#[test]
fn game_over_screen_text() {
    let wrong = GameOverScreen::new(GameOverCause::WrongKey(FixKey::Q));
    assert_eq!(wrong.title(), "Game Over");
    assert_eq!(wrong.description(), "You pressed Q when nothing needed it.");
    assert_eq!(wrong.cause(), GameOverCause::WrongKey(FixKey::Q));
    let late = GameOverScreen::new(GameOverCause::NotInTime(FixKey::Key7));
    assert_eq!(late.description(), "You waited too long to press Key7.");
}

#[test]
fn game_object_dispatches_by_kind() {
    let mut source = FixedSource::new(0);
    let mut fixable = GameObject::Fixable(lamp());
    fixable.update(&state(120), &mut source);
    assert!(matches!(fixable, GameObject::Fixable(object) if object.is_broken()));
    assert!(!fixable.on_key_pressed(&FixKey::M));
    assert!(fixable.on_key_pressed(&FixKey::L));
    assert!(matches!(fixable, GameObject::Fixable(object) if !object.is_broken()));

    let mut popup = GameObject::Popup(KeyPopup::new(Point::new(1, 2), FixKey::L, 120));
    popup.update(&state(120), &mut source);
    assert!(matches!(popup, GameObject::Popup(inner) if inner.frames_existed() == 1));
    assert!(!popup.on_key_pressed(&FixKey::L));
    popup.on_key_released(&FixKey::L);
    assert!(matches!(popup, GameObject::Popup(inner) if inner.frames_existed() == 1));

    let mut overlay = GameObject::Overlay(GameOverScreen::new(GameOverCause::WrongKey(FixKey::L)));
    overlay.update(&state(120), &mut source);
    assert!(!overlay.on_key_pressed(&FixKey::L));
    assert!(matches!(overlay, GameObject::Overlay(screen)
        if screen.cause() == GameOverCause::WrongKey(FixKey::L)));
}
