use fixit::config::{ConfigError, GameState, KeyPolicy};
use fixit::game_object::GameObject;
use fixit::geometry::{Point, Size};
use fixit::keys::FixKey;
use fixit::object::FixableGameObject;
use fixit::pause::{GameOverCause, GameOverScreen};
use fixit::screen::{create_objects, Window, WindowAction};
use fixit::trigger::{FixedSource, ThreadRandom};

fn window_of(lifetime: i32, keys: &[FixKey]) -> Window {
    let mut components = Vec::new();
    for (index, key) in keys.iter().enumerate() {
        components.push(FixableGameObject::new("/thing", Point::new(index as i32, 0), *key));
    }
    Window::new(GameState { broken_lifetime: lifetime }, KeyPolicy::Distinct, components).unwrap()
}

fn frames(window: &Window) -> Vec<Option<i32>> {
    let session = window.session();
    (0..session.len()).map(|i| session.component(i).unwrap().frames_since_broken()).collect()
}

#[test]
fn standard_layout() {
    let objects = create_objects();
    let expected = [
        ("/window", 1165, 51, FixKey::W),
        ("/milk", 1220, 384, FixKey::M),
        ("/rug", 1343, 935, FixKey::R),
        ("/lamp", 1478, 384, FixKey::L),
        ("/drawer", 1188, 767, FixKey::D),
        ("/drawer", 1188, 645, FixKey::D),
        ("/drawer", 1188, 525, FixKey::D),
    ];
    assert_eq!(objects.len(), 7);
    for (object, (texture, x, y, key)) in objects.iter().zip(expected) {
        assert_eq!(object.texture(), texture);
        assert_eq!(object.position(), Point::new(x, y));
        assert_eq!(object.fix_key(), key);
        assert_eq!(object.size(), Size::zero());
        assert!(!object.is_broken());
    }
}

#[test]
fn standard_layout_needs_shared_keys() {
    let shared = Window::new(GameState::standard(), KeyPolicy::Shared, create_objects().to_vec());
    let window = shared.unwrap();
    assert_eq!(window.session().len(), 7);
    assert!(!window.is_paused());
    let distinct =
        Window::new(GameState::standard(), KeyPolicy::Distinct, create_objects().to_vec());
    assert_eq!(distinct.unwrap_err(), ConfigError::DuplicateKey(FixKey::D));
}

#[test]
fn window_reports_the_first_fault() {
    let mut broken = FixableGameObject::new("/milk", Point::new(0, 0), FixKey::M);
    broken.mess_up(&GameState::standard());
    let intact = FixableGameObject::new("/milk", Point::new(0, 0), FixKey::M);
    let made = Window::new(
        GameState { broken_lifetime: 0 },
        KeyPolicy::Distinct,
        vec![broken, intact, intact],
    );
    assert_eq!(made.unwrap_err(), ConfigError::NonPositiveLifetime);
    let made = Window::new(GameState::standard(), KeyPolicy::Distinct, vec![intact, broken, intact]);
    assert_eq!(made.unwrap_err(), ConfigError::BrokenAtStart);
    let made = Window::new(GameState::standard(), KeyPolicy::Distinct, vec![intact, intact, broken]);
    assert_eq!(made.unwrap_err(), ConfigError::DuplicateKey(FixKey::M));
    let made = Window::new(GameState::standard(), KeyPolicy::Shared, vec![intact, intact, broken]);
    assert_eq!(made.unwrap_err(), ConfigError::BrokenAtStart);
    let made = Window::new(GameState { broken_lifetime: 100_000 }, KeyPolicy::Shared, vec![]);
    assert_eq!(made.unwrap_err(), ConfigError::ChanceOutOfRange);
}

#[test]
fn add_component_appends_or_refuses() {
    let mut window = window_of(120, &[FixKey::A]);
    assert_eq!(
        window.add_component(FixableGameObject::new("/b", Point::new(1, 1), FixKey::B)),
        Ok(())
    );
    assert_eq!(window.session().len(), 2);
    assert_eq!(window.session().component(1).unwrap().fix_key(), FixKey::B);
    assert_eq!(
        window.add_component(FixableGameObject::new("/a", Point::new(2, 2), FixKey::A)),
        Err(ConfigError::DuplicateKey(FixKey::A))
    );
    assert_eq!(window.session().len(), 2);
}

#[test]
fn timeout_ends_the_run() {
    let mut window = window_of(120, &[FixKey::L]);
    let mut source = FixedSource::new(0);
    window.update(&mut source);
    for _ in 1..=120 {
        window.update(&mut source);
        assert!(!window.is_paused());
    }
    assert_eq!(frames(&window), vec![Some(120)]);
    window.update(&mut source);
    assert!(window.is_paused());
    assert_eq!(window.menu().unwrap().cause(), GameOverCause::NotInTime(FixKey::L));
    assert_eq!(frames(&window), vec![Some(121)]);
}

#[test]
fn wrong_key_ends_the_run() {
    let mut window = window_of(120, &[FixKey::K]);
    window.update(&mut FixedSource::new(0));
    assert_eq!(window.key_down_event(Some(FixKey::J)), WindowAction::Continue);
    assert!(window.is_paused());
    assert_eq!(window.menu().unwrap().cause(), GameOverCause::WrongKey(FixKey::J));
    assert_eq!(frames(&window), vec![Some(0)]);
}

#[test]
fn right_key_keeps_the_run_going() {
    let mut window = window_of(120, &[FixKey::K, FixKey::J]);
    window.update(&mut FixedSource::new(0));
    assert_eq!(window.key_down_event(Some(FixKey::K)), WindowAction::Continue);
    assert!(!window.is_paused());
    assert!(window.menu().is_none());
    assert_eq!(frames(&window), vec![None, Some(0)]);
}

#[test]
fn key_while_nothing_is_broken_keeps_the_run_going() {
    let mut window = window_of(120, &[FixKey::K]);
    assert_eq!(window.key_down_event(Some(FixKey::Q)), WindowAction::Continue);
    assert_eq!(window.key_down_event(Some(FixKey::K)), WindowAction::Continue);
    assert_eq!(window.key_down_event(None), WindowAction::Continue);
    assert!(!window.is_paused());
}

#[test]
fn escape_asks_to_quit_and_changes_nothing() {
    let mut window = window_of(120, &[FixKey::K]);
    window.update(&mut FixedSource::new(0));
    assert_eq!(window.key_down_event(Some(FixKey::Escape)), WindowAction::Quit);
    assert!(!window.is_paused());
    assert_eq!(frames(&window), vec![Some(0)]);
    window.key_down_event(Some(FixKey::J));
    assert!(window.is_paused());
    assert_eq!(window.key_down_event(Some(FixKey::Escape)), WindowAction::Quit);
    assert_eq!(window.menu().unwrap().cause(), GameOverCause::WrongKey(FixKey::J));
}

#[test]
fn paused_window_is_frozen() {
    let mut window = window_of(120, &[FixKey::K, FixKey::J]);
    window.update(&mut FixedSource::new(0));
    window.update(&mut FixedSource::new(0));
    assert_eq!(window.key_down_event(Some(FixKey::K)), WindowAction::Continue);
    assert_eq!(window.key_down_event(Some(FixKey::Z)), WindowAction::Continue);
    assert!(window.is_paused());
    let before = frames(&window);
    assert_eq!(before, vec![None, Some(1)]);
    for _ in 0..300 {
        window.update(&mut FixedSource::new(0));
        window.update(&mut ThreadRandom);
    }
    assert_eq!(frames(&window), before);
    assert_eq!(window.key_down_event(Some(FixKey::J)), WindowAction::Continue);
    assert_eq!(window.key_down_event(Some(FixKey::Q)), WindowAction::Continue);
    window.key_up_event(Some(FixKey::J));
    assert_eq!(frames(&window), before);
    assert_eq!(window.menu().unwrap().cause(), GameOverCause::WrongKey(FixKey::Z));
}

#[test]
fn pause_puts_the_screen_over_the_run() {
    let mut window = window_of(120, &[FixKey::K]);
    assert!(!window.is_paused());
    window.pause(GameOverScreen::new(GameOverCause::NotInTime(FixKey::K)));
    assert!(window.is_paused());
    assert_eq!(window.menu().unwrap().cause(), GameOverCause::NotInTime(FixKey::K));
    window.pause(GameOverScreen::new(GameOverCause::WrongKey(FixKey::A)));
    assert_eq!(window.menu().unwrap().cause(), GameOverCause::WrongKey(FixKey::A));
}

#[test]
fn key_up_changes_nothing() {
    let mut window = window_of(120, &[FixKey::K]);
    window.update(&mut FixedSource::new(0));
    window.key_up_event(Some(FixKey::K));
    window.key_up_event(None);
    assert!(!window.is_paused());
    assert_eq!(frames(&window), vec![Some(0)]);
}

#[test]
fn scene_lists_objects_then_countdowns() {
    let mut window = window_of(120, &[FixKey::A, FixKey::B, FixKey::C]);
    window.update(&mut FixedSource::new(0));
    assert_eq!(window.key_down_event(Some(FixKey::B)), WindowAction::Continue);
    let scene = window.draw();
    assert_eq!(scene.len(), 5);
    let keys = [FixKey::A, FixKey::B, FixKey::C];
    for index in 0..3 {
        match scene[index] {
            GameObject::Fixable(object) => {
                assert_eq!(object.fix_key(), keys[index]);
                assert_eq!(object.is_broken(), index != 1);
            }
            _ => panic!("an object of the room comes first"),
        }
    }
    match (scene[3], scene[4]) {
        (GameObject::Popup(first), GameObject::Popup(second)) => {
            assert_eq!(first.key(), FixKey::A);
            assert_eq!(second.key(), FixKey::C);
            assert_eq!(first.center(), Point::new(0, 0));
            assert_eq!(second.center(), Point::new(2, 0));
        }
        _ => panic!("the countdowns come last"),
    }
}

#[test]
fn scene_of_an_intact_room_has_no_countdown() {
    let window = window_of(120, &[FixKey::A, FixKey::B]);
    let scene = window.draw();
    assert_eq!(scene.len(), 2);
    assert!(scene.iter().all(|thing| matches!(thing, GameObject::Fixable(_))));
    assert_eq!(window_of(120, &[]).draw().len(), 0);
}

#[test]
fn scene_of_an_ended_run_is_the_closing_screen() {
    let mut window = window_of(120, &[FixKey::A, FixKey::B]);
    window.update(&mut FixedSource::new(0));
    window.key_down_event(Some(FixKey::Q));
    let scene = window.draw();
    assert_eq!(scene.len(), 1);
    match scene[0] {
        GameObject::Overlay(screen) => {
            assert_eq!(screen.cause(), GameOverCause::WrongKey(FixKey::Q));
            assert_eq!(screen.description(), "You pressed Q when nothing needed it.");
        }
        _ => panic!("the closing screen is drawn alone"),
    }
}
