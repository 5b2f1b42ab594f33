use libra::app::update;
use libra::keybinds::{bound_key, KeyAction, KeyBinding, KeyName, KeyPress, TermEvent};
use libra::oauth::oauth_setup;
use libra::types::AccessToken;
use libra::user_config::{client_id_from_line, load_user_config, ConfigLoad, UserConfig};
use libra::utils::generate_abs_path;

#[test]
fn abs_path_appends_the_name() {
    assert_eq!(generate_abs_path("/home/u", "/.config/riff.json"), "/home/u/.config/riff.json");
    assert_eq!(generate_abs_path("", ""), "");
}

#[test]
fn new_config_has_the_defaults() {
    let uc = UserConfig::new("abc\n".to_string());
    assert_eq!(uc.get_client_id(), "abc\n");
    assert_eq!(uc.get_redirect_uri(), "http://localhost:8888/riff");
    assert_eq!(uc.get_port(), 8080);
    assert_eq!(uc.get_token_cache_path(), None);
    assert_eq!(uc.keybinds, None);
}

#[test]
fn entered_line_loses_its_ending() {
    assert_eq!(client_id_from_line("abc\n"), "abc");
    assert_eq!(client_id_from_line("abc\r\n"), "abc");
    assert_eq!(client_id_from_line("abc"), "abc");
    assert_eq!(client_id_from_line("a\nb"), "a\nb");
    assert_eq!(client_id_from_line("\n"), "");
    assert_eq!(client_id_from_line(""), "");
}

#[test]
fn cache_path_is_returned() {
    let mut uc = UserConfig::new("x".to_string());
    uc.token_cache_path = Some("/.cache/t.json".to_string());
    assert_eq!(uc.get_token_cache_path().as_deref(), Some("/.cache/t.json"));
}

#[test]
fn parsed_config_is_used() {
    match load_user_config(Some(UserConfig::new("id".to_string()))) {
        ConfigLoad::Loaded(uc) => assert_eq!(uc.client_id, "id"),
        other => panic!("unexpected {:?}", other),
    }
    assert!(matches!(load_user_config(None), ConfigLoad::Setup));
}

#[test]
fn token_display_ends_the_line() {
    let t = AccessToken {
        access_token: "BQAq".to_string(),
        token_type: "Bearer".to_string(),
        expires_in: -5,
    };
    assert_eq!(t.to_display_string(), "BQAq Bearer -5\n");
}

fn key(code: KeyName, modifiers: u8, kind: KeyAction) -> TermEvent {
    TermEvent::Key(KeyPress { code, modifiers, kind, state: 0 })
}

#[test]
fn plain_presses_are_bound() {
    assert_eq!(bound_key(&key(KeyName::Char('w'), 0, KeyAction::Press)), Some(KeyBinding::W));
    assert_eq!(bound_key(&key(KeyName::Char('a'), 0, KeyAction::Press)), Some(KeyBinding::A));
    assert_eq!(bound_key(&key(KeyName::Char('s'), 0, KeyAction::Press)), Some(KeyBinding::S));
    assert_eq!(bound_key(&key(KeyName::Char('d'), 0, KeyAction::Press)), Some(KeyBinding::D));
    assert_eq!(bound_key(&key(KeyName::Esc, 0, KeyAction::Press)), Some(KeyBinding::Esc));
}

#[test]
fn other_events_are_not_bound() {
    assert_eq!(bound_key(&key(KeyName::Char('W'), 0, KeyAction::Press)), None);
    assert_eq!(bound_key(&key(KeyName::Char('w'), 1, KeyAction::Press)), None);
    assert_eq!(bound_key(&key(KeyName::Char('w'), 0, KeyAction::Release)), None);
    assert_eq!(bound_key(&key(KeyName::Char('q'), 0, KeyAction::Press)), None);
    assert_eq!(bound_key(&key(KeyName::Other, 0, KeyAction::Press)), None);
    let with_state = TermEvent::Key(KeyPress {
        code: KeyName::Esc,
        modifiers: 0,
        kind: KeyAction::Press,
        state: 8,
    });
    assert_eq!(bound_key(&with_state), None);
    assert_eq!(bound_key(&TermEvent::Other), None);
}

#[test]
fn oauth_asks_for_every_scope() {
    let uc = UserConfig::new("id".to_string());
    let o = oauth_setup(&uc);
    assert_eq!(o.redirect_uri, "http://localhost:8888/riff");
    assert_eq!(o.scopes.len(), 17);
    assert_eq!(o.scopes[0], "user-read-email");
    assert_eq!(o.scopes[16], "ugc-image-upload");
    let set: std::collections::HashSet<&String> = o.scopes.iter().collect();
    assert_eq!(set.len(), 17);
}

#[test]
fn update_does_nothing() {
    update();
}
