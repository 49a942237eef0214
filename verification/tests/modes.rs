use text_output::delivery::Action;
use text_output::protocol::Resource;
use text_output::keys::{Direction, Key, ModifierKey, Platform};
use text_output::mode::OutputMode;

#[test]
fn canonical_identifiers_resolve_to_their_modes() {
    assert_eq!(OutputMode::from_str("paste"), OutputMode::Paste);
    assert_eq!(OutputMode::from_str("paste_and_clipboard"), OutputMode::PasteAndClipboard);
    assert_eq!(OutputMode::from_str("clipboard"), OutputMode::Clipboard);
    assert_eq!(OutputMode::from_str("keystrokes"), OutputMode::Keystrokes);
    assert_eq!(
        OutputMode::from_str("keystrokes_and_clipboard"),
        OutputMode::KeystrokesAndClipboard
    );
}

#[test]
fn canonical_identifiers_resolve_to_distinct_modes() {
    let names = ["paste", "paste_and_clipboard", "clipboard", "keystrokes", "keystrokes_and_clipboard"];
    for (i, a) in names.iter().enumerate() {
        for (j, b) in names.iter().enumerate() {
            assert_eq!(i == j, OutputMode::from_str(a) == OutputMode::from_str(b));
        }
    }
}

#[test]
fn legacy_identifier_resolves_to_paste() {
    assert_eq!(OutputMode::from_str("auto_paste"), OutputMode::Paste);
}

#[test]
fn unknown_identifiers_resolve_to_paste() {
    assert_eq!(OutputMode::from_str("bogus_mode"), OutputMode::Paste);
    assert_eq!(OutputMode::from_str(""), OutputMode::Paste);
    assert_eq!(OutputMode::from_str(" clipboard"), OutputMode::Paste);
    assert_eq!(OutputMode::from_str("clipboard "), OutputMode::Paste);
    assert_eq!(OutputMode::from_str("Clipboard"), OutputMode::Paste);
    assert_eq!(OutputMode::from_str("KEYSTROKES"), OutputMode::Paste);
    assert_eq!(OutputMode::from_str("keystrokes_and_clipboar"), OutputMode::Paste);
    assert_eq!(OutputMode::from_str("keystrokes_and_clipboardx"), OutputMode::Paste);
    assert_eq!(OutputMode::from_str("paste_and_clipboard\n"), OutputMode::Paste);
    assert_eq!(OutputMode::from_str("cl\u{00ef}pboard"), OutputMode::Paste);
}

#[test]
fn resolving_is_deterministic() {
    for name in ["paste", "clipboard", "keystrokes", "nonsense", ""] {
        assert_eq!(OutputMode::from_str(name), OutputMode::from_str(name));
    }
}

#[test]
fn default_mode_is_paste() {
    assert_eq!(OutputMode::default(), OutputMode::Paste);
}

#[test]
fn platform_is_resolved_from_the_target_name() {
    assert_eq!(Platform::from_target_os("macos"), Platform::MacOs);
    assert_eq!(Platform::from_target_os("linux"), Platform::Other);
    assert_eq!(Platform::from_target_os("windows"), Platform::Other);
    assert_eq!(Platform::from_target_os("MacOS"), Platform::Other);
    assert_eq!(Platform::from_target_os(""), Platform::Other);
}

#[test]
fn paste_modifier_depends_on_the_platform() {
    assert_eq!(Platform::MacOs.paste_modifier(), ModifierKey::Meta);
    assert_eq!(Platform::Other.paste_modifier(), ModifierKey::Control);
}

#[test]
fn only_macos_injects_on_the_main_thread() {
    assert!(Platform::MacOs.injects_on_main_thread());
    assert!(!Platform::Other.injects_on_main_thread());
}

#[test]
fn actions_work_on_their_resources() {
    assert_eq!(Action::ReadClipboard.resource(), Resource::Clipboard);
    assert_eq!(Action::WriteClipboard("x".to_string()).resource(), Resource::Clipboard);
    assert_eq!(Action::Wait(50).resource(), Resource::Clock);
    assert_eq!(Action::OpenInjector.resource(), Resource::Injector);
    assert_eq!(
        Action::KeyEvent(Key::Character('v'), Direction::Click).resource(),
        Resource::Injector
    );
    assert_eq!(Action::TypeText("x".to_string()).resource(), Resource::Injector);
}

#[test]
fn injector_actions_go_to_the_main_thread_on_macos_only() {
    let injector = [
        Action::OpenInjector,
        Action::KeyEvent(Key::Modifier(ModifierKey::Meta), Direction::Press),
        Action::TypeText("hello".to_string()),
    ];
    for action in injector.iter() {
        assert!(action.on_main_thread(Platform::MacOs));
        assert!(!action.on_main_thread(Platform::Other));
    }
    let others = [Action::ReadClipboard, Action::WriteClipboard("x".to_string()), Action::Wait(18)];
    for action in others.iter() {
        assert!(!action.on_main_thread(Platform::MacOs));
        assert!(!action.on_main_thread(Platform::Other));
    }
}
