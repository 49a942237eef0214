use text_output::keys::{Direction, Key, ModifierKey, Platform};
use text_output::mode::OutputMode;
use text_output::protocol::{
    copy_to_clipboard, output_text_with_mode, paste_and_keep_clipboard, type_as_keystrokes,
    type_text_blocking, Operation, Policy, Resource, Step, CHUNK_DELAY_MS,
    CLIPBOARD_RESTORE_DELAY_MS, CLIPBOARD_STABILIZATION_DELAY_MS, KEY_EVENT_DELAY_MS,
    MODIFIER_SETTLE_DELAY_MS,
};

fn required(operation: Operation) -> Step {
    Step { operation, policy: Policy::Required }
}

fn best_effort(operation: Operation) -> Step {
    Step { operation, policy: Policy::BestEffort }
}

fn pause(millis: u64) -> Step {
    best_effort(Operation::Wait(millis))
}

fn key(key: Key, direction: Direction) -> Operation {
    Operation::KeyEvent(key, direction)
}

fn shortcut(modifier: ModifierKey) -> Vec<Step> {
    vec![
        required(Operation::OpenInjector),
        required(key(Key::Modifier(modifier), Direction::Press)),
        pause(50),
        best_effort(key(Key::Character('v'), Direction::Click)),
        pause(50),
        best_effort(key(Key::Modifier(modifier), Direction::Release)),
    ]
}

fn keystroke_head() -> Vec<Step> {
    vec![
        pause(250),
        required(Operation::OpenInjector),
        best_effort(key(Key::Modifier(ModifierKey::Control), Direction::Release)),
        best_effort(key(Key::Modifier(ModifierKey::Alt), Direction::Release)),
        best_effort(key(Key::Modifier(ModifierKey::Shift), Direction::Release)),
        best_effort(key(Key::Modifier(ModifierKey::Meta), Direction::Release)),
    ]
}

#[test]
fn timing_constants_have_their_values() {
    assert_eq!(CLIPBOARD_STABILIZATION_DELAY_MS, 50);
    assert_eq!(KEY_EVENT_DELAY_MS, 50);
    assert_eq!(CLIPBOARD_RESTORE_DELAY_MS, 100);
    assert_eq!(MODIFIER_SETTLE_DELAY_MS, 250);
    assert_eq!(CHUNK_DELAY_MS, 18);
}

#[test]
fn paste_protocol_on_other_platforms() {
    let mut expected = vec![
        best_effort(Operation::SnapshotClipboard),
        required(Operation::WriteClipboard("test".to_string())),
        pause(50),
    ];
    expected.extend(shortcut(ModifierKey::Control));
    expected.push(pause(100));
    expected.push(best_effort(Operation::RestoreClipboard));
    assert_eq!(type_text_blocking("test", Platform::Other), expected);
    assert_eq!(expected.len(), 11);
}

#[test]
fn paste_protocol_on_macos_uses_command() {
    let mut expected = vec![
        best_effort(Operation::SnapshotClipboard),
        required(Operation::WriteClipboard("test".to_string())),
        pause(50),
    ];
    expected.extend(shortcut(ModifierKey::Meta));
    expected.push(pause(100));
    expected.push(best_effort(Operation::RestoreClipboard));
    assert_eq!(type_text_blocking("test", Platform::MacOs), expected);
}

#[test]
fn paste_and_keep_protocol_has_no_snapshot_and_no_restore() {
    let mut expected = vec![required(Operation::WriteClipboard("kept".to_string())), pause(50)];
    expected.extend(shortcut(ModifierKey::Control));
    let steps = paste_and_keep_clipboard("kept", Platform::Other);
    assert_eq!(steps, expected);
    assert!(steps.iter().all(|step| step.operation != Operation::SnapshotClipboard
        && step.operation != Operation::RestoreClipboard));

    let mut expected = vec![required(Operation::WriteClipboard("kept".to_string())), pause(50)];
    expected.extend(shortcut(ModifierKey::Meta));
    assert_eq!(paste_and_keep_clipboard("kept", Platform::MacOs), expected);
}

#[test]
fn paste_protocol_wraps_the_paste_and_keep_protocol() {
    for platform in [Platform::MacOs, Platform::Other] {
        let full = type_text_blocking("abc", platform);
        let inner = paste_and_keep_clipboard("abc", platform);
        assert_eq!(full[0], best_effort(Operation::SnapshotClipboard));
        assert_eq!(&full[1..full.len() - 2], &inner[..]);
        assert_eq!(full[full.len() - 2], pause(100));
        assert_eq!(full[full.len() - 1], best_effort(Operation::RestoreClipboard));
    }
}

#[test]
fn clipboard_protocol_is_one_write() {
    assert_eq!(
        copy_to_clipboard("hello world"),
        vec![required(Operation::WriteClipboard("hello world".to_string()))]
    );
    assert_eq!(copy_to_clipboard(""), vec![required(Operation::WriteClipboard(String::new()))]);
}

#[test]
fn clipboard_protocol_never_touches_the_injector() {
    for step in copy_to_clipboard("hello world") {
        assert_eq!(step.operation.resource(), Resource::Clipboard);
    }
}

#[test]
fn keystroke_protocol_for_empty_text_types_nothing() {
    assert_eq!(type_as_keystrokes(""), keystroke_head());
}

#[test]
fn keystroke_protocol_for_short_text_types_one_chunk() {
    let mut expected = keystroke_head();
    expected.push(required(Operation::TypeText("hello".to_string())));
    assert_eq!(type_as_keystrokes("hello"), expected);
}

#[test]
fn keystroke_protocol_waits_after_every_full_chunk() {
    let text = "abcdefghijklmnopqrstuvwxyz0123456789ABCDEFGHIJKLMNOPQRSTUVWXYZ";
    assert_eq!(text.len(), 62);
    let mut expected = keystroke_head();
    expected.push(required(Operation::TypeText(text[..24].to_string())));
    expected.push(pause(18));
    expected.push(required(Operation::TypeText(text[24..48].to_string())));
    expected.push(pause(18));
    expected.push(required(Operation::TypeText(text[48..].to_string())));
    assert_eq!(type_as_keystrokes(text), expected);
}

#[test]
fn keystroke_protocol_for_one_full_chunk() {
    let text = "abcdefghijklmnopqrstuvwx";
    assert_eq!(text.len(), 24);
    let mut expected = keystroke_head();
    expected.push(required(Operation::TypeText(text.to_string())));
    expected.push(pause(18));
    assert_eq!(type_as_keystrokes(text), expected);
}

#[test]
fn keystroke_protocol_for_two_full_chunks() {
    let text = "abcdefghijklmnopqrstuvwxABCDEFGHIJKLMNOPQRSTUVWX";
    assert_eq!(text.len(), 48);
    let mut expected = keystroke_head();
    expected.push(required(Operation::TypeText(text[..24].to_string())));
    expected.push(pause(18));
    expected.push(required(Operation::TypeText(text[24..].to_string())));
    expected.push(pause(18));
    assert_eq!(type_as_keystrokes(text), expected);
}

#[test]
fn keystroke_protocol_for_one_character_short_of_a_chunk() {
    let text = "abcdefghijklmnopqrstuvw";
    assert_eq!(text.len(), 23);
    let mut expected = keystroke_head();
    expected.push(required(Operation::TypeText(text.to_string())));
    assert_eq!(type_as_keystrokes(text), expected);
}

#[test]
fn keystroke_protocol_types_ceil_of_length_over_chunk_size() {
    for len in 0..120usize {
        let text: String = (0..len).map(|i| char::from(b'a' + (i % 26) as u8)).collect();
        let steps = type_as_keystrokes(&text);
        let typed: Vec<String> = steps
            .iter()
            .filter_map(|step| match &step.operation {
                Operation::TypeText(piece) => Some(piece.clone()),
                _ => None,
            })
            .collect();
        assert_eq!(typed.len(), (len + 23) / 24);
        assert_eq!(typed.concat(), text);
        let pauses = steps.iter().filter(|step| step.operation == Operation::Wait(18)).count();
        assert_eq!(pauses, len / 24);
        for pair in steps[6..].windows(2) {
            let both_type = matches!(pair[0].operation, Operation::TypeText(_))
                && matches!(pair[1].operation, Operation::TypeText(_));
            assert!(!both_type);
        }
    }
}

#[test]
fn keystrokes_and_clipboard_protocol_writes_first() {
    let mut expected = vec![required(Operation::WriteClipboard("both".to_string()))];
    expected.extend(keystroke_head());
    expected.push(required(Operation::TypeText("both".to_string())));
    assert_eq!(
        output_text_with_mode("both", OutputMode::KeystrokesAndClipboard, Platform::Other),
        expected
    );
}

#[test]
fn output_text_with_mode_selects_the_protocol() {
    for platform in [Platform::MacOs, Platform::Other] {
        assert_eq!(
            output_text_with_mode("t", OutputMode::Paste, platform),
            type_text_blocking("t", platform)
        );
        assert_eq!(
            output_text_with_mode("t", OutputMode::PasteAndClipboard, platform),
            paste_and_keep_clipboard("t", platform)
        );
        assert_eq!(
            output_text_with_mode("t", OutputMode::Clipboard, platform),
            copy_to_clipboard("t")
        );
        assert_eq!(
            output_text_with_mode("t", OutputMode::Keystrokes, platform),
            type_as_keystrokes("t")
        );
        let mut both = copy_to_clipboard("t");
        both.extend(type_as_keystrokes("t"));
        assert_eq!(output_text_with_mode("t", OutputMode::KeystrokesAndClipboard, platform), both);
    }
}

#[test]
fn operations_work_on_their_resources() {
    assert_eq!(Operation::SnapshotClipboard.resource(), Resource::Clipboard);
    assert_eq!(Operation::WriteClipboard("x".to_string()).resource(), Resource::Clipboard);
    assert_eq!(Operation::RestoreClipboard.resource(), Resource::Clipboard);
    assert_eq!(Operation::Wait(1).resource(), Resource::Clock);
    assert_eq!(Operation::OpenInjector.resource(), Resource::Injector);
    assert_eq!(key(Key::Character('v'), Direction::Click).resource(), Resource::Injector);
    assert_eq!(Operation::TypeText("x".to_string()).resource(), Resource::Injector);
}
