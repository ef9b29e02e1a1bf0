use crossterm::event::KeyModifiers as TermModifiers;
use prefs_editor::keys::ALT;
use prefs_editor::keys::CONTROL;
use prefs_editor::keys::HYPER;
use prefs_editor::keys::META;
use prefs_editor::keys::SHIFT;
use prefs_editor::keys::SUPER;
use prefs_editor::KeyAction;
use prefs_editor::KeyCode;
use prefs_editor::KeyInput;
use prefs_editor::KeyModifiers;

fn pressed(code: KeyCode, bits: u8) -> KeyInput {
    KeyInput { code, modifiers: KeyModifiers { bits } }
}

#[test]
fn modifier_bits_are_those_of_the_terminal_library() {
    assert_eq!(SHIFT, TermModifiers::SHIFT.bits());
    assert_eq!(CONTROL, TermModifiers::CONTROL.bits());
    assert_eq!(ALT, TermModifiers::ALT.bits());
    assert_eq!(SUPER, TermModifiers::SUPER.bits());
    assert_eq!(HYPER, TermModifiers::HYPER.bits());
    assert_eq!(META, TermModifiers::META.bits());
}

#[test]
fn contains_agrees_with_the_terminal_library() {
    let flags = [SHIFT, CONTROL, ALT, SUPER, HYPER, META, CONTROL | SUPER, 0];
    for bits in 0..64u8 {
        let ours = KeyModifiers { bits };
        let theirs = TermModifiers::from_bits_truncate(bits);
        for flag in flags {
            assert_eq!(ours.contains(flag), theirs.contains(TermModifiers::from_bits_truncate(flag)));
        }
    }
}

#[test]
fn contains_asks_for_every_flag() {
    let held = KeyModifiers { bits: CONTROL | SHIFT };
    assert!(held.contains(CONTROL));
    assert!(held.contains(SHIFT));
    assert!(held.contains(CONTROL | SHIFT));
    assert!(!held.contains(SUPER));
    assert!(!held.contains(CONTROL | SUPER));
    assert!(held.contains(0));
    assert!(KeyModifiers { bits: 0 }.contains(0));
    assert!(!KeyModifiers { bits: 0 }.contains(CONTROL));
}

#[test]
fn control_or_super_accelerates_whatever_else_is_held() {
    for bits in 0..64u8 {
        let accelerated = bits & (CONTROL | SUPER) != 0;
        let save = pressed(KeyCode::Char('s'), bits).classify();
        let close = pressed(KeyCode::Char('C'), bits).classify();
        let other = pressed(KeyCode::Char('q'), bits).classify();
        let named = pressed(KeyCode::Other, bits).classify();
        assert_eq!(save, if accelerated { KeyAction::Save } else { KeyAction::Edit });
        assert_eq!(close, if accelerated { KeyAction::Close } else { KeyAction::Edit });
        assert_eq!(other, KeyAction::Edit);
        assert_eq!(named, KeyAction::Edit);
    }
}

#[test]
fn shift_and_alt_alone_do_not_accelerate() {
    assert_eq!(pressed(KeyCode::Char('S'), SHIFT).classify(), KeyAction::Edit);
    assert_eq!(pressed(KeyCode::Char('s'), ALT).classify(), KeyAction::Edit);
    assert_eq!(pressed(KeyCode::Char('c'), SHIFT | ALT | HYPER | META).classify(), KeyAction::Edit);
    assert_eq!(pressed(KeyCode::Char('c'), SHIFT | CONTROL).classify(), KeyAction::Close);
}
