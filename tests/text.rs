use lumitype::settings::normalize_shortcut;
use lumitype::text::{normalize_transcript, transcript_delta};

#[test]
fn normalize_adds_capitalization() {
    assert_eq!(normalize_transcript("hello world", false), "Hello world");
}

#[test]
fn normalize_adds_terminal_punctuation() {
    assert_eq!(normalize_transcript("hello world", true), "Hello world.");
}

#[test]
fn delta_only_emits_suffix() {
    assert_eq!(transcript_delta("Hello", "Hello world"), " world");
}

#[test]
fn normalize_shortcut_maps_aliases() {
    assert_eq!(
        normalize_shortcut("Cmd+Option+Esc"),
        "Command+Alt+Escape".to_string()
    );
}

#[test]
fn normalize_collapses_whitespace() {
    assert_eq!(normalize_transcript("  hello \t\n  big   world  ", false), "Hello big world");
    assert_eq!(normalize_transcript("a\u{3000}b\u{a0}c", false), "A b c");
}

#[test]
fn normalize_keeps_existing_terminal_punctuation() {
    assert_eq!(normalize_transcript("are you there?", true), "Are you there?");
    assert_eq!(normalize_transcript("stop!", true), "Stop!");
    assert_eq!(normalize_transcript("done.", true), "Done.");
}

#[test]
fn normalize_empty_stays_empty() {
    assert_eq!(normalize_transcript("", true), "");
    assert_eq!(normalize_transcript("   \n ", true), "");
}

#[test]
fn normalize_leaves_non_letters_first() {
    assert_eq!(normalize_transcript("42 apples", false), "42 apples");
    assert_eq!(normalize_transcript("éclair time", false), "éclair time");
}

#[test]
fn normalize_is_idempotent_on_examples() {
    for raw in ["  hello   world ", "x", "  ", "ça va", "Hi there"] {
        let once = normalize_transcript(raw, false);
        assert_eq!(normalize_transcript(&once, false), once);
    }
}

#[test]
fn delta_of_non_prefix_revision() {
    assert_eq!(transcript_delta("Hello word", "Hello world"), "ld");
}

#[test]
fn delta_edge_cases() {
    assert_eq!(transcript_delta("Hello", ""), "");
    assert_eq!(transcript_delta("", "Hello"), "Hello");
    assert_eq!(transcript_delta("Hello", "Hello"), "");
    assert_eq!(transcript_delta("abc", "xyz"), "xyz");
}

#[test]
fn delta_counts_characters_not_bytes() {
    assert_eq!(transcript_delta("Café au", "Café olé"), "olé");
    assert_eq!(transcript_delta("🙂a", "🙂b"), "b");
}

#[test]
fn deltas_concatenate_to_last_transcript() {
    let run = ["Hello", "Hello world", "Hello world, how", "Hello world, how are you."];
    let mut previous = String::new();
    let mut typed = String::new();
    for next in run {
        typed.push_str(&transcript_delta(&previous, next));
        previous = next.to_string();
    }
    assert_eq!(typed, "Hello world, how are you.");
}

#[test]
fn shortcut_rewrites_each_alias() {
    assert_eq!(normalize_shortcut("Cmd+Shift+Space"), "Command+Shift+Space");
    assert_eq!(normalize_shortcut("Option+Z"), "Alt+Z");
    assert_eq!(normalize_shortcut("Ctrl+A"), "Ctrl+A");
}
