use zoom_audio_settings::str_contains;

#[test]
fn empty_needle_is_contained_everywhere() {
    assert!(str_contains("", ""));
    assert!(str_contains("snd_aloop", ""));
}

#[test]
fn whole_string_contains_itself() {
    assert!(str_contains("virtual_mic_source", "virtual_mic_source"));
}

#[test]
fn needle_longer_than_hay_is_not_contained() {
    assert!(!str_contains("snd", "snd_aloop"));
    assert!(!str_contains("", "a"));
}

#[test]
fn marker_with_prefix_and_suffix_is_found() {
    assert!(str_contains("hw:CARD=Loopback snd_aloop_0", "snd_aloop"));
    assert!(str_contains("snd_aloop at the start", "snd_aloop"));
    assert!(str_contains("ends with snd_aloop", "snd_aloop"));
}

#[test]
fn absent_marker_is_not_found() {
    assert!(!str_contains("alsa_input.usb-0001", "snd_aloop"));
    assert!(!str_contains("snd_alop", "snd_aloop"));
}

#[test]
fn overlapping_candidates_are_still_found() {
    assert!(str_contains("aab", "ab"));
    assert!(str_contains("aaab", "aab"));
    assert!(str_contains("ababac", "abac"));
    assert!(!str_contains("ababab", "abba"));
}

#[test]
fn multibyte_characters_are_matched_by_character() {
    assert!(str_contains("micro‑phone λ loop", "λ loop"));
    assert!(!str_contains("λλa", "λa b"));
}
