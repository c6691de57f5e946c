use ffmpeg_next::Dictionary;

#[test]
fn a_new_dictionary_is_empty() {
    let dictionary = Dictionary::new();
    assert!(dictionary.is_empty());
    assert_eq!(dictionary.len(), 0);
    assert_eq!(dictionary.get("threads"), None);
}

#[test]
fn set_adds_a_new_key_at_the_end() {
    let mut dictionary = Dictionary::new();
    dictionary.set("threads", "4");
    dictionary.set("preset", "fast");
    assert_eq!(dictionary.len(), 2);
    assert!(!dictionary.is_empty());
    assert_eq!(dictionary.get("threads"), Some("4"));
    assert_eq!(dictionary.get("preset"), Some("fast"));
    assert_eq!(dictionary.get("Threads"), None);
}

#[test]
fn set_replaces_the_value_of_a_known_key() {
    let mut dictionary = Dictionary::new();
    dictionary.set("threads", "4");
    dictionary.set("preset", "fast");
    dictionary.set("threads", "8");
    assert_eq!(dictionary.len(), 2);
    assert_eq!(dictionary.get("threads"), Some("8"));
    assert_eq!(dictionary.get("preset"), Some("fast"));
    let mut other = Dictionary::new();
    other.set("threads", "8");
    other.set("preset", "fast");
    assert_eq!(dictionary, other);
}

#[test]
fn order_matters_to_equality() {
    let mut one = Dictionary::new();
    one.set("a", "1");
    one.set("b", "2");
    let mut other = Dictionary::new();
    other.set("b", "2");
    other.set("a", "1");
    assert_ne!(one, other);
}

#[test]
fn empty_keys_and_values_are_kept() {
    let mut dictionary = Dictionary::new();
    dictionary.set("", "");
    assert_eq!(dictionary.len(), 1);
    assert_eq!(dictionary.get(""), Some(""));
}
