use hatchery::slug::normalize;
use hatchery::slug::derive as derive_slug;

fn is_slug_char(c: char) -> bool {
    c == '-' || c.is_ascii_alphanumeric()
}

#[test]
fn derive_keeps_clean_names() {
    assert_eq!(derive_slug("Goose"), "Goose");
    assert_eq!(derive_slug("Silly-Goose"), "Silly-Goose");
    assert_eq!(derive_slug("abc123"), "abc123");
}

#[test]
fn derive_maps_spaces_to_hyphens_and_keeps_case() {
    assert_eq!(derive_slug("Silly Goose"), "Silly-Goose");
    assert_eq!(derive_slug("a b c"), "a-b-c");
}

#[test]
fn derive_drops_forbidden_characters() {
    assert_eq!(derive_slug("G@@se!"), "Gse");
    assert_eq!(derive_slug("héllo"), "hllo");
    assert_eq!(derive_slug("a.b/c"), "abc");
}

#[test]
fn derive_empty_input_falls_back_to_five_random_alphanumerics() {
    let r = derive_slug("");
    assert_eq!(r.chars().count(), 5);
    assert!(r.chars().all(|c| c.is_ascii_alphanumeric()));
}

#[test]
fn derive_fully_filtered_input_falls_back_too() {
    let r = derive_slug("!!! ???");
    // the spaces become hyphens but hyphens survive filtering, so this
    // input is not empty after cleanup
    assert_eq!(r, "-");
    let r = derive_slug("!!!???");
    assert_eq!(r.chars().count(), 5);
    assert!(r.chars().all(|c| c.is_ascii_alphanumeric()));
}

#[test]
fn derive_output_is_always_urlsafe_and_nonempty() {
    for name in ["", "Silly Goose", "G@@se!", "  ", "éé", "a-b", "%%%"] {
        let r = derive_slug(name);
        assert!(!r.is_empty(), "empty slug for {name:?}");
        assert!(r.chars().all(is_slug_char), "bad char in slug for {name:?}");
    }
}

#[test]
fn derive_is_idempotent_on_clean_nonempty_input() {
    for name in ["Silly-Goose", "abc", "A-1-b", "-"] {
        let once = derive_slug(name);
        assert_eq!(once, name);
        assert_eq!(derive_slug(&once), once);
    }
}

#[test]
fn normalize_alone_may_be_empty() {
    assert_eq!(normalize(""), "");
    assert_eq!(normalize("!!!"), "");
    assert_eq!(normalize("Silly Goose"), "Silly-Goose");
}
