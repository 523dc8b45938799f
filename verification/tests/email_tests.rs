use content_events::email::email_shaped;

#[test]
fn plain_addresses_pass() {
    assert!(email_shaped("user@example.com"));
    assert!(email_shaped("a@b.c"));
    assert!(email_shaped("first.last_name-1@mail-server.example.org"));
}

#[test]
fn shape_check_is_permissive_not_validation() {
    // A match anywhere in the string is enough.
    assert!(email_shaped("see u@v.com there"));
    // Labels of hyphens alone still fit the shape.
    assert!(email_shaped("u@-.-"));
}

#[test]
fn non_addresses_fail() {
    assert!(!email_shaped(""));
    assert!(!email_shaped("not-an-email"));
    assert!(!email_shaped("plain words"));
    assert!(!email_shaped("@example.com"));
    assert!(!email_shaped("user@"));
    assert!(!email_shaped("user@nodot"));
    assert!(!email_shaped("user@.com"));
    assert!(!email_shaped("user@host."));
    assert!(!email_shaped("u@v,com"));
}

#[test]
fn non_ascii_neighbours_do_not_count() {
    // The character classes are ASCII; a non-ASCII local part does not match.
    assert!(!email_shaped("\u{fc}@v.com"));
    // But an ASCII match elsewhere in a non-ASCII string is still found.
    assert!(email_shaped("\u{fc} u@v.com"));
}
