use validation::{
    has_newline,
    is_valid_actor_name,
    is_valid_display_name,
    is_valid_matrix_id,
    is_valid_post_title,
};

#[test]
fn regex_checks() {
    assert!(!is_valid_post_title("hi"));
    assert!(is_valid_post_title("him"));
    assert!(!is_valid_post_title("n\n\n\n\nanother"));
    assert!(!is_valid_post_title("hello there!\n this is a test."));
    assert!(is_valid_post_title("hello there! this is a test."));
}

#[test]
fn test_valid_actor_name() {
    let actor_name_max_length = 20;
    assert!(is_valid_actor_name("Hello_98", actor_name_max_length));
    assert!(is_valid_actor_name("ten", actor_name_max_length));
    assert!(!is_valid_actor_name("Hello-98", actor_name_max_length));
    assert!(!is_valid_actor_name("a", actor_name_max_length));
    assert!(!is_valid_actor_name("", actor_name_max_length));
}

#[test]
fn test_valid_display_name() {
    let actor_name_max_length = 20;
    assert!(is_valid_display_name("hello @there", actor_name_max_length));
    assert!(!is_valid_display_name(
        "@hello there",
        actor_name_max_length
    ));

    // Make sure zero-space with an @ doesn't work
    assert!(!is_valid_display_name(
        &format!("{}@my name is", '\u{200b}'),
        actor_name_max_length
    ));
}

#[test]
fn test_valid_post_title() {
    assert!(is_valid_post_title("Post Title"));
    assert!(is_valid_post_title("   POST TITLE 😃😃😃😃😃"));
    assert!(!is_valid_post_title("\n \n \n \n    		")); // tabs/spaces/newlines
}

#[test]
fn test_valid_matrix_id() {
    assert!(is_valid_matrix_id("@dess:matrix.org"));
    assert!(!is_valid_matrix_id("dess:matrix.org"));
    assert!(!is_valid_matrix_id(" @dess:matrix.org"));
    assert!(!is_valid_matrix_id("@dess:matrix.org t"));
}

#[test]
fn test_has_newline() {
    assert!(has_newline("a\nb"));
    assert!(has_newline("\n"));
    assert!(!has_newline(""));
    assert!(!has_newline("plain text"));
}

#[test]
fn test_actor_name_length_bounds() {
    // Exactly at the cap passes; one character over fails.
    assert!(is_valid_actor_name("abcde", 5));
    assert!(!is_valid_actor_name("abcdef", 5));
    // The minimum is three characters.
    assert!(!is_valid_actor_name("ab", 20));
    assert!(is_valid_actor_name("abc", 20));
    // Non-ASCII letters are refused.
    assert!(!is_valid_actor_name("héllo", 20));
    assert!(!is_valid_actor_name("name\n", 20));
}

#[test]
fn test_display_name_bounds() {
    let max = 10;
    // Character count is what the cap limits.
    assert!(is_valid_display_name("0123456789", max));
    assert!(!is_valid_display_name("0123456789a", max));
    assert!(!is_valid_display_name("ab", max));
    assert!(!is_valid_display_name("with\nnewline", 20));
}

#[test]
fn test_matrix_id_shapes() {
    assert!(is_valid_matrix_id("@a:b.co"));
    // Only one trailing letter after the final dot.
    assert!(!is_valid_matrix_id("@x:y.c"));
    // Empty local part.
    assert!(!is_valid_matrix_id("@:matrix.org"));
    // No dot in the server part.
    assert!(!is_valid_matrix_id("@dess:org"));
    // Digits may not end the id.
    assert!(!is_valid_matrix_id("@dess:matrix.o2g2"));
    // Dots may appear inside the server part.
    assert!(is_valid_matrix_id("@dess:sub.matrix.org"));
    assert!(!is_valid_matrix_id("@dess:matrix.org\n"));
}
