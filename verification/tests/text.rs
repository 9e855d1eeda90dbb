use starboard::text::{decimal_string, render_board_message, render_confirmation};

#[test]
fn decimal_string_writes_single_digits() {
    assert_eq!(decimal_string(0), "0");
    assert_eq!(decimal_string(7), "7");
    assert_eq!(decimal_string(9), "9");
}

#[test]
fn decimal_string_writes_several_digits() {
    assert_eq!(decimal_string(10), "10");
    assert_eq!(decimal_string(1234567890), "1234567890");
    assert_eq!(decimal_string(1002003), "1002003");
}

#[test]
fn decimal_string_writes_the_largest_number() {
    assert_eq!(decimal_string(u64::MAX), "18446744073709551615");
}

#[test]
fn decimal_string_agrees_with_the_standard_library() {
    let mut n: u64 = 1;
    for _ in 0..19 {
        assert_eq!(decimal_string(n), n.to_string());
        assert_eq!(decimal_string(n - 1), (n - 1).to_string());
        n *= 10;
    }
}

#[test]
fn board_message_names_the_author_by_tag() {
    let body = render_board_message("hello there", "ferris#0001", &None);
    assert_eq!(body, "hello there\n\n---\n**From:** ferris#0001");
}

#[test]
fn board_message_prefers_the_nickname() {
    let body = render_board_message("hello there", "ferris#0001", &Some(String::from("Crab")));
    assert_eq!(body, "hello there\n\n---\n**From:** Crab (ferris#0001)");
}

#[test]
fn board_message_of_empty_content() {
    let body = render_board_message("", "a#1", &Some(String::new()));
    assert_eq!(body, "\n\n---\n**From:**  (a#1)");
}

#[test]
fn confirmation_names_threshold_reaction_and_channel() {
    let reply = render_confirmation(2, "😊", 123456789012345678);
    assert_eq!(
        reply,
        "Created! I will now post with more than 2 reactions with the 😊 emoji, I will post it on <#123456789012345678>"
    );
}
