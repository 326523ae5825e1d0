use fgp::notifications::{escape_quotes, notification_script, notification_script_with_sound};

#[test]
fn escape_quotes_puts_a_backslash_before_each_quote() {
    assert_eq!(escape_quotes("say \"hi\""), "say \\\"hi\\\"");
    assert_eq!(escape_quotes("plain"), "plain");
    assert_eq!(escape_quotes("\""), "\\\"");
    assert_eq!(escape_quotes(""), "");
}

#[test]
fn notification_script_names_message_then_title() {
    assert_eq!(
        notification_script("FGP Service Crashed", "gmail daemon crashed"),
        "display notification \"gmail daemon crashed\" with title \"FGP Service Crashed\""
    );
}

#[test]
fn notification_script_escapes_both_texts() {
    assert_eq!(
        notification_script("a \"b\"", "c \"d\""),
        "display notification \"c \\\"d\\\"\" with title \"a \\\"b\\\"\""
    );
}

#[test]
fn notification_script_with_sound_names_the_sound() {
    assert_eq!(
        notification_script_with_sound("T", "M \"x\"", "Glass"),
        "display notification \"M \\\"x\\\"\" with title \"T\" sound name \"Glass\""
    );
}
