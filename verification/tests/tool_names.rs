use fgp::tool_name::{decode_tool_name, encode_tool_name, ToolTarget};

fn target(daemon: &str, method: &str) -> Option<ToolTarget> {
    Some(ToolTarget { daemon: daemon.to_string(), method: method.to_string() })
}

#[test]
fn encode_replaces_dots() {
    assert_eq!(encode_tool_name("gmail", "inbox.list"), "fgp_gmail_inbox_list");
    assert_eq!(encode_tool_name("gmail", "send"), "fgp_gmail_send");
    assert_eq!(encode_tool_name("x", "a.b.c"), "fgp_x_a_b_c");
}

#[test]
fn encode_keeps_underscores_of_the_method() {
    assert_eq!(encode_tool_name("cal", "list_events"), "fgp_cal_list_events");
}

#[test]
fn decode_splits_at_first_underscore() {
    assert_eq!(decode_tool_name("fgp_gmail_inbox_list"), target("gmail", "inbox.list"));
    assert_eq!(decode_tool_name("fgp_gmail_send"), target("gmail", "send"));
}

#[test]
fn decode_round_trips_dotted_methods() {
    for (daemon, method) in [("gmail", "inbox.list"), ("browser", "open"), ("a", "b.c.d"), ("", "x")] {
        let name = encode_tool_name(daemon, method);
        assert_eq!(decode_tool_name(&name), target(daemon, method));
    }
}

#[test]
fn decode_turns_every_later_underscore_into_a_dot() {
    let name = encode_tool_name("cal", "list_events");
    assert_eq!(decode_tool_name(&name), target("cal", "list.events"));
}

#[test]
fn decode_takes_a_name_without_prefix_whole() {
    assert_eq!(decode_tool_name("gmail_send"), target("gmail", "send"));
    assert_eq!(decode_tool_name("fgpx_y"), target("fgpx", "y"));
}

#[test]
fn decode_rejects_a_body_without_underscore() {
    assert_eq!(decode_tool_name("fgp_x"), None);
    assert_eq!(decode_tool_name("fgp_"), None);
    assert_eq!(decode_tool_name("fgp"), None);
    assert_eq!(decode_tool_name(""), None);
    assert_eq!(decode_tool_name("plain"), None);
}

#[test]
fn decode_accepts_empty_parts() {
    assert_eq!(decode_tool_name("fgp__x"), target("", "x"));
    assert_eq!(decode_tool_name("fgp_x_"), target("x", ""));
    assert_eq!(decode_tool_name("fgp_x__y"), target("x", ".y"));
}

#[test]
fn decode_counts_characters_not_bytes() {
    assert_eq!(decode_tool_name("fgp_caf\u{e9}_men\u{fc}_heute"), target("caf\u{e9}", "men\u{fc}.heute"));
}
