use greentic_control_chain::dispatch_target::{parse_dispatch_target, valid_segment};

#[test]
fn one_to_three_segments_parse() {
    let d = parse_dispatch_target("commerce-support").expect("pack only");
    assert_eq!(d.pack, "commerce-support");
    assert_eq!(d.flow, None);
    assert_eq!(d.node, None);

    let d = parse_dispatch_target("commerce-support/flow_refund/node.1").expect("three segments");
    assert_eq!(d.pack, "commerce-support");
    assert_eq!(d.flow.as_deref(), Some("flow_refund"));
    assert_eq!(d.node.as_deref(), Some("node.1"));
}

#[test]
fn rejected_targets_name_their_fault() {
    let err = |t: &str| parse_dispatch_target(t).err().expect("rejected");
    assert_eq!(err("a b"), "target contains forbidden characters");
    assert_eq!(err("a\u{3000}b"), "target contains forbidden characters");
    assert_eq!(err("a..b"), "target contains forbidden characters");
    assert_eq!(err("a?b"), "target contains forbidden characters");
    assert_eq!(err("a#b"), "target contains forbidden characters");
    assert_eq!(err("a/b/c/d"), "target must have 1 to 3 segments");
    assert_eq!(err(""), "target contains empty segment");
    assert_eq!(err("a/"), "target contains empty segment");
    assert_eq!(err("/a"), "target contains empty segment");
    assert_eq!(err("BadPack/flow"), "invalid segment 'BadPack'");
    assert_eq!(err("ok/_bad"), "invalid segment '_bad'");
    assert_eq!(err("ok/Bad/"), "invalid segment 'Bad'");
}

#[test]
fn segments_follow_the_alphabet_and_length_limit() {
    assert!(valid_segment("a"));
    assert!(valid_segment("9lives"));
    assert!(valid_segment("a.b_c-d"));
    assert!(!valid_segment(""));
    assert!(!valid_segment("-a"));
    assert!(!valid_segment(".a"));
    assert!(!valid_segment("aé"));
    assert!(valid_segment(&"a".repeat(64)));
    assert!(!valid_segment(&"a".repeat(65)));
}

#[test]
fn parsed_targets_render_back() {
    for t in ["p", "p/f", "p/f/n", "x1/y_2/z-3"] {
        let d = parse_dispatch_target(t).expect("valid");
        let mut rendered = d.pack.clone();
        if let Some(f) = &d.flow {
            rendered.push('/');
            rendered.push_str(f);
        }
        if let Some(n) = &d.node {
            rendered.push('/');
            rendered.push_str(n);
        }
        assert_eq!(rendered, t);
    }
}
