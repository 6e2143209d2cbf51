use tagbot::messages::{ExtractInfo, MessageData};

fn msg(content: &str, attachments: &[&str], referenced: Option<MessageData>) -> MessageData {
    MessageData {
        content: content.to_string(),
        attachments: attachments.iter().map(|s| s.to_string()).collect(),
        referenced: referenced.map(Box::new),
    }
}

/// The extraction as the bot's message type did it, on plain values.
fn reference_extract(m: &MessageData, skip: usize, with_ref: bool) -> Option<String> {
    let mut ret = String::new();
    let raw: Vec<&str> = m.content.splitn(skip + 1, " ").collect();
    if raw.len() == skip + 1 {
        ret += raw[skip];
        ret += "\n";
    } else if raw.len() < skip {
        return None;
    }
    ret += &m.attachments.join("\n");
    if let Some(r) = &m.referenced {
        let ref_text = reference_extract(r, 0, false);
        if with_ref && ref_text.is_some() {
            ret += "\n";
            ret += &ref_text.unwrap();
        }
    }
    if ret.is_empty() { None } else { Some(ret) }
}

#[test]
fn extract_text_takes_rest_after_name() {
    let m = msg("xxtadd name some value", &[], None);
    assert_eq!(m.extract_text(2, true), Some("some value\n".to_string()));
}

#[test]
fn extract_text_uses_attachments() {
    let m = msg("xxtadd name", &["http://a", "http://b"], None);
    assert_eq!(m.extract_text(2, true), Some("http://a\nhttp://b".to_string()));
}

#[test]
fn extract_text_none_without_value() {
    assert_eq!(msg("xxtadd name", &[], None).extract_text(2, true), None);
    assert_eq!(msg("xxtadd", &["http://a"], None).extract_text(2, true), None);
}

#[test]
fn extract_text_adds_replied_message() {
    let r = msg("hello world", &["u"], None);
    let m = msg("xxtadd name", &[], Some(r));
    assert_eq!(m.extract_text(2, true), Some("\nhello world\nu".to_string()));
    let r2 = msg("hello world", &["u"], None);
    let m2 = msg("xxtadd name", &[], Some(r2));
    assert_eq!(m2.extract_text(2, false), None);
}

#[test]
fn extract_text_skip_zero_keeps_everything() {
    assert_eq!(msg("abc", &[], None).extract_text(0, true), Some("abc\n".to_string()));
    assert_eq!(msg("", &[], None).extract_text(0, false), Some("\n".to_string()));
}

#[test]
fn extract_text_counts_every_space() {
    assert_eq!(msg("a  b", &[], None).extract_text(2, false), Some("b\n".to_string()));
}

#[test]
fn extract_text_agrees_with_reference() {
    let contents = ["", "a", "a b", "a b c d", "a  b", " lead", "trail ", "ü ö ä"];
    let attachment_sets: [&[&str]; 3] = [&[], &["x"], &["x", "y"]];
    for c in contents {
        for atts in attachment_sets {
            for with_ref in [false, true] {
                for skip in 0..5usize {
                    let r = msg("quoted text", &["q"], None);
                    let m = msg(c, atts, Some(r));
                    assert_eq!(m.extract_text(skip, with_ref), reference_extract(&m, skip, with_ref));
                    let plain = msg(c, atts, None);
                    assert_eq!(plain.extract_text(skip, with_ref), reference_extract(&plain, skip, with_ref));
                }
            }
        }
    }
}
