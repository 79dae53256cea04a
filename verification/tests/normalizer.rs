use mailtutan_lib::error::ParseError;
use mailtutan_lib::normalizer::{attachment, attachments, formats, normalize, recipients, sender};
use mailtutan_lib::parsed::{Mailbox, ParsedMessage, Part};

fn mailbox(name: Option<&str>, address: Option<&str>) -> Mailbox {
    Mailbox { name: name.map(str::to_string), address: address.map(str::to_string) }
}

fn part(filename: Option<&str>, content_type: Option<&str>, contents: &[u8]) -> Part {
    Part {
        filename: filename.map(str::to_string),
        content_type: content_type.map(str::to_string),
        contents: contents.to_vec(),
    }
}

fn empty_view() -> ParsedMessage {
    ParsedMessage {
        from: None,
        to: None,
        subject: None,
        date: None,
        html: None,
        text: None,
        attachments: Vec::new(),
    }
}

fn stamp() -> String {
    "2024-02-29 23:59:60".to_string()
}

#[test]
fn sender_joins_name_and_address_with_one_space() {
    let line = sender(Some(mailbox(Some("Private Person"), Some("me@fromdomain.com"))));
    assert_eq!(line, Ok("Private Person me@fromdomain.com".to_string()));
}

#[test]
fn sender_without_name_keeps_the_space() {
    assert_eq!(sender(Some(mailbox(None, Some("me@fromdomain.com")))), Ok(" me@fromdomain.com".to_string()));
}

#[test]
fn sender_without_from_is_empty() {
    assert_eq!(sender(None), Ok(String::new()));
}

#[test]
fn sender_without_address_is_refused() {
    assert_eq!(
        sender(Some(mailbox(Some("Private Person"), None))),
        Err(ParseError::MissingSenderAddress)
    );
    assert_eq!(sender(Some(mailbox(None, None))), Err(ParseError::MissingSenderAddress));
}

#[test]
fn recipients_use_the_address_or_nothing() {
    let list = vec![
        mailbox(Some("A"), Some("a@example.com")),
        mailbox(Some("No Address"), None),
        mailbox(None, Some("b@example.com")),
        mailbox(Some("A again"), Some("a@example.com")),
    ];
    assert_eq!(
        recipients(Some(list)),
        vec!["a@example.com", "", "b@example.com", "a@example.com"]
    );
}

#[test]
fn recipients_without_to_are_empty() {
    assert!(recipients(None).is_empty());
    assert!(recipients(Some(Vec::new())).is_empty());
}

#[test]
fn formats_start_with_source_and_put_html_before_plain() {
    assert_eq!(formats(false, false), vec!["source"]);
    assert_eq!(formats(true, false), vec!["source", "html"]);
    assert_eq!(formats(false, true), vec!["source", "plain"]);
    assert_eq!(formats(true, true), vec!["source", "html", "plain"]);
}

#[test]
fn attachment_takes_type_name_bytes_and_token() {
    let made = attachment(part(Some("a.png"), Some("image"), &[1, 2, 3]), "token-1".to_string())
        .unwrap();
    assert_eq!(made.cid, "token-1");
    assert_eq!(made.file_type, "image");
    assert_eq!(made.filename, "a.png");
    assert_eq!(made.body, vec![1, 2, 3]);
}

#[test]
fn attachment_without_name_is_unknown() {
    let made = attachment(part(None, Some("application"), b"x"), "t".to_string()).unwrap();
    assert_eq!(made.filename, "unknown");
}

#[test]
fn attachment_without_content_type_is_refused() {
    let refused = attachment(part(Some("a.bin"), None, b"x"), "t".to_string());
    assert_eq!(refused.unwrap_err(), ParseError::UnresolvedContentType);
}

#[test]
fn attachments_pair_parts_and_tokens_in_order() {
    let parts = vec![
        part(Some("a.png"), Some("image"), b"a"),
        part(None, Some("application"), b"bb"),
        part(Some("c.txt"), Some("text"), b""),
    ];
    let cids = vec!["t0".to_string(), "t1".to_string(), "t2".to_string()];
    let made = attachments(parts, &cids).unwrap();
    assert_eq!(made.len(), 3);
    assert_eq!(made[0].cid, "t0");
    assert_eq!(made[1].cid, "t1");
    assert_eq!(made[2].cid, "t2");
    assert_eq!(made[0].filename, "a.png");
    assert_eq!(made[1].filename, "unknown");
    assert_eq!(made[2].file_type, "text");
    assert_eq!(made[1].body, b"bb".to_vec());
}

#[test]
fn attachments_refuse_a_part_without_content_type() {
    let parts = vec![part(Some("a.png"), Some("image"), b"a"), part(Some("b"), None, b"b")];
    let cids = vec!["t0".to_string(), "t1".to_string()];
    assert_eq!(attachments(parts, &cids).unwrap_err(), ParseError::UnresolvedContentType);
}

#[test]
fn normalize_of_an_empty_view() {
    let message = normalize(empty_view(), b"raw".to_vec(), stamp(), Vec::new()).unwrap();
    assert_eq!(message.id, None);
    assert_eq!(message.sender, "");
    assert!(message.recipients.is_empty());
    assert_eq!(message.subject, "");
    assert_eq!(message.date, None);
    assert_eq!(message.created_at, Some(stamp()));
    assert!(message.attachments.is_empty());
    assert_eq!(message.source, b"raw".to_vec());
    assert_eq!(message.formats, vec!["source"]);
    assert_eq!(message.html, None);
    assert_eq!(message.plain, None);
}

#[test]
fn normalize_of_a_full_view() {
    let view = ParsedMessage {
        from: Some(mailbox(Some("Art"), Some("art@vandelay.com"))),
        to: Some(vec![mailbox(None, Some("jane@example.com")), mailbox(Some("Joe"), None)]),
        subject: Some("Latex".to_string()),
        date: Some("Sun, 2 Oct 2016 07:06:22 -0700".to_string()),
        html: Some("<p>hi</p>".to_string()),
        text: Some("hi".to_string()),
        attachments: vec![part(None, Some("image"), &[7, 8])],
    };
    let message =
        normalize(view, b"bytes".to_vec(), stamp(), vec!["cid-0".to_string()]).unwrap();
    assert_eq!(message.id, None);
    assert_eq!(message.sender, "Art art@vandelay.com");
    assert_eq!(message.recipients, vec!["jane@example.com", ""]);
    assert_eq!(message.subject, "Latex");
    assert_eq!(message.date.as_deref(), Some("Sun, 2 Oct 2016 07:06:22 -0700"));
    assert_eq!(message.created_at, Some(stamp()));
    assert_eq!(message.source, b"bytes".to_vec());
    assert_eq!(message.formats, vec!["source", "html", "plain"]);
    assert_eq!(message.html.as_deref(), Some("<p>hi</p>"));
    assert_eq!(message.plain.as_deref(), Some("hi"));
    assert_eq!(message.attachments.len(), 1);
    assert_eq!(message.attachments[0].cid, "cid-0");
    assert_eq!(message.attachments[0].file_type, "image");
    assert_eq!(message.attachments[0].filename, "unknown");
    assert_eq!(message.attachments[0].body, vec![7, 8]);
}

#[test]
fn normalize_with_html_only() {
    let mut view = empty_view();
    view.html = Some("<b>x</b>".to_string());
    let message = normalize(view, Vec::new(), stamp(), Vec::new()).unwrap();
    assert_eq!(message.formats, vec!["source", "html"]);
    assert_eq!(message.html.as_deref(), Some("<b>x</b>"));
    assert_eq!(message.plain, None);
}

#[test]
fn normalize_with_text_only() {
    let mut view = empty_view();
    view.text = Some("x".to_string());
    let message = normalize(view, Vec::new(), stamp(), Vec::new()).unwrap();
    assert_eq!(message.formats, vec!["source", "plain"]);
    assert_eq!(message.html, None);
    assert_eq!(message.plain.as_deref(), Some("x"));
}

#[test]
fn normalize_refuses_a_sender_without_address() {
    let mut view = empty_view();
    view.from = Some(mailbox(Some("Private Person"), None));
    let refused = normalize(view, Vec::new(), stamp(), Vec::new());
    assert_eq!(refused.unwrap_err(), ParseError::MissingSenderAddress);
}

#[test]
fn normalize_refuses_an_attachment_without_content_type() {
    let mut view = empty_view();
    view.attachments = vec![part(Some("a"), None, b"a")];
    let refused = normalize(view, Vec::new(), stamp(), vec!["t".to_string()]);
    assert_eq!(refused.unwrap_err(), ParseError::UnresolvedContentType);
}

#[test]
fn normalize_reports_the_sender_before_the_attachment() {
    let mut view = empty_view();
    view.from = Some(mailbox(None, None));
    view.attachments = vec![part(Some("a"), None, b"a")];
    let refused = normalize(view, Vec::new(), stamp(), vec!["t".to_string()]);
    assert_eq!(refused.unwrap_err(), ParseError::MissingSenderAddress);
}

#[test]
fn normalize_tolerates_a_recipient_without_address() {
    let mut view = empty_view();
    view.to = Some(vec![mailbox(Some("Only A Name"), None)]);
    let message = normalize(view, Vec::new(), stamp(), Vec::new()).unwrap();
    assert_eq!(message.recipients, vec![""]);
}

#[test]
fn distinct_tokens_give_distinct_cids() {
    let mut view = empty_view();
    view.attachments =
        vec![part(None, Some("image"), b"same"), part(None, Some("image"), b"same")];
    let cids = vec!["first".to_string(), "second".to_string()];
    let message = normalize(view, Vec::new(), stamp(), cids).unwrap();
    assert_ne!(message.attachments[0].cid, message.attachments[1].cid);
}
