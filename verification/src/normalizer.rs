//! The normalizer: how a parsed view becomes a message record.
//!
//! The spec functions say what the record holds; [`normalize`] computes it.
//! The two things a record holds that no message determines, the time stamp
//! and the attachment tokens, are arguments here.
//!
//! Addresses without an address string are treated unevenly, and on purpose:
//! in the From header such an entry makes normalization fail, in the To
//! header it becomes an empty recipient.

use crate::error::ParseError;
use crate::models::message::{Attachment, AttachmentView, Message, MessageView};
use crate::parsed::{Mailbox, MailboxView, ParsedMessage, ParsedView, Part, PartView};
use vstd::prelude::*;
use vstd::string::StringExecFns;

verus! {

/// A From address is there and carries no address string.
pub open spec fn sender_unresolved(from: Option<MailboxView>) -> bool {
    from matches Some(mailbox) && mailbox.address is None
}

/// Some attachment declares no content type.
pub open spec fn content_type_unresolved(parts: Seq<PartView>) -> bool {
    exists|i: int| 0 <= i < parts.len() && (#[trigger] parts[i]).content_type is None
}

/// Why a view is refused, if it is. A sender without an address is found
/// before an attachment without a content type.
pub open spec fn rejection(view: ParsedView) -> Option<ParseError> {
    if sender_unresolved(view.from) {
        Some(ParseError::MissingSenderAddress)
    } else if content_type_unresolved(view.attachments) {
        Some(ParseError::UnresolvedContentType)
    } else {
        None
    }
}

/// The sender line: the display name, or nothing, then one space, then the
/// address. Without a From address the line is empty.
pub open spec fn sender_of(from: Option<MailboxView>) -> Seq<char> {
    match from {
        Some(mailbox) => (match mailbox.name {
            Some(name) => name,
            None => ""@,
        }) + " "@ + mailbox.address.unwrap(),
        None => ""@,
    }
}

/// What a To entry contributes: its address, or the empty string. An entry
/// without an address is kept, not refused.
pub open spec fn recipient_of(mailbox: MailboxView) -> Seq<char> {
    match mailbox.address {
        Some(address) => address,
        None => ""@,
    }
}

/// The recipients: one per To entry, in header order, duplicates kept.
pub open spec fn recipients_of(to: Option<Seq<MailboxView>>) -> Seq<Seq<char>> {
    match to {
        Some(list) => Seq::new(list.len(), |i: int| recipient_of(list[i])),
        None => Seq::empty(),
    }
}

/// The subject, or the empty string.
pub open spec fn subject_of(subject: Option<Seq<char>>) -> Seq<char> {
    match subject {
        Some(text) => text,
        None => ""@,
    }
}

/// The renderings: `source`, then `html` if there is an HTML body, then
/// `plain` if there is a text body.
pub open spec fn formats_of(html: bool, plain: bool) -> Seq<Seq<char>> {
    seq!["source"@] + (if html {
        seq!["html"@]
    } else {
        Seq::empty()
    }) + (if plain {
        seq!["plain"@]
    } else {
        Seq::empty()
    })
}

/// The attachment made of one part and the token given to it.
pub open spec fn attachment_of(part: PartView, cid: Seq<char>) -> AttachmentView {
    AttachmentView {
        cid,
        file_type: part.content_type.unwrap(),
        filename: match part.filename {
            Some(name) => name,
            None => "unknown"@,
        },
        body: part.contents,
    }
}

/// The attachments: one per part, in order, part `i` with token `i`.
pub open spec fn attachments_of(parts: Seq<PartView>, cids: Seq<Seq<char>>) -> Seq<
    AttachmentView,
> {
    Seq::new(parts.len(), |i: int| attachment_of(parts[i], cids[i]))
}

/// The record of a view that is not refused.
pub open spec fn record(
    view: ParsedView,
    raw: Seq<u8>,
    created_at: Seq<char>,
    cids: Seq<Seq<char>>,
) -> MessageView {
    MessageView {
        id: None,
        sender: sender_of(view.from),
        recipients: recipients_of(view.to),
        subject: subject_of(view.subject),
        date: view.date,
        created_at: Some(created_at),
        attachments: attachments_of(view.attachments, cids),
        source: raw,
        formats: formats_of(view.html is Some, view.text is Some),
        html: view.html,
        plain: view.text,
    }
}

/// What normalization yields: the refusal, or the record.
pub open spec fn normalized(
    view: ParsedView,
    raw: Seq<u8>,
    created_at: Seq<char>,
    cids: Seq<Seq<char>>,
) -> Result<MessageView, ParseError> {
    match rejection(view) {
        Some(error) => Err(error),
        None => Ok(record(view, raw, created_at, cids)),
    }
}

/// The sender line of a From address; fails where the entry has no address.
pub fn sender(from: Option<Mailbox>) -> (r: Result<String, ParseError>)
    ensures
        match r {
            Ok(text) => !sender_unresolved(from.deep_view()) && text@ == sender_of(
                from.deep_view(),
            ),
            Err(error) => error == ParseError::MissingSenderAddress && sender_unresolved(
                from.deep_view(),
            ),
        },
{
    match from {
        Some(mailbox) => match mailbox.address {
            Some(address) => {
                let mut text = match mailbox.name {
                    Some(name) => name,
                    None => "".to_owned(),
                };
                text.append(" ");
                text.append(address.as_str());
                Ok(text)
            },
            None => Err(ParseError::MissingSenderAddress),
        },
        None => Ok("".to_owned()),
    }
}

/// The recipients of a To header.
pub fn recipients(to: Option<Vec<Mailbox>>) -> (r: Vec<String>)
    ensures
        r.deep_view() == recipients_of(to.deep_view()),
{
    let mut out: Vec<String> = Vec::new();
    match to {
        Some(list) => {
            let mut i: usize = 0;
            while i < list.len()
                invariant
                    i <= list@.len(),
                    out@.len() == i,
                    forall|j: int| 0 <= j < i ==> (#[trigger] out@[j])@ == recipient_of(list@[j]@),
                decreases list@.len() - i,
            {
                let text = match &list[i].address {
                    Some(address) => address.clone(),
                    None => "".to_owned(),
                };
                out.push(text);
                i += 1;
            }
            assert(out.deep_view() =~= recipients_of(to.deep_view()));
        },
        None => {
            assert(out.deep_view() =~= recipients_of(to.deep_view()));
        },
    }
    out
}

/// The renderings of a message with or without an HTML and a text body.
pub fn formats(html: bool, plain: bool) -> (r: Vec<String>)
    ensures
        r.deep_view() == formats_of(html, plain),
{
    let mut out: Vec<String> = Vec::new();
    out.push("source".to_owned());
    if html {
        out.push("html".to_owned());
    }
    if plain {
        out.push("plain".to_owned());
    }
    assert(out.deep_view() =~= formats_of(html, plain));
    out
}

/// The attachment made of one part and its token; fails where the part
/// declares no content type.
pub fn attachment(part: Part, cid: String) -> (r: Result<Attachment, ParseError>)
    ensures
        match r {
            Ok(made) => part.content_type is Some && made@ == attachment_of(part@, cid@),
            Err(error) => error == ParseError::UnresolvedContentType && part.content_type is None,
        },
{
    match part.content_type {
        Some(file_type) => {
            let filename = match part.filename {
                Some(name) => name,
                None => "unknown".to_owned(),
            };
            Ok(Attachment { cid, file_type, filename, body: part.contents })
        },
        None => Err(ParseError::UnresolvedContentType),
    }
}

/// The attachments of a message: part `i` with token `i`. Fails where some
/// part declares no content type.
pub fn attachments(parts: Vec<Part>, cids: &Vec<String>) -> (r: Result<
    Vec<Attachment>,
    ParseError,
>)
    requires
        cids@.len() == parts@.len(),
    ensures
        match r {
            Ok(made) => !content_type_unresolved(parts.deep_view()) && made.deep_view()
                == attachments_of(parts.deep_view(), cids.deep_view()),
            Err(error) => error == ParseError::UnresolvedContentType && content_type_unresolved(
                parts.deep_view(),
            ),
        },
{
    let mut out: Vec<Attachment> = Vec::new();
    for part in it: parts.into_iter()
        invariant
            it.seq() == parts@,
            cids@.len() == parts@.len(),
            out@.len() == it.index(),
            forall|j: int| 0 <= j < it.index() ==> (#[trigger] parts@[j]).content_type is Some,
            forall|j: int|
                0 <= j < it.index() ==> (#[trigger] out@[j])@ == attachment_of(
                    parts@[j]@,
                    cids@[j]@,
                ),
    {
        let ghost at = it.index();
        let cid = cids[out.len()].clone();
        match attachment(part, cid) {
            Ok(made) => {
                out.push(made);
            },
            Err(error) => {
                assert(parts.deep_view()[at].content_type is None);
                return Err(error);
            },
        }
    }
    assert(out.deep_view() =~= attachments_of(parts.deep_view(), cids.deep_view()));
    assert(!content_type_unresolved(parts.deep_view())) by {
        assert forall|j: int| 0 <= j < parts.deep_view().len() implies (
        #[trigger] parts.deep_view()[j]).content_type is Some by {
            assert(parts@[j].content_type is Some);
        }
    }
    Ok(out)
}

/// Normalizes a parsed view into a message record. `raw` is kept as the
/// record's source, `created_at` becomes its time stamp, and attachment `i`
/// gets `cids[i]` as its token. The record's identifier is left unset.
///
/// Fails with `MissingSenderAddress` where the From address has no address
/// string, else with `UnresolvedContentType` where an attachment declares no
/// content type, and succeeds on every other view.
pub fn normalize(view: ParsedMessage, raw: Vec<u8>, created_at: String, cids: Vec<String>) -> (r:
    Result<Message, ParseError>)
    requires
        cids@.len() == view@.attachments.len(),
    ensures
        match r {
            Ok(message) => normalized(view@, raw@, created_at@, cids.deep_view()) == Ok::<
                MessageView,
                ParseError,
            >(message@),
            Err(error) => normalized(view@, raw@, created_at@, cids.deep_view()) == Err::<
                MessageView,
                ParseError,
            >(error),
        },
{
    let ParsedMessage { from, to, subject, date, html, text, attachments: parts } = view;
    let sender = match sender(from) {
        Ok(line) => line,
        Err(error) => {
            return Err(error);
        },
    };
    let recipients = recipients(to);
    let subject = match subject {
        Some(text) => text,
        None => "".to_owned(),
    };
    let formats = formats(html.is_some(), text.is_some());
    let attachments = match attachments(parts, &cids) {
        Ok(made) => made,
        Err(error) => {
            return Err(error);
        },
    };
    Ok(
        Message {
            id: None,
            sender,
            recipients,
            subject,
            date,
            created_at: Some(created_at),
            attachments,
            source: raw,
            formats,
            html,
            plain: text,
        },
    )
}

} // verus!
