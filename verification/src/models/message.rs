//! The normalized message record, its attachments and its notification
//! envelope.

use crate::clock;
use crate::error::ParseError;
use crate::laws;
use crate::normalizer;
use crate::parsed::{parsed_view, ParsedMessage};
use mail_parser::Message as Mail;
use crate::token;
use vstd::prelude::*;

verus! {

/// One attachment of a normalized message.
#[derive(Debug)]
pub struct Attachment {
    /// An opaque reference token, generated afresh for each attachment.
    pub cid: String,
    /// The main type of the declared content type, such as `image`.
    pub file_type: String,
    /// The declared file name, or `unknown`.
    pub filename: String,
    /// The raw bytes of the attachment.
    pub body: Vec<u8>,
}

/// The mathematical value of an [`Attachment`].
pub struct AttachmentView {
    pub cid: Seq<char>,
    pub file_type: Seq<char>,
    pub filename: Seq<char>,
    pub body: Seq<u8>,
}

impl View for Attachment {
    type V = AttachmentView;

    open spec fn view(&self) -> AttachmentView {
        AttachmentView {
            cid: self.cid@,
            file_type: self.file_type@,
            filename: self.filename@,
            body: self.body@,
        }
    }
}

impl DeepView for Attachment {
    type V = AttachmentView;

    open spec fn deep_view(&self) -> AttachmentView {
        self.view()
    }
}

impl Clone for Attachment {
    /// A copy with the same value.
    fn clone(&self) -> (r: Attachment)
        ensures
            r@ == self@,
    {
        let body = self.body.clone();
        assert(body@ =~= self.body@);
        Attachment {
            cid: self.cid.clone(),
            file_type: self.file_type.clone(),
            filename: self.filename.clone(),
            body,
        }
    }
}

impl Default for Attachment {
    /// An attachment with empty texts and no bytes.
    fn default() -> (r: Attachment)
        ensures
            r@ == (AttachmentView {
                cid: Seq::empty(),
                file_type: Seq::empty(),
                filename: Seq::empty(),
                body: Seq::empty(),
            }),
    {
        Attachment {
            cid: String::new(),
            file_type: String::new(),
            filename: String::new(),
            body: Vec::new(),
        }
    }
}

/// A normalized message.
#[derive(Debug)]
pub struct Message {
    /// The identifier that storage assigns; absent until then.
    pub id: Option<usize>,
    /// The display name and address of the sender, or the empty string.
    pub sender: String,
    /// The recipient addresses, in header order.
    pub recipients: Vec<String>,
    /// The subject, or the empty string.
    pub subject: String,
    /// The date of the message in RFC 822 text form.
    pub date: Option<String>,
    /// The local time of normalization.
    pub created_at: Option<String>,
    /// The attachments, in the order of the parsed message.
    pub attachments: Vec<Attachment>,
    /// The raw bytes the message was normalized from.
    pub source: Vec<u8>,
    /// The renderings on offer: `source`, then `html`, then `plain`.
    pub formats: Vec<String>,
    /// The decoded HTML body.
    pub html: Option<String>,
    /// The decoded plain-text body.
    pub plain: Option<String>,
}

/// The mathematical value of a [`Message`].
pub struct MessageView {
    pub id: Option<usize>,
    pub sender: Seq<char>,
    pub recipients: Seq<Seq<char>>,
    pub subject: Seq<char>,
    pub date: Option<Seq<char>>,
    pub created_at: Option<Seq<char>>,
    pub attachments: Seq<AttachmentView>,
    pub source: Seq<u8>,
    pub formats: Seq<Seq<char>>,
    pub html: Option<Seq<char>>,
    pub plain: Option<Seq<char>>,
}

impl MessageView {
    /// The tokens of the attachments, in their order.
    pub open spec fn cids(self) -> Seq<Seq<char>> {
        Seq::new(self.attachments.len(), |i: int| self.attachments[i].cid)
    }

    /// What holds of every record that normalization makes: it carries a
    /// time stamp, and its formats are `source`, then `html` if it has an
    /// HTML body, then `plain` if it has a text body.
    pub open spec fn well_formed(self) -> bool {
        &&& self.created_at is Some
        &&& self.formats == normalizer::formats_of(self.html is Some, self.plain is Some)
    }

    /// The value with nothing in it.
    pub open spec fn empty() -> MessageView {
        MessageView {
            id: None,
            sender: Seq::empty(),
            recipients: Seq::empty(),
            subject: Seq::empty(),
            date: None,
            created_at: None,
            attachments: Seq::empty(),
            source: Seq::empty(),
            formats: Seq::empty(),
            html: None,
            plain: None,
        }
    }
}

impl View for Message {
    type V = MessageView;

    open spec fn view(&self) -> MessageView {
        MessageView {
            id: self.id,
            sender: self.sender@,
            recipients: self.recipients.deep_view(),
            subject: self.subject@,
            date: self.date.deep_view(),
            created_at: self.created_at.deep_view(),
            attachments: self.attachments.deep_view(),
            source: self.source@,
            formats: self.formats.deep_view(),
            html: self.html.deep_view(),
            plain: self.plain.deep_view(),
        }
    }
}

impl DeepView for Message {
    type V = MessageView;

    open spec fn deep_view(&self) -> MessageView {
        self.view()
    }
}

impl Clone for Message {
    /// A copy with the same value.
    fn clone(&self) -> (r: Message)
        ensures
            r@ == self@,
    {
        let recipients = self.recipients.clone();
        let attachments = self.attachments.clone();
        let source = self.source.clone();
        let formats = self.formats.clone();
        assert(recipients.deep_view() =~= self.recipients.deep_view());
        assert(attachments.deep_view() =~= self.attachments.deep_view());
        assert(source@ =~= self.source@);
        assert(formats.deep_view() =~= self.formats.deep_view());
        Message {
            id: self.id,
            sender: self.sender.clone(),
            recipients,
            subject: self.subject.clone(),
            date: self.date.clone(),
            created_at: self.created_at.clone(),
            attachments,
            source,
            formats,
            html: self.html.clone(),
            plain: self.plain.clone(),
        }
    }
}

impl Default for Message {
    /// A message with nothing in it.
    fn default() -> (r: Message)
        ensures
            r@ == MessageView::empty(),
    {
        let r = Message {
            id: None,
            sender: String::new(),
            recipients: Vec::new(),
            subject: String::new(),
            date: None,
            created_at: None,
            attachments: Vec::new(),
            source: Vec::new(),
            formats: Vec::new(),
            html: None,
            plain: None,
        };
        assert(r.recipients.deep_view() =~= Seq::empty());
        assert(r.attachments.deep_view() =~= Seq::empty());
        assert(r.formats.deep_view() =~= Seq::empty());
        r
    }
}

impl Message {
    /// Normalizes one e-mail payload: `data` holds its raw bytes, `parsed` is
    /// what the parser made of them.
    ///
    /// Fails with `Malformed` where the parser returned no message, or one
    /// without any part, and otherwise exactly where the normalizer refuses
    /// the parsed view. On success the record is the one the normalizer
    /// defines for the parsed view and the bytes, stamped with the local time
    /// and with one freshly drawn token for each attachment.
    ///
    /// Two things the parser can hand over are settled in the parsed view. A
    /// body part that the parser counts and has no text for, as in a message
    /// that is a lone inline image, is no body: its format is not offered.
    /// An attached message in which the parser found no part at all is an
    /// attachment without bytes.
    pub fn from(data: &Vec<u8>, parsed: Option<Mail<'_>>) -> (r: Result<Message, ParseError>)
        ensures
            match parsed_view(parsed) {
                None => r == Err::<Message, ParseError>(ParseError::Malformed),
                Some(view) => match normalizer::rejection(view) {
                    Some(error) => r == Err::<Message, ParseError>(error),
                    None => {
                        &&& r is Ok
                        &&& r.unwrap()@.created_at is Some
                        &&& clock::is_timestamp(r.unwrap()@.created_at.unwrap())
                        &&& forall|i: int|
                            0 <= i < r.unwrap()@.attachments.len() ==> token::is_token(
                                #[trigger] r.unwrap()@.attachments[i].cid,
                            )
                        &&& r.unwrap()@ == normalizer::record(
                            view,
                            data@,
                            r.unwrap()@.created_at.unwrap(),
                            r.unwrap()@.cids(),
                        )
                    },
                },
            },
            r matches Ok(message) ==> {
                let view = parsed_view(parsed).unwrap();
                &&& message@.well_formed()
                &&& message@.id is None
                &&& message@.source == data@
                &&& view.from is None ==> message@.sender == ""@
                &&& view.to is None ==> message@.recipients.len() == 0
                &&& view.subject is None ==> message@.subject == ""@
                &&& message@.formats.len() >= 1 && message@.formats[0] == "source"@
                &&& message@.formats.contains("html"@) <==> view.html is Some
                &&& message@.formats.contains("plain"@) <==> view.text is Some
                &&& message@.html == view.html && message@.plain == view.text
            },
    {
        let msg = match parsed {
            Some(msg) => msg,
            None => {
                return Err(ParseError::Malformed);
            },
        };
        let view = match ParsedMessage::read(&msg) {
            Some(view) => view,
            None => {
                return Err(ParseError::Malformed);
            },
        };
        let count = view.attachments.len();
        let mut cids: Vec<String> = Vec::new();
        while cids.len() < count
            invariant
                cids@.len() <= count,
                forall|i: int| 0 <= i < cids@.len() ==> token::is_token((#[trigger] cids@[i])@),
            decreases count - cids@.len(),
        {
            cids.push(token::fresh());
        }
        let created_at = clock::local_now(clock::TIMESTAMP_FORMAT);
        let source = data.clone();
        assert(source@ =~= data@);
        let ghost seen = view@;
        let ghost stamp = created_at@;
        let ghost tokens = cids.deep_view();
        let r = normalizer::normalize(view, source, created_at, cids);
        proof {
            if r is Ok {
                assert(r.unwrap()@.cids() =~= tokens);
                if seen.from is None {
                    laws::sender_is_empty_without_from(seen, data@, stamp, tokens);
                }
                if seen.subject is None {
                    laws::subject_is_empty_without_subject(seen, data@, stamp, tokens);
                }
                laws::formats_follow_the_bodies(seen, data@, stamp, tokens);
            }
        }
        r
    }
}

/// A notification that announces a message to observers.
#[derive(Debug)]
pub struct MessageEvent {
    /// A free-form tag, such as `new`.
    pub event_type: String,
    /// The message that the event is about.
    pub message: Message,
}

/// The mathematical value of a [`MessageEvent`].
pub struct MessageEventView {
    pub event_type: Seq<char>,
    pub message: MessageView,
}

impl View for MessageEvent {
    type V = MessageEventView;

    open spec fn view(&self) -> MessageEventView {
        MessageEventView { event_type: self.event_type@, message: self.message@ }
    }
}

impl Clone for MessageEvent {
    /// A copy with the same value.
    fn clone(&self) -> (r: MessageEvent)
        ensures
            r@ == self@,
    {
        MessageEvent { event_type: self.event_type.clone(), message: self.message.clone() }
    }
}

impl Default for MessageEvent {
    /// An event with an empty tag around an empty message.
    fn default() -> (r: MessageEvent)
        ensures
            r@ == (MessageEventView { event_type: Seq::empty(), message: MessageView::empty() }),
    {
        MessageEvent { event_type: String::new(), message: Message::default() }
    }
}

} // verus!
