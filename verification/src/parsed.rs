//! The parsed view of a message: what the normalizer reads of it, as plain
//! values, and how that view is read off a message the parser produced.

use crate::mime;
use mail_parser::Message as Mail;
use vstd::prelude::*;

verus! {

/// One address of an address header.
#[derive(Debug)]
pub struct Mailbox {
    /// The display name, if the entry has one.
    pub name: Option<String>,
    /// The address string, if the entry has one.
    pub address: Option<String>,
}

/// The mathematical value of a [`Mailbox`].
pub struct MailboxView {
    pub name: Option<Seq<char>>,
    pub address: Option<Seq<char>>,
}

impl View for Mailbox {
    type V = MailboxView;

    open spec fn view(&self) -> MailboxView {
        MailboxView { name: self.name.deep_view(), address: self.address.deep_view() }
    }
}

impl DeepView for Mailbox {
    type V = MailboxView;

    open spec fn deep_view(&self) -> MailboxView {
        self.view()
    }
}

impl Clone for Mailbox {
    /// A copy with the same value.
    fn clone(&self) -> (r: Mailbox)
        ensures
            r@ == self@,
    {
        Mailbox { name: self.name.clone(), address: self.address.clone() }
    }
}

/// One attachment as the parser describes it.
#[derive(Debug)]
pub struct Part {
    /// The declared file name, if any.
    pub filename: Option<String>,
    /// The main type of the declared content type, if one is declared.
    pub content_type: Option<String>,
    /// The raw bytes of the attachment.
    pub contents: Vec<u8>,
}

/// The mathematical value of a [`Part`].
pub struct PartView {
    pub filename: Option<Seq<char>>,
    pub content_type: Option<Seq<char>>,
    pub contents: Seq<u8>,
}

impl View for Part {
    type V = PartView;

    open spec fn view(&self) -> PartView {
        PartView {
            filename: self.filename.deep_view(),
            content_type: self.content_type.deep_view(),
            contents: self.contents@,
        }
    }
}

impl DeepView for Part {
    type V = PartView;

    open spec fn deep_view(&self) -> PartView {
        self.view()
    }
}

impl Clone for Part {
    /// A copy with the same value.
    fn clone(&self) -> (r: Part)
        ensures
            r@ == self@,
    {
        let contents = self.contents.clone();
        assert(contents@ =~= self.contents@);
        Part {
            filename: self.filename.clone(),
            content_type: self.content_type.clone(),
            contents,
        }
    }
}

/// Everything the normalizer reads of a parsed message.
#[derive(Debug)]
pub struct ParsedMessage {
    /// The first address of the From header, if there is one.
    pub from: Option<Mailbox>,
    /// The addresses of the To header in header order, if it is a plain list.
    pub to: Option<Vec<Mailbox>>,
    /// The text of the Subject header.
    pub subject: Option<String>,
    /// The Date header in RFC 822 text form.
    pub date: Option<String>,
    /// The decoded first HTML body part, if the message has an HTML body.
    /// Where the parser counts an HTML body part and has no text for the
    /// first one, as for a message that is a lone inline image, this is
    /// `None`: the message then has no HTML body.
    pub html: Option<String>,
    /// The decoded first plain-text body part, if the message has a text
    /// body. Where the parser counts a text body part and has no text for the
    /// first one, this is `None`: the message then has no text body.
    pub text: Option<String>,
    /// The attachments, in the order the parser yields them.
    pub attachments: Vec<Part>,
}

/// The mathematical value of a [`ParsedMessage`].
pub struct ParsedView {
    pub from: Option<MailboxView>,
    pub to: Option<Seq<MailboxView>>,
    pub subject: Option<Seq<char>>,
    pub date: Option<Seq<char>>,
    pub html: Option<Seq<char>>,
    pub text: Option<Seq<char>>,
    pub attachments: Seq<PartView>,
}

impl View for ParsedMessage {
    type V = ParsedView;

    open spec fn view(&self) -> ParsedView {
        ParsedView {
            from: self.from.deep_view(),
            to: self.to.deep_view(),
            subject: self.subject.deep_view(),
            date: self.date.deep_view(),
            html: self.html.deep_view(),
            text: self.text.deep_view(),
            attachments: self.attachments.deep_view(),
        }
    }
}

impl DeepView for ParsedMessage {
    type V = ParsedView;

    open spec fn deep_view(&self) -> ParsedView {
        self.view()
    }
}

impl Clone for ParsedMessage {
    /// A copy with the same value.
    fn clone(&self) -> (r: ParsedMessage)
        ensures
            r@ == self@,
    {
        let to = match &self.to {
            Some(list) => {
                let copy = list.clone();
                assert(copy.deep_view() =~= list.deep_view());
                Some(copy)
            },
            None => None,
        };
        let attachments = self.attachments.clone();
        assert(attachments.deep_view() =~= self.attachments.deep_view());
        ParsedMessage {
            from: self.from.clone(),
            to,
            subject: self.subject.clone(),
            date: self.date.clone(),
            html: self.html.clone(),
            text: self.text.clone(),
            attachments,
        }
    }
}

/// The value of one parser mailbox.
pub open spec fn mailbox_view(addr: mail_parser::Addr<'_>) -> MailboxView {
    MailboxView { name: mime::name_of(addr), address: mime::address_of(addr) }
}

/// The first address of the parser's From header value.
pub open spec fn from_view(msg: Mail<'_>) -> Option<MailboxView> {
    match mime::from_of(msg) {
        Some(list) => match mime::first_of(list) {
            Some(addr) => Some(mailbox_view(addr)),
            None => None,
        },
        None => None,
    }
}

/// The addresses of the parser's To header value, where it is a plain list.
pub open spec fn to_view(msg: Mail<'_>) -> Option<Seq<MailboxView>> {
    match mime::to_of(msg) {
        Some(list) => match mime::list_of(list) {
            Some(addrs) => Some(Seq::new(addrs.len(), |i: int| mailbox_view(addrs[i]))),
            None => None,
        },
        None => None,
    }
}

/// The parser's Date header value as RFC 822 text.
pub open spec fn date_view(msg: Mail<'_>) -> Option<Seq<char>> {
    match mime::date_of(msg) {
        Some(date) => Some(mime::rfc822_of(date)),
        None => None,
    }
}

/// The first HTML body part, where the parser counts at least one and has
/// text for it.
pub open spec fn html_view(msg: Mail<'_>) -> Option<Seq<char>> {
    if mime::html_body_count_of(msg) > 0 {
        mime::body_html_of(msg, 0)
    } else {
        None
    }
}

/// The first plain-text body part, where the parser counts at least one and
/// has text for it.
pub open spec fn text_view(msg: Mail<'_>) -> Option<Seq<char>> {
    if mime::text_body_count_of(msg) > 0 {
        mime::body_text_of(msg, 0)
    } else {
        None
    }
}

/// The bytes of one parser attachment. A nested message in which the parser
/// found no part at all has no bytes.
pub open spec fn contents_view(part: mail_parser::MessagePart<'_>) -> Seq<u8> {
    if mime::has_contents(part) {
        mime::contents_of(part)
    } else {
        Seq::empty()
    }
}

/// The value of one parser attachment.
pub open spec fn part_view(part: mail_parser::MessagePart<'_>) -> PartView {
    PartView {
        filename: mime::attachment_name_of(part),
        content_type: match mime::content_type_of(part) {
            Some(content_type) => Some(mime::ctype_of(content_type)),
            None => None,
        },
        contents: contents_view(part),
    }
}

/// The parser's attachments, each by its value.
pub open spec fn attachments_view(msg: Mail<'_>) -> Seq<PartView> {
    Seq::new(mime::attachments_of(msg).len(), |i: int| part_view(mime::attachments_of(msg)[i]))
}

/// The parsed view of a message the parser produced.
pub open spec fn view_of(msg: Mail<'_>) -> ParsedView {
    ParsedView {
        from: from_view(msg),
        to: to_view(msg),
        subject: mime::subject_of(msg),
        date: date_view(msg),
        html: html_view(msg),
        text: text_view(msg),
        attachments: attachments_view(msg),
    }
}

/// What can be read off a parser message: nothing where it has no part at
/// all, else its parsed view.
pub open spec fn read_view(msg: Mail<'_>) -> Option<ParsedView> {
    if mime::no_part_of(msg) {
        None
    } else {
        Some(view_of(msg))
    }
}

/// The parsed view of what the parser returned: `None` where it returned no
/// message, or one without any part.
pub open spec fn parsed_view(parsed: Option<Mail<'_>>) -> Option<ParsedView> {
    match parsed {
        Some(msg) => read_view(msg),
        None => None,
    }
}

fn read_mailbox(addr: &mail_parser::Addr<'_>) -> (r: Mailbox)
    ensures
        r@ == mailbox_view(*addr),
{
    Mailbox { name: mime::name(addr), address: mime::address(addr) }
}

fn read_from<'a>(msg: &'a Mail<'a>) -> (r: Option<Mailbox>)
    requires
        !mime::no_part_of(*msg),
    ensures
        r.deep_view() == from_view(*msg),
{
    match mime::from(msg) {
        Some(list) => match mime::first(list) {
            Some(addr) => Some(read_mailbox(addr)),
            None => None,
        },
        None => None,
    }
}

fn read_to<'a>(msg: &'a Mail<'a>) -> (r: Option<Vec<Mailbox>>)
    requires
        !mime::no_part_of(*msg),
    ensures
        r.deep_view() == to_view(*msg),
{
    match mime::to(msg) {
        Some(list) => match mime::as_list(list) {
            Some(addrs) => {
                let mut out: Vec<Mailbox> = Vec::new();
                let mut i: usize = 0;
                while i < addrs.len()
                    invariant
                        i <= addrs@.len(),
                        out@.len() == i,
                        forall|j: int| 0 <= j < i ==> (#[trigger] out@[j])@ == mailbox_view(addrs@[j]),
                    decreases addrs@.len() - i,
                {
                    out.push(read_mailbox(&addrs[i]));
                    i += 1;
                }
                assert(out.deep_view() =~= Seq::new(
                    addrs@.len(),
                    |i: int| mailbox_view(addrs@[i]),
                ));
                Some(out)
            },
            None => None,
        },
        None => None,
    }
}

fn read_date<'a>(msg: &'a Mail<'a>) -> (r: Option<String>)
    requires
        !mime::no_part_of(*msg),
    ensures
        r.deep_view() == date_view(*msg),
{
    match mime::date(msg) {
        Some(date) => Some(mime::to_rfc822(date)),
        None => None,
    }
}

fn read_html(msg: &Mail<'_>) -> (r: Option<String>)
    ensures
        r.deep_view() == html_view(*msg),
{
    if mime::html_body_count(msg) > 0 {
        mime::body_html(msg, 0)
    } else {
        None
    }
}

fn read_text(msg: &Mail<'_>) -> (r: Option<String>)
    ensures
        r.deep_view() == text_view(*msg),
{
    if mime::text_body_count(msg) > 0 {
        mime::body_text(msg, 0)
    } else {
        None
    }
}

fn read_contents<'a>(part: &'a mail_parser::MessagePart<'a>) -> (r: Vec<u8>)
    ensures
        r@ == contents_view(*part),
{
    let readable = match mime::message(part) {
        Some(nested) => !mime::is_empty(nested),
        None => true,
    };
    if readable {
        mime::contents(part)
    } else {
        Vec::new()
    }
}

fn read_part<'a>(part: &'a mail_parser::MessagePart<'a>) -> (r: Part)
    ensures
        r@ == part_view(*part),
{
    let content_type = match mime::content_type(part) {
        Some(content_type) => Some(mime::ctype(content_type)),
        None => None,
    };
    Part { filename: mime::attachment_name(part), content_type, contents: read_contents(part) }
}

fn read_attachments<'a>(msg: &'a Mail<'a>) -> (r: Vec<Part>)
    ensures
        r.deep_view() == attachments_view(*msg),
{
    let parts = mime::attachments(msg);
    let mut out: Vec<Part> = Vec::new();
    let mut i: usize = 0;
    while i < parts.len()
        invariant
            i <= parts@.len(),
            out@.len() == i,
            parts@.len() == mime::attachments_of(*msg).len(),
            forall|j: int|
                0 <= j < parts@.len() ==> *parts@[j] == #[trigger] mime::attachments_of(*msg)[j],
            forall|j: int|
                0 <= j < i ==> (#[trigger] out@[j])@ == part_view(mime::attachments_of(*msg)[j]),
        decreases parts@.len() - i,
    {
        out.push(read_part(parts[i]));
        i += 1;
    }
    assert(out.deep_view() =~= attachments_view(*msg));
    out
}

impl ParsedMessage {
    /// Reads the parsed view off a parser message. A message without any
    /// part, which can be built by hand, has no headers to read: the result
    /// is `None` for it, and for no other.
    pub fn read<'a>(msg: &'a Mail<'a>) -> (r: Option<ParsedMessage>)
        ensures
            r.deep_view() == read_view(*msg),
    {
        if mime::is_empty(msg) {
            return None;
        }
        Some(
            ParsedMessage {
                from: read_from(msg),
                to: read_to(msg),
                subject: mime::subject(msg),
                date: read_date(msg),
                html: read_html(msg),
                text: read_text(msg),
                attachments: read_attachments(msg),
            },
        )
    }
}

} // verus!
