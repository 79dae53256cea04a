//! The boundary with the `mail_parser` crate.
//!
//! Nothing in this module is proved. Each type below is a parser type that the
//! verifier carries around without looking inside, each spec function without
//! a body names what one accessor of a parsed message returns, and each
//! executable function makes exactly that call. The accessors read no clock,
//! no environment and no random source, so what they return is a function of
//! their arguments.
//!
//! The parser itself is not called from this crate. `MessageParser::parse`
//! does not return on every input: there are bytes on which it indexes out of
//! range, and no simple condition on the bytes rules them out. So the crate
//! starts from the message that the caller has parsed, and promises of its
//! own functions that they return.
//!
//! The parser's `Message` goes by the name `Mail` here, to keep it apart from
//! the record of this crate.

use mail_parser::Message as Mail;
use vstd::prelude::*;

verus! {

/// `mail_parser::Message`: a parsed message.
#[verifier::external_type_specification]
#[verifier::external_body]
pub struct ExMessage<'x>(Mail<'x>);

/// `mail_parser::Address`: the value of an address header, a list or groups.
#[verifier::external_type_specification]
#[verifier::external_body]
pub struct ExAddress<'x>(mail_parser::Address<'x>);

/// `mail_parser::Addr`: one mailbox, a display name and an address.
#[verifier::external_type_specification]
#[verifier::external_body]
pub struct ExAddr<'x>(mail_parser::Addr<'x>);

/// `mail_parser::DateTime`: the value of a date header.
#[verifier::external_type_specification]
#[verifier::external_body]
pub struct ExDateTime(mail_parser::DateTime);

/// `mail_parser::MessagePart`: one MIME part of a message.
#[verifier::external_type_specification]
#[verifier::external_body]
pub struct ExMessagePart<'x>(mail_parser::MessagePart<'x>);

/// `mail_parser::ContentType`: the value of a Content-Type header.
#[verifier::external_type_specification]
#[verifier::external_body]
pub struct ExContentType<'x>(mail_parser::ContentType<'x>);

/// What `Message::is_empty` returns: whether the message has no part at all.
pub uninterp spec fn no_part_of(msg: Mail<'_>) -> bool;

/// What `Message::from` returns: the value of the From header.
pub uninterp spec fn from_of(msg: Mail<'_>) -> Option<mail_parser::Address<'_>>;

/// What `Message::to` returns: the value of the To header.
pub uninterp spec fn to_of(msg: Mail<'_>) -> Option<mail_parser::Address<'_>>;

/// What `Address::first` returns: the first mailbox of the header value.
pub uninterp spec fn first_of(list: mail_parser::Address<'_>) -> Option<mail_parser::Addr<'_>>;

/// What `Address::as_list` returns: the mailboxes, unless the value is groups.
pub uninterp spec fn list_of(list: mail_parser::Address<'_>) -> Option<Seq<mail_parser::Addr<'_>>>;

/// What `Addr::name` returns: the display name.
pub uninterp spec fn name_of(addr: mail_parser::Addr<'_>) -> Option<Seq<char>>;

/// What `Addr::address` returns: the address string.
pub uninterp spec fn address_of(addr: mail_parser::Addr<'_>) -> Option<Seq<char>>;

/// What `Message::subject` returns: the text of the Subject header.
pub uninterp spec fn subject_of(msg: Mail<'_>) -> Option<Seq<char>>;

/// What `Message::date` returns: the value of the Date header.
pub uninterp spec fn date_of(msg: Mail<'_>) -> Option<mail_parser::DateTime>;

/// What `DateTime::to_rfc822` returns: the date in RFC 822 text form.
pub uninterp spec fn rfc822_of(date: mail_parser::DateTime) -> Seq<char>;

/// What `Message::html_body_count` returns.
pub uninterp spec fn html_body_count_of(msg: Mail<'_>) -> usize;

/// What `Message::body_html` returns for the body part at `pos`.
pub uninterp spec fn body_html_of(msg: Mail<'_>, pos: usize) -> Option<Seq<char>>;

/// What `Message::text_body_count` returns.
pub uninterp spec fn text_body_count_of(msg: Mail<'_>) -> usize;

/// What `Message::body_text` returns for the body part at `pos`.
pub uninterp spec fn body_text_of(msg: Mail<'_>, pos: usize) -> Option<Seq<char>>;

/// What the iterator of `Message::attachments` yields, in its order.
pub uninterp spec fn attachments_of(msg: Mail<'_>) -> Seq<
    mail_parser::MessagePart<'_>,
>;

/// What `MimeHeaders::attachment_name` returns for a part.
pub uninterp spec fn attachment_name_of(part: mail_parser::MessagePart<'_>) -> Option<Seq<char>>;

/// What `MimeHeaders::content_type` returns for a part.
pub uninterp spec fn content_type_of(part: mail_parser::MessagePart<'_>) -> Option<
    mail_parser::ContentType<'_>,
>;

/// What `ContentType::ctype` returns: the main type.
pub uninterp spec fn ctype_of(content_type: mail_parser::ContentType<'_>) -> Seq<char>;

/// What `MessagePart::message` returns: the message nested in the part,
/// where its body is one.
pub uninterp spec fn message_of(part: mail_parser::MessagePart<'_>) -> Option<Mail<'_>>;

/// What `MessagePart::contents` returns: the bytes of the part's body.
pub uninterp spec fn contents_of(part: mail_parser::MessagePart<'_>) -> Seq<u8>;

/// Whether `MessagePart::contents` can be called on the part: on a nested
/// message it reads that message's first part, which has to be there.
pub open spec fn has_contents(part: mail_parser::MessagePart<'_>) -> bool {
    match message_of(part) {
        Some(nested) => !no_part_of(nested),
        None => true,
    }
}

/// Calls `Message::is_empty`.
#[verifier::external_body]
pub(crate) fn is_empty(msg: &Mail<'_>) -> (r: bool)
    ensures
        r == no_part_of(*msg),
{
    msg.is_empty()
}

/// Calls `Message::from`, which reads the headers of the first part: the
/// message has to have one.
#[verifier::external_body]
pub(crate) fn from<'a>(msg: &'a Mail<'a>) -> (r: Option<
    &'a mail_parser::Address<'a>,
>)
    requires
        !no_part_of(*msg),
    ensures
        r matches Some(a) ==> from_of(*msg) == Some(*a),
        r is None ==> from_of(*msg) is None,
{
    msg.from()
}

/// Calls `Message::to`, which reads the headers of the first part: the
/// message has to have one.
#[verifier::external_body]
pub(crate) fn to<'a>(msg: &'a Mail<'a>) -> (r: Option<
    &'a mail_parser::Address<'a>,
>)
    requires
        !no_part_of(*msg),
    ensures
        r matches Some(a) ==> to_of(*msg) == Some(*a),
        r is None ==> to_of(*msg) is None,
{
    msg.to()
}

/// Calls `Address::first`.
#[verifier::external_body]
pub(crate) fn first<'a>(list: &'a mail_parser::Address<'a>) -> (r: Option<
    &'a mail_parser::Addr<'a>,
>)
    ensures
        r matches Some(a) ==> first_of(*list) == Some(*a),
        r is None ==> first_of(*list) is None,
{
    list.first()
}

/// Calls `Address::as_list`.
#[verifier::external_body]
pub(crate) fn as_list<'a>(list: &'a mail_parser::Address<'a>) -> (r: Option<
    &'a [mail_parser::Addr<'a>],
>)
    ensures
        r matches Some(l) ==> list_of(*list) == Some(l@),
        r is None ==> list_of(*list) is None,
{
    list.as_list()
}

/// Calls `Addr::name` and copies the text.
#[verifier::external_body]
pub(crate) fn name(addr: &mail_parser::Addr<'_>) -> (r: Option<String>)
    ensures
        r.deep_view() == name_of(*addr),
{
    addr.name().map(str::to_owned)
}

/// Calls `Addr::address` and copies the text.
#[verifier::external_body]
pub(crate) fn address(addr: &mail_parser::Addr<'_>) -> (r: Option<String>)
    ensures
        r.deep_view() == address_of(*addr),
{
    addr.address().map(str::to_owned)
}

/// Calls `Message::subject` and copies the text. The call reads the headers
/// of the first part: the message has to have one.
#[verifier::external_body]
pub(crate) fn subject(msg: &Mail<'_>) -> (r: Option<String>)
    requires
        !no_part_of(*msg),
    ensures
        r.deep_view() == subject_of(*msg),
{
    msg.subject().map(str::to_owned)
}

/// Calls `Message::date`, which reads the headers of the first part: the
/// message has to have one.
#[verifier::external_body]
pub(crate) fn date<'a>(msg: &'a Mail<'a>) -> (r: Option<
    &'a mail_parser::DateTime,
>)
    requires
        !no_part_of(*msg),
    ensures
        r matches Some(d) ==> date_of(*msg) == Some(*d),
        r is None ==> date_of(*msg) is None,
{
    msg.date()
}

/// Calls `DateTime::to_rfc822`.
#[verifier::external_body]
pub(crate) fn to_rfc822(date: &mail_parser::DateTime) -> (r: String)
    ensures
        r@ == rfc822_of(*date),
{
    date.to_rfc822()
}

/// Calls `Message::html_body_count`.
#[verifier::external_body]
pub(crate) fn html_body_count(msg: &Mail<'_>) -> (r: usize)
    ensures
        r == html_body_count_of(*msg),
{
    msg.html_body_count()
}

/// Calls `Message::body_html` and copies the text.
#[verifier::external_body]
pub(crate) fn body_html(msg: &Mail<'_>, pos: usize) -> (r: Option<String>)
    ensures
        r.deep_view() == body_html_of(*msg, pos),
{
    msg.body_html(pos).map(|text| text.into_owned())
}

/// Calls `Message::text_body_count`.
#[verifier::external_body]
pub(crate) fn text_body_count(msg: &Mail<'_>) -> (r: usize)
    ensures
        r == text_body_count_of(*msg),
{
    msg.text_body_count()
}

/// Calls `Message::body_text` and copies the text.
#[verifier::external_body]
pub(crate) fn body_text(msg: &Mail<'_>, pos: usize) -> (r: Option<String>)
    ensures
        r.deep_view() == body_text_of(*msg, pos),
{
    msg.body_text(pos).map(|text| text.into_owned())
}

/// Calls `Message::attachments` and collects what the iterator yields.
#[verifier::external_body]
pub(crate) fn attachments<'a>(msg: &'a Mail<'a>) -> (r: Vec<
    &'a mail_parser::MessagePart<'a>,
>)
    ensures
        r@.len() == attachments_of(*msg).len(),
        forall|i: int| 0 <= i < r@.len() ==> *r@[i] == #[trigger] attachments_of(*msg)[i],
{
    msg.attachments().collect()
}

/// Calls `MimeHeaders::attachment_name` on a part and copies the text.
#[verifier::external_body]
pub(crate) fn attachment_name(part: &mail_parser::MessagePart<'_>) -> (r: Option<String>)
    ensures
        r.deep_view() == attachment_name_of(*part),
{
    mail_parser::MimeHeaders::attachment_name(part).map(str::to_owned)
}

/// Calls `MimeHeaders::content_type` on a part.
#[verifier::external_body]
pub(crate) fn content_type<'a>(part: &'a mail_parser::MessagePart<'a>) -> (r: Option<
    &'a mail_parser::ContentType<'a>,
>)
    ensures
        r matches Some(c) ==> content_type_of(*part) == Some(*c),
        r is None ==> content_type_of(*part) is None,
{
    mail_parser::MimeHeaders::content_type(part)
}

/// Calls `ContentType::ctype` and copies the text.
#[verifier::external_body]
pub(crate) fn ctype(content_type: &mail_parser::ContentType<'_>) -> (r: String)
    ensures
        r@ == ctype_of(*content_type),
{
    content_type.ctype().to_owned()
}

/// Calls `MessagePart::message`.
#[verifier::external_body]
pub(crate) fn message<'a>(part: &'a mail_parser::MessagePart<'a>) -> (r: Option<&'a Mail<'a>>)
    ensures
        r matches Some(nested) ==> message_of(*part) == Some(*nested),
        r is None ==> message_of(*part) is None,
{
    part.message()
}

/// Calls `MessagePart::contents` and copies the bytes. Of a nested message
/// the call gives the bytes of its first part, so a nested message without
/// any part is left out.
#[verifier::external_body]
pub(crate) fn contents(part: &mail_parser::MessagePart<'_>) -> (r: Vec<u8>)
    requires
        has_contents(*part),
    ensures
        r@ == contents_of(*part),
{
    part.contents().to_vec()
}

} // verus!
