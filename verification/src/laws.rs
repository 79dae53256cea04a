//! What holds of every normalized record, proved from the normalizer's
//! definition.

use crate::clock::is_timestamp;
use crate::models::message::MessageView;
use crate::normalizer::{attachments_of, formats_of, normalized, record, rejection};
use crate::parsed::{ParsedView, PartView};
use crate::token::is_digit;
use vstd::prelude::*;

verus! {

/// The three format names are three different texts.
pub proof fn format_names_differ()
    ensures
        "source"@ != "html"@,
        "source"@ != "plain"@,
        "html"@ != "plain"@,
{
    reveal_strlit("source");
    reveal_strlit("html");
    reveal_strlit("plain");
    assert("source"@.len() == 6 && "html"@.len() == 4 && "plain"@.len() == 5);
}

/// A view is normalized to a record exactly where it is not refused, and the
/// refusal does not depend on the bytes, the time stamp or the tokens.
pub proof fn success_is_decided_by_the_view(
    view: ParsedView,
    raw: Seq<u8>,
    created_at: Seq<char>,
    cids: Seq<Seq<char>>,
)
    ensures
        normalized(view, raw, created_at, cids) is Ok <==> rejection(view) is None,
        normalized(view, raw, created_at, cids) is Err ==> normalized(view, raw, created_at, cids)
            == Err::<MessageView, _>(rejection(view).unwrap()),
{
}

/// Without a From address the sender of the record is the empty string.
pub proof fn sender_is_empty_without_from(
    view: ParsedView,
    raw: Seq<u8>,
    created_at: Seq<char>,
    cids: Seq<Seq<char>>,
)
    requires
        view.from is None,
    ensures
        record(view, raw, created_at, cids).sender == ""@,
        record(view, raw, created_at, cids).sender.len() == 0,
{
    reveal_strlit("");
}

/// Without a To header the record has no recipients.
pub proof fn recipients_are_empty_without_to(
    view: ParsedView,
    raw: Seq<u8>,
    created_at: Seq<char>,
    cids: Seq<Seq<char>>,
)
    requires
        view.to is None,
    ensures
        record(view, raw, created_at, cids).recipients.len() == 0,
{
}

/// With a To header the record has one recipient for each entry, in header
/// order: the entry's address, or the empty string where it has none.
pub proof fn recipients_follow_the_header(
    view: ParsedView,
    raw: Seq<u8>,
    created_at: Seq<char>,
    cids: Seq<Seq<char>>,
)
    requires
        view.to is Some,
    ensures
        record(view, raw, created_at, cids).recipients.len() == view.to.unwrap().len(),
        forall|i: int|
            0 <= i < view.to.unwrap().len() ==> #[trigger] record(
                view,
                raw,
                created_at,
                cids,
            ).recipients[i] == (match view.to.unwrap()[i].address {
                Some(address) => address,
                None => ""@,
            }),
{
}

/// Without a Subject header the subject of the record is the empty string.
pub proof fn subject_is_empty_without_subject(
    view: ParsedView,
    raw: Seq<u8>,
    created_at: Seq<char>,
    cids: Seq<Seq<char>>,
)
    requires
        view.subject is None,
    ensures
        record(view, raw, created_at, cids).subject == ""@,
        record(view, raw, created_at, cids).subject.len() == 0,
{
    reveal_strlit("");
}

/// The formats start with `source`. `html` is among them exactly where the
/// view has an HTML body and `plain` exactly where it has a text body; each
/// name occurs once at most, and `html` stands before `plain`. The bodies of
/// the record are those of the view.
pub proof fn formats_follow_the_bodies(
    view: ParsedView,
    raw: Seq<u8>,
    created_at: Seq<char>,
    cids: Seq<Seq<char>>,
)
    ensures
        ({
            let made = record(view, raw, created_at, cids);
            &&& made.formats.len() >= 1
            &&& made.formats[0] == "source"@
            &&& made.formats.contains("html"@) <==> view.html is Some
            &&& made.formats.contains("plain"@) <==> view.text is Some
            &&& made.html == view.html
            &&& made.plain == view.text
            &&& made.formats.no_duplicates()
            &&& forall|i: int, j: int|
                0 <= i < made.formats.len() && 0 <= j < made.formats.len() && made.formats[i]
                    == "html"@ && made.formats[j] == "plain"@ ==> i < j
        }),
{
    format_names_differ();
    let formats = formats_of(view.html is Some, view.text is Some);
    assert(formats[0] == "source"@);
    if view.html is Some {
        assert(formats[1] == "html"@);
        if view.text is Some {
            assert(formats[2] == "plain"@);
        }
    } else if view.text is Some {
        assert(formats[1] == "plain"@);
    }
}

/// The formats are one of four lists, by the bodies that are there.
pub proof fn formats_are_one_of_four(html: bool, plain: bool)
    ensures
        !html && !plain ==> formats_of(html, plain) == seq!["source"@],
        html && !plain ==> formats_of(html, plain) == seq!["source"@, "html"@],
        !html && plain ==> formats_of(html, plain) == seq!["source"@, "plain"@],
        html && plain ==> formats_of(html, plain) == seq!["source"@, "html"@, "plain"@],
{
    assert(!html && !plain ==> formats_of(html, plain) =~= seq!["source"@]);
    assert(html && !plain ==> formats_of(html, plain) =~= seq!["source"@, "html"@]);
    assert(!html && plain ==> formats_of(html, plain) =~= seq!["source"@, "plain"@]);
    assert(html && plain ==> formats_of(html, plain) =~= seq!["source"@, "html"@, "plain"@]);
}

/// Attachment `i` of a record carries token `i`: where the tokens handed in
/// differ from each other, so do the tokens of the attachments.
pub proof fn distinct_tokens_stay_distinct(parts: Seq<PartView>, cids: Seq<Seq<char>>)
    requires
        cids.len() == parts.len(),
        forall|i: int, j: int| 0 <= i < j < cids.len() ==> cids[i] != cids[j],
    ensures
        attachments_of(parts, cids).len() == parts.len(),
        forall|i: int| 0 <= i < parts.len() ==> (#[trigger] attachments_of(parts, cids)[i]).cid == cids[i],
        forall|i: int, j: int|
            0 <= i < j < parts.len() ==> (#[trigger] attachments_of(parts, cids)[i]).cid != (
            #[trigger] attachments_of(parts, cids)[j]).cid,
{
}

/// Where no token of one normalization is a token of another, no attachment
/// of the one record shares its token with an attachment of the other.
pub proof fn tokens_of_two_records_stay_apart(
    first_parts: Seq<PartView>,
    first_cids: Seq<Seq<char>>,
    second_parts: Seq<PartView>,
    second_cids: Seq<Seq<char>>,
)
    requires
        first_cids.len() == first_parts.len(),
        second_cids.len() == second_parts.len(),
        forall|i: int, j: int|
            0 <= i < first_cids.len() && 0 <= j < second_cids.len() ==> first_cids[i]
                != second_cids[j],
    ensures
        forall|i: int, j: int|
            0 <= i < first_parts.len() && 0 <= j < second_parts.len() ==> (
            #[trigger] attachments_of(first_parts, first_cids)[i]).cid != (
            #[trigger] attachments_of(second_parts, second_cids)[j]).cid,
{
}

/// Two records made with tokens of which none was handed out twice share no
/// token: within the first record every two attachments differ in their
/// token, and no attachment of the first has the token of an attachment of
/// the second. This holds whatever the attachments hold, also where two of
/// them agree in name, type and bytes, and also where both records are made
/// of the same view.
pub proof fn records_share_no_token(
    first: ParsedView,
    first_raw: Seq<u8>,
    first_created_at: Seq<char>,
    first_cids: Seq<Seq<char>>,
    second: ParsedView,
    second_raw: Seq<u8>,
    second_created_at: Seq<char>,
    second_cids: Seq<Seq<char>>,
)
    requires
        first_cids.len() == first.attachments.len(),
        second_cids.len() == second.attachments.len(),
        forall|i: int, j: int| 0 <= i < j < first_cids.len() ==> first_cids[i] != first_cids[j],
        forall|i: int, k: int|
            0 <= i < first_cids.len() && 0 <= k < second_cids.len() ==> first_cids[i]
                != second_cids[k],
    ensures
        ({
            let one = record(first, first_raw, first_created_at, first_cids).attachments;
            let two = record(second, second_raw, second_created_at, second_cids).attachments;
            &&& one.len() == first.attachments.len()
            &&& two.len() == second.attachments.len()
            &&& forall|i: int, j: int|
                0 <= i < one.len() && 0 <= j < one.len() && i != j ==> one[i].cid != one[j].cid
            &&& forall|i: int, k: int|
                0 <= i < one.len() && 0 <= k < two.len() ==> one[i].cid != two[k].cid
        }),
{
    let one = record(first, first_raw, first_created_at, first_cids).attachments;
    let two = record(second, second_raw, second_created_at, second_cids).attachments;
    assert forall|i: int, j: int|
        0 <= i < one.len() && 0 <= j < one.len() && i != j implies one[i].cid != one[j].cid by {
        if i < j {
            assert(first_cids[i] != first_cids[j]);
        } else {
            assert(first_cids[j] != first_cids[i]);
        }
    }
    assert forall|i: int, k: int| 0 <= i < one.len() && 0 <= k < two.len() implies one[i].cid
        != two[k].cid by {
        assert(first_cids[i] != second_cids[k]);
    }
}

/// A time stamp of nineteen characters, as every year from 0 to 9999 gives
/// it, reads `YYYY-MM-DD HH:MM:SS`: hyphens at 4 and 7, a space at 10, colons
/// at 13 and 16, a digit everywhere else.
pub proof fn timestamp_of_nineteen_characters(text: Seq<char>)
    requires
        is_timestamp(text),
        text.len() == 19,
    ensures
        text[4] == '-' && text[7] == '-',
        text[10] == ' ',
        text[13] == ':' && text[16] == ':',
        forall|i: int|
            0 <= i < 19 && i != 4 && i != 7 && i != 10 && i != 13 && i != 16 ==> is_digit(
                #[trigger] text[i],
            ),
{
}

/// Every record that normalization makes is well formed.
pub proof fn record_is_well_formed(
    view: ParsedView,
    raw: Seq<u8>,
    created_at: Seq<char>,
    cids: Seq<Seq<char>>,
)
    ensures
        record(view, raw, created_at, cids).well_formed(),
{
}

/// The record keeps what it was given: the bytes as its source, the time
/// stamp, the date of the view; and it has no identifier yet.
pub proof fn record_keeps_its_inputs(
    view: ParsedView,
    raw: Seq<u8>,
    created_at: Seq<char>,
    cids: Seq<Seq<char>>,
)
    ensures
        record(view, raw, created_at, cids).source == raw,
        record(view, raw, created_at, cids).created_at == Some(created_at),
        record(view, raw, created_at, cids).date == view.date,
        record(view, raw, created_at, cids).id is None,
        record(view, raw, created_at, cids).attachments.len() == view.attachments.len(),
{
}

} // verus!
