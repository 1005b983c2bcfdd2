//! The message that is sent: four addresses, a subject and two parts.

use crate::address::{
    mailbox_syntax, optional_mailbox, optional_text, parse_mailbox, Mailbox, MailboxView,
};
use crate::report::{base_name, base_name_of, is_base_name, ReportContent, ReportContentView};
use crate::request::{SendRequest, SendRequestView};
use crate::stamp::{is_stamp, stamp_text, stamp_text_is_stamp, Timestamp, TimestampView};
use vstd::prelude::*;
use vstd::string::*;

verus! {

/// Which of the four addresses of a request is meant.
#[derive(Clone, Copy, Debug, PartialEq, Eq, Structural)]
pub enum AddressField {
    Sender,
    Recipient,
    Cc,
    Bcc,
}

/// Mathematical model of a [`ComposeError`].
pub struct ComposeErrorView {
    pub field: AddressField,
    pub cause: Seq<char>,
}

/// An address of the request is no mail address: which one, and what the
/// address parser said of it.
#[derive(Debug)]
pub struct ComposeError {
    pub field: AddressField,
    pub cause: String,
}

impl View for ComposeError {
    type V = ComposeErrorView;

    open spec fn view(&self) -> ComposeErrorView {
        ComposeErrorView { field: self.field, cause: self.cause@ }
    }
}

/// How the diagnostic of a rejected address begins.
pub open spec fn field_label(field: AddressField) -> Seq<char> {
    match field {
        AddressField::Sender => "解析发送邮箱地址失败:"@,
        AddressField::Recipient => "解析收件邮箱地址失败: "@,
        AddressField::Cc => "解析抄送邮箱地址失败: "@,
        AddressField::Bcc => "解析密送邮箱地址失败: "@,
    }
}

impl ComposeErrorView {
    /// The diagnostic shown to the user: it names the address and gives
    /// the parser's cause.
    pub open spec fn diagnostic(self) -> Seq<char> {
        field_label(self.field) + ": "@ + self.cause
    }
}

impl ComposeError {
    /// The diagnostic shown to the user.
    pub fn diagnostic(&self) -> (text: String)
        ensures
            text@ == self@.diagnostic(),
    {
        let mut text = match self.field {
            AddressField::Sender => String::from_str("解析发送邮箱地址失败:"),
            AddressField::Recipient => String::from_str("解析收件邮箱地址失败: "),
            AddressField::Cc => String::from_str("解析抄送邮箱地址失败: "),
            AddressField::Bcc => String::from_str("解析密送邮箱地址失败: "),
        };
        text.append(": ");
        text.append(self.cause.as_str());
        text
    }
}

/// Mathematical model of an [`InlinePart`].
pub struct InlinePartView {
    pub media_type: Seq<char>,
    pub charset: Seq<char>,
    pub content: Seq<char>,
}

/// The part of the body that mail readers show in place: a text, with the
/// character set in which it is sent.
#[derive(Debug)]
pub struct InlinePart {
    pub media_type: String,
    pub charset: String,
    pub content: String,
}

impl View for InlinePart {
    type V = InlinePartView;

    open spec fn view(&self) -> InlinePartView {
        InlinePartView {
            media_type: self.media_type@,
            charset: self.charset@,
            content: self.content@,
        }
    }
}

/// Mathematical model of an [`AttachmentPart`].
pub struct AttachmentPartView {
    pub filename: Seq<char>,
    pub media_type: Seq<char>,
    pub content: Seq<u8>,
}

/// The part of the body that carries the report as a file.
#[derive(Debug)]
pub struct AttachmentPart {
    pub filename: String,
    pub media_type: String,
    pub content: Vec<u8>,
}

impl View for AttachmentPart {
    type V = AttachmentPartView;

    open spec fn view(&self) -> AttachmentPartView {
        AttachmentPartView {
            filename: self.filename@,
            media_type: self.media_type@,
            content: self.content@,
        }
    }
}

/// Mathematical model of a [`ComposedMessage`].
pub struct ComposedMessageView {
    pub from: MailboxView,
    pub to: MailboxView,
    pub cc: Option<MailboxView>,
    pub bcc: Option<MailboxView>,
    pub subject: Seq<char>,
    pub inline: InlinePartView,
    pub attachment: AttachmentPartView,
}

/// A message ready to be handed to the transport. Its body has exactly two
/// parts, in this order: the inline part, then the attachment.
#[derive(Debug)]
pub struct ComposedMessage {
    pub from: Mailbox,
    pub to: Mailbox,
    pub cc: Option<Mailbox>,
    pub bcc: Option<Mailbox>,
    pub subject: String,
    pub inline: InlinePart,
    pub attachment: AttachmentPart,
}

impl View for ComposedMessage {
    type V = ComposedMessageView;

    open spec fn view(&self) -> ComposedMessageView {
        ComposedMessageView {
            from: self.from@,
            to: self.to@,
            cc: optional_mailbox(self.cc),
            bcc: optional_mailbox(self.bcc),
            subject: self.subject@,
            inline: self.inline@,
            attachment: self.attachment@,
        }
    }
}

/// The media type of both parts.
pub open spec fn html_media_type() -> Seq<char> {
    "text/html"@
}

/// The character set of the inline text.
pub open spec fn inline_charset() -> Seq<char> {
    "utf-8"@
}

/// The subject of a message composed at the moment that `stamp` spells.
pub open spec fn subject_text(stamp: Seq<char>) -> Seq<char> {
    "Linux应急响应报告"@ + " - "@ + stamp
}

/// `text` is a subject line: the fixed prefix, ` - `, and a text of the
/// shape `YYYY-MM-DD HH:MM:SS` that names a valid calendar moment.
pub open spec fn is_subject(text: Seq<char>) -> bool {
    exists|stamp: Seq<char>| is_stamp(stamp) && text == #[trigger] subject_text(stamp)
}

/// The subject of every valid moment is a subject line.
pub proof fn subject_is_stamped(stamp: TimestampView)
    requires
        stamp.valid(),
    ensures
        is_subject(subject_text(stamp_text(stamp))),
{
    stamp_text_is_stamp(stamp);
}

/// The model of the outcome of parsing one address.
pub open spec fn parsed_view(parsed: Result<Mailbox, String>) -> Result<MailboxView, Seq<char>> {
    match parsed {
        Ok(mailbox) => Ok(mailbox@),
        Err(cause) => Err(cause@),
    }
}

/// The model of the outcome of parsing an address that may be absent.
pub open spec fn parsed_optional_view(parsed: Result<Option<Mailbox>, String>) -> Result<
    Option<MailboxView>,
    Seq<char>,
> {
    match parsed {
        Ok(mailbox) => Ok(optional_mailbox(mailbox)),
        Err(cause) => Err(cause@),
    }
}

/// The model of the outcome of composing.
pub open spec fn composed_view(result: Result<ComposedMessage, ComposeError>) -> Result<
    ComposedMessageView,
    ComposeErrorView,
> {
    match result {
        Ok(message) => Ok(message@),
        Err(error) => Err(error@),
    }
}

/// What parsing makes of an address that may be absent: an absent address
/// is accepted as absent, a present one must be a mail address.
pub open spec fn optional_syntax(text: Option<Seq<char>>) -> Result<
    Option<MailboxView>,
    Seq<char>,
> {
    match text {
        None => Ok(None),
        Some(t) => match mailbox_syntax(t) {
            Ok(mailbox) => Ok(Some(mailbox)),
            Err(cause) => Err(cause),
        },
    }
}

/// The message made of four parsed addresses, a subject, a file name and
/// the report; or the first address, in the order sender, recipient, cc,
/// bcc, that was rejected.
pub open spec fn assembled(
    from: Result<MailboxView, Seq<char>>,
    to: Result<MailboxView, Seq<char>>,
    cc: Result<Option<MailboxView>, Seq<char>>,
    bcc: Result<Option<MailboxView>, Seq<char>>,
    subject: Seq<char>,
    filename: Seq<char>,
    content: ReportContentView,
) -> Result<ComposedMessageView, ComposeErrorView> {
    match (from, to, cc, bcc) {
        (Err(cause), _, _, _) => Err(ComposeErrorView { field: AddressField::Sender, cause }),
        (Ok(_), Err(cause), _, _) => Err(
            ComposeErrorView { field: AddressField::Recipient, cause },
        ),
        (Ok(_), Ok(_), Err(cause), _) => Err(ComposeErrorView { field: AddressField::Cc, cause }),
        (Ok(_), Ok(_), Ok(_), Err(cause)) => Err(
            ComposeErrorView { field: AddressField::Bcc, cause },
        ),
        (Ok(from), Ok(to), Ok(cc), Ok(bcc)) => Ok(
            ComposedMessageView {
                from,
                to,
                cc,
                bcc,
                subject,
                inline: InlinePartView {
                    media_type: html_media_type(),
                    charset: inline_charset(),
                    content: content.html_text,
                },
                attachment: AttachmentPartView {
                    filename,
                    media_type: html_media_type(),
                    content: content.raw_bytes,
                },
            },
        ),
    }
}

/// The message that a request, a report and a moment compose to.
pub open spec fn composed(
    request: SendRequestView,
    content: ReportContentView,
    stamp: TimestampView,
) -> Result<ComposedMessageView, ComposeErrorView> {
    assembled(
        mailbox_syntax(request.sender),
        mailbox_syntax(request.recipient),
        optional_syntax(request.cc),
        optional_syntax(request.bcc),
        subject_text(stamp_text(stamp)),
        base_name_of(request.report_path),
        content,
    )
}

/// The subject line for a message composed at `stamp`.
pub fn subject_line(stamp: &Timestamp) -> (subject: String)
    ensures
        subject@ == subject_text(stamp_text(stamp@)),
        is_subject(subject@),
{
    let text = stamp.text();
    let mut subject = String::from_str("Linux应急响应报告");
    subject.append(" - ");
    subject.append(text.as_str());
    assert(subject@ == subject_text(text@));
    subject
}

/// Parses an address that may be absent.
pub fn parse_optional(text: &Option<String>) -> (parsed: Result<Option<Mailbox>, String>)
    ensures
        parsed_optional_view(parsed) == optional_syntax(optional_text(*text)),
{
    match text {
        None => Ok(None),
        Some(t) => match parse_mailbox(t.as_str()) {
            Ok(mailbox) => Ok(Some(mailbox)),
            Err(cause) => Err(cause),
        },
    }
}

/// Puts a message together from the outcomes of parsing its four
/// addresses. The first rejected address, in the order sender, recipient,
/// cc, bcc, decides the error; with none rejected the message carries the
/// report text inline, as UTF-8, and the report bytes as attachment, both
/// as `text/html`.
pub fn assemble(
    from: Result<Mailbox, String>,
    to: Result<Mailbox, String>,
    cc: Result<Option<Mailbox>, String>,
    bcc: Result<Option<Mailbox>, String>,
    subject: String,
    filename: String,
    content: &ReportContent,
) -> (result: Result<ComposedMessage, ComposeError>)
    ensures
        composed_view(result) == assembled(
            parsed_view(from),
            parsed_view(to),
            parsed_optional_view(cc),
            parsed_optional_view(bcc),
            subject@,
            filename@,
            content@,
        ),
{
    let from = match from {
        Ok(mailbox) => mailbox,
        Err(cause) => {
            return Err(ComposeError { field: AddressField::Sender, cause });
        },
    };
    let to = match to {
        Ok(mailbox) => mailbox,
        Err(cause) => {
            return Err(ComposeError { field: AddressField::Recipient, cause });
        },
    };
    let cc = match cc {
        Ok(mailbox) => mailbox,
        Err(cause) => {
            return Err(ComposeError { field: AddressField::Cc, cause });
        },
    };
    let bcc = match bcc {
        Ok(mailbox) => mailbox,
        Err(cause) => {
            return Err(ComposeError { field: AddressField::Bcc, cause });
        },
    };
    let inline = InlinePart {
        media_type: String::from_str("text/html"),
        charset: String::from_str("utf-8"),
        content: content.html_text().to_owned(),
    };
    let attachment = AttachmentPart {
        filename,
        media_type: String::from_str("text/html"),
        content: content.raw_bytes().clone(),
    };
    Ok(ComposedMessage { from, to, cc, bcc, subject, inline, attachment })
}

/// Composes the message for a request: parses the four addresses, stamps
/// the subject and attaches the report under the base name of its path.
/// The addresses of the message are the parsed forms of the request's
/// sender and recipient; a copy or blind-copy recipient is in the message
/// exactly when the request names one; the attachment holds the report's
/// bytes unchanged.
pub fn compose(request: &SendRequest, content: &ReportContent, stamp: &Timestamp) -> (result:
    Result<ComposedMessage, ComposeError>)
    ensures
        composed_view(result) == composed(request@, content@, stamp@),
        result is Ok <==> mailbox_syntax(request@.sender) is Ok && mailbox_syntax(
            request@.recipient,
        ) is Ok && optional_syntax(request@.cc) is Ok && optional_syntax(request@.bcc) is Ok,
        result matches Ok(message) ==> {
            &&& mailbox_syntax(request@.sender) == Ok::<MailboxView, Seq<char>>(message@.from)
            &&& mailbox_syntax(request@.recipient) == Ok::<MailboxView, Seq<char>>(message@.to)
            &&& (message@.cc is Some <==> request@.cc is Some)
            &&& (message@.bcc is Some <==> request@.bcc is Some)
            &&& (request@.cc matches Some(cc) ==> mailbox_syntax(cc) == Ok::<
                MailboxView,
                Seq<char>,
            >(message@.cc->0))
            &&& (request@.bcc matches Some(bcc) ==> mailbox_syntax(bcc) == Ok::<
                MailboxView,
                Seq<char>,
            >(message@.bcc->0))
            &&& message@.subject == subject_text(stamp_text(stamp@))
            &&& is_subject(message@.subject)
            &&& message@.inline.content == content@.html_text
            &&& message@.attachment.content == content@.raw_bytes
            &&& is_base_name(request@.report_path, message@.attachment.filename)
        },
{
    let from = parse_mailbox(request.sender.as_str());
    let to = parse_mailbox(request.recipient.as_str());
    let cc = parse_optional(&request.cc);
    let bcc = parse_optional(&request.bcc);
    let subject = subject_line(stamp);
    let filename = base_name(request.report_path.as_str());
    assemble(from, to, cc, bcc, subject, filename, content)
}

} // verus!
