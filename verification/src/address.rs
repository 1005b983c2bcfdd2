//! Structured mail addresses.

use vstd::prelude::*;

verus! {

/// Mathematical model of a [`Mailbox`].
pub struct MailboxView {
    pub name: Option<Seq<char>>,
    pub user: Seq<char>,
    pub domain: Seq<char>,
}

/// A validated mail address: an optional display name, and the two sides
/// of the `@`.
#[derive(Debug)]
pub struct Mailbox {
    pub name: Option<String>,
    pub user: String,
    pub domain: String,
}

/// The characters of an optional text.
pub open spec fn optional_text(text: Option<String>) -> Option<Seq<char>> {
    match text {
        Some(s) => Some(s@),
        None => None,
    }
}

impl View for Mailbox {
    type V = MailboxView;

    open spec fn view(&self) -> MailboxView {
        MailboxView { name: optional_text(self.name), user: self.user@, domain: self.domain@ }
    }
}

/// The model of an optional mailbox.
pub open spec fn optional_mailbox(mailbox: Option<Mailbox>) -> Option<MailboxView> {
    match mailbox {
        Some(m) => Some(m@),
        None => None,
    }
}

/// What lettre makes of an address text: the mailbox it reads, or the
/// `Debug` text of the error it reports.
pub uninterp spec fn mailbox_syntax(text: Seq<char>) -> Result<MailboxView, Seq<char>>;

/// Parses an address with lettre's `FromStr` for `lettre::message::Mailbox`
/// and hands out the display name together with `Address::user` and
/// `Address::domain`; a rejected text yields the `Debug` text of lettre's
/// `AddressError`. The contract names the outcome [`mailbox_syntax`] and
/// claims nothing else about it.
#[verifier::external_body]
pub(crate) fn parse_mailbox(text: &str) -> (parsed: Result<Mailbox, String>)
    ensures
        match parsed {
            Ok(mailbox) => mailbox_syntax(text@) == Ok::<MailboxView, Seq<char>>(mailbox@),
            Err(cause) => mailbox_syntax(text@) == Err::<MailboxView, Seq<char>>(cause@),
        },
{
    match text.parse::<lettre::message::Mailbox>() {
        Ok(mailbox) => Ok(
            Mailbox {
                user: mailbox.email.user().to_string(),
                domain: mailbox.email.domain().to_string(),
                name: mailbox.name,
            },
        ),
        Err(error) => Err(format!("{:?}", error)),
    }
}

} // verus!
