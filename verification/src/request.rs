//! The resolved configuration of one run.

use crate::address::optional_text;
use vstd::prelude::*;

verus! {

/// Mathematical model of a [`SendRequest`].
pub struct SendRequestView {
    pub sender: Seq<char>,
    pub credential: Seq<char>,
    pub recipient: Seq<char>,
    pub cc: Option<Seq<char>>,
    pub bcc: Option<Seq<char>>,
    pub report_path: Seq<char>,
    pub server_host: Seq<char>,
}

/// What one run was asked to do: who sends, who receives, which report,
/// through which server. The credential is an authorization code issued by
/// the mail service, not the password of the account.
#[derive(Debug)]
pub struct SendRequest {
    pub sender: String,
    pub credential: String,
    pub recipient: String,
    pub cc: Option<String>,
    pub bcc: Option<String>,
    pub report_path: String,
    pub server_host: String,
}

impl View for SendRequest {
    type V = SendRequestView;

    open spec fn view(&self) -> SendRequestView {
        SendRequestView {
            sender: self.sender@,
            credential: self.credential@,
            recipient: self.recipient@,
            cc: optional_text(self.cc),
            bcc: optional_text(self.bcc),
            report_path: self.report_path@,
            server_host: self.server_host@,
        }
    }
}

/// Mathematical model of a [`Login`].
pub struct LoginView {
    pub username: Seq<char>,
    pub secret: Seq<char>,
}

/// The pair that authenticates the sender at the mail server.
#[derive(Debug)]
pub struct Login {
    pub username: String,
    pub secret: String,
}

impl View for Login {
    type V = LoginView;

    open spec fn view(&self) -> LoginView {
        LoginView { username: self.username@, secret: self.secret@ }
    }
}

impl SendRequestView {
    /// The sender's address is the user name, the credential the secret.
    pub open spec fn login(self) -> LoginView {
        LoginView { username: self.sender, secret: self.credential }
    }
}

/// An independent copy of an optional text.
pub fn duplicate_optional(text: &Option<String>) -> (copy: Option<String>)
    ensures
        optional_text(copy) == optional_text(*text),
{
    match text {
        Some(s) => Some(s.clone()),
        None => None,
    }
}

impl SendRequest {
    /// The login that the mail server is given for this request.
    pub fn login(&self) -> (login: Login)
        ensures
            login@ == self@.login(),
    {
        Login { username: self.sender.clone(), secret: self.credential.clone() }
    }
}

} // verus!
