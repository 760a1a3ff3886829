//! Outgoing mail: the account to send from and the messages that are sent.

use crate::config::AppConfig;
use crate::text::{decimal_nat, push_decimal};
use vstd::prelude::*;

verus! {

/// A message to send.
#[derive(Clone, Copy, Debug, PartialEq, Eq)]
pub struct EmailMessage<'a> {
    pub to: &'a str,
    pub subject: &'a str,
    pub text_body: Option<&'a str>,
    pub html_body: Option<&'a str>,
}

/// The mail account that the service sends from.
#[derive(Debug, PartialEq, Eq)]
pub struct SMTPService {
    from: String,
    host: String,
    port: u16,
    login: String,
    password: String,
}

/// The subject of the message that carries a one-time password.
pub open spec fn registration_subject() -> Seq<char> {
    "Код для подтверждения регистрации"@
}

/// The text of the message that carries the one-time password `otp`.
pub open spec fn registration_text_of(otp: u32) -> Seq<char> {
    "Ваш код подтверждения: "@ + decimal_nat(otp as nat)
}

/// The text of the message that carries the one-time password `otp`.
pub fn registration_text(otp: u32) -> (text: String)
    ensures
        text@ == registration_text_of(otp),
{
    let mut text = "Ваш код подтверждения: ".to_owned();
    push_decimal(&mut text, otp as u64);
    text
}

/// The message that carries a one-time password to `email`; `text` is the
/// text made by [`registration_text`].
pub fn registration_message<'a>(email: &'a str, text: &'a str) -> (message: EmailMessage<'a>)
    ensures
        message.to@ == email@,
        message.subject@ == registration_subject(),
        message.text_body matches Some(body) && body@ == text@,
        message.html_body is None,
{
    EmailMessage {
        subject: "Код для подтверждения регистрации",
        to: email,
        text_body: Some(text),
        html_body: None,
    }
}

impl SMTPService {
    /// The sender's address.
    pub closed spec fn sender(&self) -> Seq<char> {
        self.from@
    }

    /// Host and port of the mail server.
    pub closed spec fn server(&self) -> (Seq<char>, u16) {
        (self.host@, self.port)
    }

    /// Login and password of the account.
    pub closed spec fn credentials(&self) -> (Seq<char>, Seq<char>) {
        (self.login@, self.password@)
    }

    /// The account that the settings name.
    pub fn new(config: &AppConfig) -> (service: Self)
        ensures
            service.sender() == config.smtp_config.from@,
            service.server() == (config.smtp_config.host@, config.smtp_config.port),
            service.credentials() == (config.smtp_config.login@, config.smtp_config.password@),
    {
        SMTPService {
            from: config.smtp_config.from.clone(),
            host: config.smtp_config.host.clone(),
            port: config.smtp_config.port,
            login: config.smtp_config.login.clone(),
            password: config.smtp_config.password.clone(),
        }
    }

    /// The sender's address.
    pub fn from(&self) -> (from: &str)
        ensures
            from@ == self.sender(),
    {
        self.from.as_str()
    }

    /// The host of the mail server.
    pub fn host(&self) -> (host: &str)
        ensures
            host@ == self.server().0,
    {
        self.host.as_str()
    }

    /// The port of the mail server.
    pub fn port(&self) -> (port: u16)
        ensures
            port == self.server().1,
    {
        self.port
    }

    /// The login of the account.
    pub fn login(&self) -> (login: &str)
        ensures
            login@ == self.credentials().0,
    {
        self.login.as_str()
    }

    /// The password of the account.
    pub fn password(&self) -> (password: &str)
        ensures
            password@ == self.credentials().1,
    {
        self.password.as_str()
    }
}

} // verus!
