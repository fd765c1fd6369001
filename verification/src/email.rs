//! The e-mails that carry a single-use token to the user. Only the token's
//! id is put into a link; its kind and expiry stay on the server. Sending is
//! left to the caller.

use crate::tokens::TokenKind;
use vstd::prelude::*;

verus! {

/// An e-mail ready for sending.
#[derive(Debug)]
pub struct EmailPayload {
    pub from: String,
    pub to: Vec<String>,
    pub subject: String,
    pub html: String,
}

/// The sender of every e-mail.
pub open spec fn sender() -> Seq<char> {
    "Bier <onboarding@resend.dev>"@
}

/// The text in front of the token in a link of the given kind.
pub open spec fn link_prefix(kind: TokenKind) -> Seq<char> {
    match kind {
        TokenKind::Verify => "http://10.0.2.2:3000/verify?token="@,
        TokenKind::Reset => "http://10.0.2.2:3000/reset-password?token="@,
    }
}

/// The link that an e-mail of the given kind carries for a token.
pub open spec fn link_for(kind: TokenKind, token: Seq<char>) -> Seq<char> {
    link_prefix(kind) + token
}

/// The subject of an e-mail of the given kind.
pub open spec fn subject_for(kind: TokenKind) -> Seq<char> {
    match kind {
        TokenKind::Verify => "Bevestig je Bier account! \u{1f37b}"@,
        TokenKind::Reset => "Wachtwoord herstellen - Bier \u{1f511}"@,
    }
}

/// The body of the verification e-mail: the link, and the token once more
/// for copying.
pub open spec fn verification_html(token: Seq<char>) -> Seq<char> {
    "<h1>Welkom bij Bier </h1><p>Klik op de onderstaande link om je e-mail te bevestigen:</p><p><a href='"@
        + link_for(TokenKind::Verify, token)
        + "' style='padding: 10px 20px; background: #0A84FF; color: white; border-radius: 8px; text-decoration: none;'>Email Bevestigen</a></p><p>Of kopieer deze code: <b>"@
        + token + "</b></p>"@
}

/// The body of the reset e-mail: the link.
pub open spec fn reset_html(token: Seq<char>) -> Seq<char> {
    "<h1>Wachtwoord herstellen</h1><p>Je hebt een aanvraag gedaan om je wachtwoord te herstellen. Klik op de knop hieronder:</p><p><a href='"@
        + link_for(TokenKind::Reset, token)
        + "' style='padding: 10px 20px; background: #FF453A; color: white; border-radius: 8px; text-decoration: none;'>Wachtwoord Herstellen</a></p><p>Als jij dit niet was, kun je deze mail negeren.</p>"@
}

/// The body of an e-mail of the given kind.
pub open spec fn html_for(kind: TokenKind, token: Seq<char>) -> Seq<char> {
    match kind {
        TokenKind::Verify => verification_html(token),
        TokenKind::Reset => reset_html(token),
    }
}

/// `payload` is the e-mail of the given kind for `token`, addressed to
/// `to_email` alone.
pub open spec fn is_email_for(
    payload: EmailPayload,
    kind: TokenKind,
    to_email: Seq<char>,
    token: Seq<char>,
) -> bool {
    &&& payload.from@ == sender()
    &&& payload.to@.len() == 1
    &&& payload.to@[0]@ == to_email
    &&& payload.subject@ == subject_for(kind)
    &&& payload.html@ == html_for(kind, token)
}

/// The link that carries `token` for an action of the given kind.
pub fn token_link(kind: TokenKind, token: &str) -> (r: String)
    ensures
        r@ == link_for(kind, token@),
{
    let prefix = match kind {
        TokenKind::Verify => "http://10.0.2.2:3000/verify?token=",
        TokenKind::Reset => "http://10.0.2.2:3000/reset-password?token=",
    };
    prefix.to_owned().concat(token)
}

/// A list that holds one address.
fn single_recipient(to_email: &str) -> (r: Vec<String>)
    ensures
        r@.len() == 1,
        r@[0]@ == to_email@,
{
    let mut to: Vec<String> = Vec::new();
    to.push(to_email.to_owned());
    to
}

/// The e-mail that asks a new user to confirm the address, with the link
/// for `token`.
pub fn verification_email(to_email: &str, token: &str) -> (r: EmailPayload)
    ensures
        is_email_for(r, TokenKind::Verify, to_email@, token@),
{
    let link = token_link(TokenKind::Verify, token);
    let html =
        "<h1>Welkom bij Bier </h1><p>Klik op de onderstaande link om je e-mail te bevestigen:</p><p><a href='".to_owned().concat(
        link.as_str(),
    ).concat(
        "' style='padding: 10px 20px; background: #0A84FF; color: white; border-radius: 8px; text-decoration: none;'>Email Bevestigen</a></p><p>Of kopieer deze code: <b>",
    ).concat(token).concat("</b></p>");
    EmailPayload {
        from: "Bier <onboarding@resend.dev>".to_owned(),
        to: single_recipient(to_email),
        subject: "Bevestig je Bier account! \u{1f37b}".to_owned(),
        html,
    }
}

/// The e-mail that lets a user set a new password, with the link for
/// `token`.
pub fn reset_email(to_email: &str, token: &str) -> (r: EmailPayload)
    ensures
        is_email_for(r, TokenKind::Reset, to_email@, token@),
{
    let link = token_link(TokenKind::Reset, token);
    let html =
        "<h1>Wachtwoord herstellen</h1><p>Je hebt een aanvraag gedaan om je wachtwoord te herstellen. Klik op de knop hieronder:</p><p><a href='".to_owned().concat(
        link.as_str(),
    ).concat(
        "' style='padding: 10px 20px; background: #FF453A; color: white; border-radius: 8px; text-decoration: none;'>Wachtwoord Herstellen</a></p><p>Als jij dit niet was, kun je deze mail negeren.</p>",
    );
    EmailPayload {
        from: "Bier <onboarding@resend.dev>".to_owned(),
        to: single_recipient(to_email),
        subject: "Wachtwoord herstellen - Bier \u{1f511}".to_owned(),
        html,
    }
}

/// The e-mail of the given kind for `token`.
pub fn token_email(kind: TokenKind, to_email: &str, token: &str) -> (r: EmailPayload)
    ensures
        is_email_for(r, kind, to_email@, token@),
{
    match kind {
        TokenKind::Verify => verification_email(to_email, token),
        TokenKind::Reset => reset_email(to_email, token),
    }
}

} // verus!
