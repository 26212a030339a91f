use vstd::prelude::*;

use crate::text::owned;

verus! {

/// The arguments of the `slack_send_message` tool (send a message to a Slack channel).
#[derive(Debug)]
pub struct SlackMessageRequest {
    pub channel: String,
    pub text: String,
    pub thread_ts: Option<String>,
}

/// The arguments of the `discord_send_message` tool (send a message to a Discord channel).
#[derive(Debug)]
pub struct DiscordMessageRequest {
    pub channel_id: String,
    pub content: String,
}

/// The arguments of the `telegram_send_message` tool (send a message via Telegram).
#[derive(Debug)]
pub struct TelegramMessageRequest {
    pub chat_id: String,
    pub text: String,
    pub parse_mode: Option<String>,
}

/// The arguments of the `sendgrid_send_email` tool (send an email via SendGrid).
#[derive(Debug)]
pub struct SendGridEmailRequest {
    pub to: String,
    pub from: String,
    pub subject: String,
    pub text: Option<String>,
    pub html: Option<String>,
}

/// The arguments of the `resend_send_email` tool (send an email via Resend).
#[derive(Debug)]
pub struct ResendEmailRequest {
    pub to: String,
    pub from: String,
    pub subject: String,
    pub text: Option<String>,
    pub html: Option<String>,
}

/// The arguments of the `twilio_send_sms` tool (send an SMS via Twilio).
#[derive(Debug)]
pub struct TwilioSmsRequest {
    pub to: String,
    pub from: String,
    pub body: String,
}

/// The content parts of a SendGrid email: the plain text, then the HTML,
/// each as its MIME type and value, when given.
pub open spec fn sendgrid_parts(text: Option<Seq<char>>, html: Option<Seq<char>>) -> Seq<(Seq<char>, Seq<char>)> {
    (match text {
        Some(t) => seq![("text/plain"@, t)],
        None => Seq::empty(),
    }) + (match html {
        Some(h) => seq![("text/html"@, h)],
        None => Seq::empty(),
    })
}

/// The content of the email that `sendgrid_send_email` sends: the text and
/// HTML parts as MIME type and value, or the refusal when neither is given.
pub fn sendgrid_content(req: &SendGridEmailRequest) -> (r: Result<Vec<(String, String)>, String>)
    ensures
        match r {
            Ok(parts) => req.text is Some || req.html is Some,
            Err(m) => req.text is None && req.html is None && m@ == "Either text or html content is required"@,
        },
        r matches Ok(parts) ==> parts@.map_values(|p: (String, String)| (p.0@, p.1@)) == sendgrid_parts(
            match req.text { Some(t) => Some(t@), None => None },
            match req.html { Some(h) => Some(h@), None => None },
        ),
{
    let mut parts: Vec<(String, String)> = Vec::new();
    match &req.text {
        Some(t) => parts.push((owned("text/plain"), t.clone())),
        None => {},
    }
    match &req.html {
        Some(h) => parts.push((owned("text/html"), h.clone())),
        None => {},
    }
    if parts.len() == 0 {
        return Err(owned("Either text or html content is required"));
    }
    proof {
        assert(parts@.map_values(|p: (String, String)| (p.0@, p.1@)) =~= sendgrid_parts(
            match req.text { Some(t) => Some(t@), None => None },
            match req.html { Some(h) => Some(h@), None => None },
        ));
    }
    Ok(parts)
}

} // verus!
