//! What the bot API answers.

use vstd::prelude::*;
use vstd::string::*;
use crate::text::{decimal, int_text, join2};

verus! {

/// The envelope of every answer.
#[derive(Debug)]
pub struct TelegramResponse<T> {
    /// Whether the request succeeded.
    pub ok: bool,
    /// The answer proper, on success.
    pub result: Option<T>,
    /// What went wrong, on failure.
    pub description: Option<String>,
}

/// A chat: a person, a group or a channel.
#[derive(Debug)]
pub struct Chat {
    pub id: i64,
    pub first_name: Option<String>,
    pub username: Option<String>,
    /// `private`, `group`, `supergroup` or `channel`.
    pub chat_type: String,
}

/// A message that was sent.
#[derive(Debug)]
pub struct MessageResult {
    pub message_id: i64,
    pub chat: Chat,
    pub text: Option<String>,
}

/// `label` and `value`, where there is a value.
pub open spec fn labelled(label: Seq<char>, value: Option<Seq<char>>) -> Seq<char> {
    match value {
        Some(v) => label + v,
        None => Seq::empty(),
    }
}

fn push_labelled(out: &mut String, label: &str, value: &Option<String>)
    ensures
        final(out)@ == old(out)@ + labelled(label@, crate::text::opt_text(*value)),
{
    match value {
        Some(v) => {
            out.append(label);
            out.append(v.as_str());
            proof {
                assert(out@ =~= old(out)@ + (label@ + v@));
            }
        },
        None => {
            proof {
                assert(out@ =~= old(out)@ + Seq::<char>::empty());
            }
        },
    }
}

impl<T> TelegramResponse<T> {
    /// The text for a log.
    pub open spec fn spec_text(&self, result: Option<Seq<char>>) -> Seq<char> {
        "Status: "@ + (if self.ok {
            "OK"@
        } else {
            "Failed"@
        }) + labelled(", Description: "@, crate::text::opt_text(self.description)) + labelled(
            ", Result: "@,
            result,
        )
    }

    /// The answer for a log; `result` is the text of the answer proper,
    /// where there is one.
    pub fn to_text(&self, result: &Option<String>) -> (r: String)
        ensures
            r@ == self.spec_text(crate::text::opt_text(*result)),
    {
        let mut r = String::from_str("Status: ");
        if self.ok {
            r.append("OK");
        } else {
            r.append("Failed");
        }
        push_labelled(&mut r, ", Description: ", &self.description);
        push_labelled(&mut r, ", Result: ", result);
        r
    }
}

impl Chat {
    /// A name to show for the chat: first name and user name as far as
    /// they are known, else the kind of chat and its number.
    pub open spec fn spec_display_name(&self) -> Seq<char> {
        match (self.first_name, self.username) {
            (Some(name), Some(user)) => name@ + " (@"@ + user@ + ")"@,
            (Some(name), None) => name@,
            (None, Some(user)) => "@"@ + user@,
            (None, None) => self.chat_type@ + " "@ + decimal(self.id as int),
        }
    }

    /// A name to show for the chat.
    pub fn display_name(&self) -> (r: String)
        ensures
            r@ == self.spec_display_name(),
    {
        match &self.first_name {
            Some(name) => match &self.username {
                Some(user) => {
                    let mut r = name.clone();
                    r.append(" (@");
                    r.append(user.as_str());
                    r.append(")");
                    r
                },
                None => name.clone(),
            },
            None => match &self.username {
                Some(user) => join2("@", user.as_str()),
                None => {
                    let mut r = self.chat_type.clone();
                    r.append(" ");
                    r.append(int_text(self.id).as_str());
                    r
                },
            },
        }
    }

    /// The text for a log.
    pub open spec fn spec_text(&self) -> Seq<char> {
        "ID: "@ + decimal(self.id as int) + ", Type: "@ + self.chat_type@ + labelled(
            ", Name: "@,
            crate::text::opt_text(self.first_name),
        ) + labelled(", Username: @"@, crate::text::opt_text(self.username))
    }

    /// The chat for a log.
    pub fn to_text(&self) -> (r: String)
        ensures
            r@ == self.spec_text(),
    {
        let mut r = String::from_str("ID: ");
        r.append(int_text(self.id).as_str());
        r.append(", Type: ");
        r.append(self.chat_type.as_str());
        push_labelled(&mut r, ", Name: ", &self.first_name);
        push_labelled(&mut r, ", Username: @", &self.username);
        r
    }
}

impl MessageResult {
    /// The text for a log.
    pub open spec fn spec_text(&self) -> Seq<char> {
        "MessageID: "@ + decimal(self.message_id as int) + ", Chat: "@ + self.chat.spec_text()
            + labelled(", Text: "@, crate::text::opt_text(self.text))
    }

    /// The message for a log.
    pub fn to_text(&self) -> (r: String)
        ensures
            r@ == self.spec_text(),
    {
        let mut r = String::from_str("MessageID: ");
        r.append(int_text(self.message_id).as_str());
        r.append(", Chat: ");
        r.append(self.chat.to_text().as_str());
        push_labelled(&mut r, ", Text: ", &self.text);
        r
    }
}

} // verus!
