//! The endpoints of the bot API.

use vstd::prelude::*;
use vstd::string::*;
use crate::network::{HttpMethod, NetworkTask};
use crate::telegram::message::{field_texts, PhotoMessage, TextMessage};
use crate::text::join2;

verus! {

/// Where the bot API lives; the bot's token follows.
pub const TELEGRAM_API_BASE: &'static str = "https://api.telegram.org/bot";

/// What every request presents itself as.
pub const USER_AGENT: &'static str =
    "Mozilla/5.0 (Macintosh; Intel Mac OS X 10_15_7) AppleWebKit/537.36 (KHTML, like Gecko) Chrome/133.0.0.0 Safari/537.36";

/// The bot's credentials and the chat it writes to.
#[derive(Debug)]
pub struct TelegramConfig {
    pub bot_token: String,
    pub chat_id: String,
}

/// A call of the bot API.
#[derive(Debug)]
pub enum TelegramAPI {
    SendMessage(TextMessage),
    SendPhoto(PhotoMessage),
}

impl Clone for TelegramAPI {
    fn clone(&self) -> (r: Self)
        ensures
            r == *self,
    {
        match self {
            TelegramAPI::SendMessage(m) => TelegramAPI::SendMessage(m.clone()),
            TelegramAPI::SendPhoto(p) => TelegramAPI::SendPhoto(p.clone()),
        }
    }
}

/// The headers of a request that sends and accepts JSON.
pub open spec fn json_headers() -> Seq<(Seq<char>, Seq<char>)> {
    seq![
        ("Content-Type"@, "application/json"@),
        ("Accept"@, "application/json"@),
        ("user-agent"@, USER_AGENT@),
    ]
}

impl TelegramAPI {
    /// The base address for the bot with this token.
    pub fn base_url(&self, config: &TelegramConfig) -> (r: String)
        ensures
            r@ == TELEGRAM_API_BASE@ + config.bot_token@,
    {
        join2(TELEGRAM_API_BASE, config.bot_token.as_str())
    }

    /// The endpoint of the call.
    pub open spec fn spec_path(&self) -> Seq<char> {
        match self {
            TelegramAPI::SendMessage(_) => "sendMessage"@,
            TelegramAPI::SendPhoto(_) => "sendPhoto"@,
        }
    }

    /// The endpoint of the call.
    pub fn path(&self) -> (r: String)
        ensures
            r@ == self.spec_path(),
    {
        match self {
            TelegramAPI::SendMessage(_) => String::from_str("sendMessage"),
            TelegramAPI::SendPhoto(_) => String::from_str("sendPhoto"),
        }
    }

    /// Every call is a POST.
    pub fn method(&self) -> (r: HttpMethod)
        ensures
            r == HttpMethod::Post,
    {
        HttpMethod::Post
    }

    /// The payload of the call, addressed to the configured chat.
    pub fn task(&self, config: &TelegramConfig) -> (r: NetworkTask)
        ensures
            match *self {
                TelegramAPI::SendMessage(m) => r matches NetworkTask::RequestJson(fields)
                    && field_texts(fields@) == m.spec_json_fields(config.chat_id@),
                TelegramAPI::SendPhoto(p) => match p.photo {
                    crate::telegram::message::PhotoInput::Url(_) => r
                        matches NetworkTask::RequestMultipart(fields) && field_texts(fields@)
                        == p.spec_fields(config.chat_id@),
                    crate::telegram::message::PhotoInput::FilePath(path) => r
                        matches NetworkTask::RequestMultipartWithFiles(fields, files)
                        && field_texts(fields@) == p.spec_fields(config.chat_id@) && field_texts(
                        files@,
                    ) == seq![(path@, "photo"@)],
                },
            },
    {
        match self {
            TelegramAPI::SendMessage(m) => m.clone().into_task(self.get_chat_id(config)),
            TelegramAPI::SendPhoto(p) => p.clone().into_task(self.get_chat_id(config)),
        }
    }

    /// The headers of the call.
    pub fn headers(&self) -> (r: Vec<(String, String)>)
        ensures
            field_texts(r@) == json_headers(),
    {
        let mut r: Vec<(String, String)> = Vec::new();
        r.push((String::from_str("Content-Type"), String::from_str("application/json")));
        r.push((String::from_str("Accept"), String::from_str("application/json")));
        r.push((String::from_str("user-agent"), String::from_str(USER_AGENT)));
        proof {
            assert(field_texts(r@) =~= json_headers());
        }
        r
    }

    /// The chat that messages go to.
    pub fn get_chat_id(&self, config: &TelegramConfig) -> (r: String)
        ensures
            r == config.chat_id,
    {
        config.chat_id.clone()
    }
}

} // verus!
