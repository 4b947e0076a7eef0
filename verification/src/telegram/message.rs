//! The messages a bot can send.

use vstd::prelude::*;
use vstd::string::*;
use crate::command::clone_opt;
use crate::network::{push_field, NetworkTask};
use crate::text::join2;

verus! {

/// The formatting that every message asks for.
pub const PARSE_MODE: &'static str = "MarkdownV2";

/// A text message, with an optional keyboard.
#[derive(Debug)]
pub struct TextMessage {
    /// The text, in MarkdownV2.
    pub text: String,
    /// The reply markup as JSON text.
    pub reply_markup: Option<String>,
}

impl Clone for TextMessage {
    fn clone(&self) -> (r: Self)
        ensures
            r == *self,
    {
        TextMessage { text: self.text.clone(), reply_markup: clone_opt(&self.reply_markup) }
    }
}

/// Names and values of a list of fields.
pub open spec fn field_texts(fields: Seq<(String, String)>) -> Seq<(Seq<char>, Seq<char>)> {
    fields.map_values(|f: (String, String)| (f.0@, f.1@))
}

impl TextMessage {
    /// A message with the given text and no keyboard.
    pub fn new(text: String) -> (r: Self)
        ensures
            r.text == text,
            r.reply_markup is None,
    {
        TextMessage { text, reply_markup: None }
    }

    /// Sets the reply markup.
    pub fn with_reply_markup(self, markup: String) -> (r: Self)
        ensures
            r == (TextMessage { reply_markup: Some(markup), ..self }),
    {
        TextMessage { reply_markup: Some(markup), ..self }
    }

    /// The fields of the message's JSON object: the text, the reply markup
    /// where there is one, the parse mode and the chat.
    pub open spec fn spec_json_fields(&self, chat_id: Seq<char>) -> Seq<(Seq<char>, Seq<char>)> {
        seq![("text"@, self.text@)] + (match self.reply_markup {
            Some(m) => seq![("reply_markup"@, m@)],
            None => Seq::empty(),
        }) + seq![("parse_mode"@, PARSE_MODE@), ("chat_id"@, chat_id)]
    }

    /// The fields of the message's JSON object.
    pub fn to_json_value(&self, chat_id: String) -> (r: Vec<(String, String)>)
        ensures
            field_texts(r@) == self.spec_json_fields(chat_id@),
    {
        let mut fields: Vec<(String, String)> = Vec::new();
        push_field(&mut fields, "text", self.text.clone());
        match &self.reply_markup {
            Some(m) => {
                push_field(&mut fields, "reply_markup", m.clone());
            },
            None => {},
        }
        push_field(&mut fields, "parse_mode", String::from_str(PARSE_MODE));
        push_field(&mut fields, "chat_id", chat_id);
        proof {
            assert(field_texts(fields@) =~= self.spec_json_fields(chat_id@));
        }
        fields
    }

    /// The message as the payload of a request.
    pub fn into_task(self, chat_id: String) -> (r: NetworkTask)
        ensures
            r matches NetworkTask::RequestJson(fields) && field_texts(fields@)
                == self.spec_json_fields(chat_id@),
    {
        NetworkTask::RequestJson(self.to_json_value(chat_id))
    }

    /// The message for a log.
    pub fn to_text(&self) -> (r: String)
        ensures
            r@ == "text="@ + self.text@,
    {
        join2("text=", self.text.as_str())
    }
}

/// Where a photo comes from.
#[derive(Debug)]
pub enum PhotoInput {
    /// An address the server fetches the photo from.
    Url(String),
    /// A file on this host that is uploaded.
    FilePath(String),
}

impl Clone for PhotoInput {
    fn clone(&self) -> (r: Self)
        ensures
            r == *self,
    {
        match self {
            PhotoInput::Url(u) => PhotoInput::Url(u.clone()),
            PhotoInput::FilePath(p) => PhotoInput::FilePath(p.clone()),
        }
    }
}

impl PhotoInput {
    /// The text for a log.
    pub open spec fn spec_text(&self) -> Seq<char> {
        match self {
            PhotoInput::Url(u) => "[URL] "@ + u@,
            PhotoInput::FilePath(p) => "[File] "@ + p@,
        }
    }

    /// The source for a log.
    pub fn to_text(&self) -> (r: String)
        ensures
            r@ == self.spec_text(),
    {
        match self {
            PhotoInput::Url(u) => join2("[URL] ", u.as_str()),
            PhotoInput::FilePath(p) => join2("[File] ", p.as_str()),
        }
    }
}

/// A photo with an optional caption.
#[derive(Debug)]
pub struct PhotoMessage {
    pub photo: PhotoInput,
    /// The caption, in MarkdownV2.
    pub caption: Option<String>,
}

impl Clone for PhotoMessage {
    fn clone(&self) -> (r: Self)
        ensures
            r == *self,
    {
        PhotoMessage { photo: self.photo.clone(), caption: clone_opt(&self.caption) }
    }
}

impl PhotoMessage {
    /// The form fields that every photo message has: the chat, the parse
    /// mode, and the caption where there is one.
    pub open spec fn spec_common_fields(&self, chat_id: Seq<char>) -> Seq<(Seq<char>, Seq<char>)> {
        seq![("chat_id"@, chat_id), ("parse_mode"@, PARSE_MODE@)] + (match self.caption {
            Some(c) => seq![("caption"@, c@)],
            None => Seq::empty(),
        })
    }

    /// All form fields: for a photo by address, the address is one of them.
    pub open spec fn spec_fields(&self, chat_id: Seq<char>) -> Seq<(Seq<char>, Seq<char>)> {
        match self.photo {
            PhotoInput::Url(u) => self.spec_common_fields(chat_id) + seq![("photo"@, u@)],
            PhotoInput::FilePath(_) => self.spec_common_fields(chat_id),
        }
    }

    /// The message as the payload of a request: a form, and for a photo
    /// from a file the file to upload as `photo`.
    pub fn into_task(self, chat_id: String) -> (r: NetworkTask)
        ensures
            self.photo is Url ==> (r matches NetworkTask::RequestMultipart(fields) && field_texts(
                fields@,
            ) == self.spec_fields(chat_id@)),
            self.photo is FilePath ==> (r matches NetworkTask::RequestMultipartWithFiles(
                fields,
                files,
            ) && field_texts(fields@) == self.spec_fields(chat_id@) && field_texts(files@)
                == seq![(self.photo->FilePath_0@, "photo"@)]),
    {
        let mut fields: Vec<(String, String)> = Vec::new();
        push_field(&mut fields, "chat_id", chat_id);
        push_field(&mut fields, "parse_mode", String::from_str(PARSE_MODE));
        match self.caption {
            Some(c) => {
                push_field(&mut fields, "caption", c);
            },
            None => {},
        }
        proof {
            assert(field_texts(fields@) =~= self.spec_common_fields(chat_id@));
        }
        match self.photo {
            PhotoInput::FilePath(path) => {
                let mut files: Vec<(String, String)> = Vec::new();
                files.push((path, String::from_str("photo")));
                proof {
                    assert(field_texts(files@) =~= seq![(path@, "photo"@)]);
                }
                NetworkTask::RequestMultipartWithFiles(fields, files)
            },
            PhotoInput::Url(url) => {
                push_field(&mut fields, "photo", url);
                proof {
                    assert(field_texts(fields@) =~= self.spec_fields(chat_id@));
                }
                NetworkTask::RequestMultipart(fields)
            },
        }
    }

    /// A photo from a file, without a caption.
    pub fn from_file(path: String) -> (r: Self)
        ensures
            r.photo == PhotoInput::FilePath(path),
            r.caption is None,
    {
        PhotoMessage { photo: PhotoInput::FilePath(path), caption: None }
    }

    /// A photo by its address, without a caption.
    pub fn from_url(url: String) -> (r: Self)
        ensures
            r.photo == PhotoInput::Url(url),
            r.caption is None,
    {
        PhotoMessage { photo: PhotoInput::Url(url), caption: None }
    }

    /// Sets the caption.
    pub fn with_caption(self, caption: String) -> (r: Self)
        ensures
            r == (PhotoMessage { caption: Some(caption), ..self }),
    {
        PhotoMessage { caption: Some(caption), ..self }
    }

    /// The text for a log.
    pub open spec fn spec_text(&self) -> Seq<char> {
        "PhotoMessage(photo: "@ + self.photo.spec_text() + (match self.caption {
            Some(c) => ", caption: "@ + c@,
            None => Seq::empty(),
        }) + ")"@
    }

    /// The message for a log.
    pub fn to_text(&self) -> (r: String)
        ensures
            r@ == self.spec_text(),
    {
        let mut r = String::from_str("PhotoMessage(photo: ");
        r.append(self.photo.to_text().as_str());
        let ghost head = r@;
        match &self.caption {
            Some(c) => {
                r.append(", caption: ");
                r.append(c.as_str());
                proof {
                    assert(r@ =~= head + (", caption: "@ + c@));
                }
            },
            None => {
                proof {
                    assert(r@ =~= head + Seq::<char>::empty());
                }
            },
        }
        r.append(")");
        r
    }
}

} // verus!
