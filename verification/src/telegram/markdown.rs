//! Text in Telegram's MarkdownV2.

use vstd::prelude::*;
use vstd::string::*;
use crate::text::{escape, escape_text, join3};

verus! {

/// The characters that MarkdownV2 wants escaped in plain text.
pub open spec fn special_chars() -> Seq<char> {
    seq![
        '_',
        '*',
        '[',
        ']',
        '(',
        ')',
        '~',
        '`',
        '>',
        '#',
        '+',
        '-',
        '=',
        '|',
        '{',
        '}',
        '.',
        '!',
    ]
}

/// `text` with every special character escaped.
pub open spec fn escaped(text: Seq<char>) -> Seq<char> {
    escape_text(text, special_chars())
}

fn specials() -> (r: Vec<char>)
    ensures
        r@ == special_chars(),
{
    let mut r: Vec<char> = Vec::new();
    r.push('_');
    r.push('*');
    r.push('[');
    r.push(']');
    r.push('(');
    r.push(')');
    r.push('~');
    r.push('`');
    r.push('>');
    r.push('#');
    r.push('+');
    r.push('-');
    r.push('=');
    r.push('|');
    r.push('{');
    r.push('}');
    r.push('.');
    r.push('!');
    proof {
        assert(r@ =~= special_chars());
    }
    r
}

/// Builds a MarkdownV2 text piece by piece.
#[derive(Debug)]
pub struct MarkdownV2Builder {
    pub text: String,
}

impl Default for MarkdownV2Builder {
    fn default() -> (r: Self)
        ensures
            r.text@ == Seq::<char>::empty(),
    {
        MarkdownV2Builder { text: String::new() }
    }
}

impl MarkdownV2Builder {
    /// An empty text.
    pub fn new() -> (r: Self)
        ensures
            r.text@ == Seq::<char>::empty(),
    {
        MarkdownV2Builder::default()
    }

    /// Appends `text`, escaped.
    pub fn text(self, text: &str) -> (r: Self)
        ensures
            r.text@ == self.text@ + escaped(text@),
    {
        let mut out = self.text;
        out.append(Self::escape(text).as_str());
        MarkdownV2Builder { text: out }
    }

    /// Appends `text` between asterisks. The text is escaped, and the
    /// whole piece, its asterisks included, is escaped once more.
    pub fn bold(self, text: &str) -> (r: Self)
        ensures
            r.text@ == self.text@ + escaped("*"@ + escaped(text@) + "*"@),
    {
        let piece = join3("*", Self::escape(text).as_str(), "*");
        self.text(piece.as_str())
    }

    /// Appends `text` between underscores. The text is escaped, and the
    /// whole piece, its underscores included, is escaped once more.
    pub fn italic(self, text: &str) -> (r: Self)
        ensures
            r.text@ == self.text@ + escaped("_"@ + escaped(text@) + "_"@),
    {
        let piece = join3("_", Self::escape(text).as_str(), "_");
        self.text(piece.as_str())
    }

    /// Appends a link. Label and address are escaped, and the whole piece,
    /// its brackets included, is escaped once more.
    pub fn link(self, text: &str, url: &str) -> (r: Self)
        ensures
            r.text@ == self.text@ + escaped(
                "["@ + escaped(text@) + "]("@ + escaped(url@) + ")"@,
            ),
    {
        let mut piece = String::from_str("[");
        piece.append(Self::escape(text).as_str());
        piece.append("](");
        piece.append(Self::escape(url).as_str());
        piece.append(")");
        self.text(piece.as_str())
    }

    /// The text built so far.
    pub fn build(self) -> (r: String)
        ensures
            r == self.text,
    {
        self.text
    }

    /// The text built so far, as a copy.
    pub fn to_text(&self) -> (r: String)
        ensures
            r == self.text,
    {
        self.text.clone()
    }

    /// `text` with a backslash before every special character.
    pub fn escape(text: &str) -> (r: String)
        ensures
            r@ == escaped(text@),
    {
        let special = specials();
        escape(text, &special)
    }
}

} // verus!
