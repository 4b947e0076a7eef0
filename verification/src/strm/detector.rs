//! The classifier: which files are media, and which are ignored.

use vstd::prelude::*;
use vstd::string::*;
use crate::paths::{extension_of, file_name_of, path_extension, path_file_name};
use crate::pattern::{found, pattern_compiles, pattern_matches, search};
use crate::strm::config::{SyncConfig, SyncConfigView};
use crate::strm::error::SyncError;
use crate::text::{contains, eq_ignore_ascii_case, eq_ignore_case, occurs_in};

verus! {

/// `ext` is one of `list`, up to the case of ASCII letters.
pub open spec fn extension_listed(ext: Seq<char>, list: Seq<Seq<char>>) -> bool {
    exists|i: int| 0 <= i < list.len() && eq_ignore_case(#[trigger] list[i], ext)
}

/// The path has an extension, and it is one of `list`.
pub open spec fn has_listed_extension(path: Seq<char>, list: Seq<Seq<char>>) -> bool {
    match path_extension(path) {
        Some(ext) => extension_listed(ext, list),
        None => false,
    }
}

/// `name` holds one of `list` as a substring.
pub open spec fn keyword_listed(name: Seq<char>, list: Seq<Seq<char>>) -> bool {
    exists|i: int| 0 <= i < list.len() && occurs_in(#[trigger] list[i], name)
}

/// `name` matches one of the patterns of `list`.
pub open spec fn regex_listed(name: Seq<char>, list: Seq<Seq<char>>) -> bool {
    exists|i: int|
        0 <= i < list.len() && pattern_compiles(#[trigger] list[i]) && pattern_matches(list[i], name)
}

/// Every pattern of `list` is a valid regular expression.
pub open spec fn all_compile(list: Seq<Seq<char>>) -> bool {
    forall|i: int| 0 <= i < list.len() ==> pattern_compiles(#[trigger] list[i])
}

/// The path has a video extension.
pub open spec fn is_video(rules: SyncConfigView, path: Seq<char>) -> bool {
    has_listed_extension(path, rules.video_extensions)
}

/// The path has an audio extension.
pub open spec fn is_audio(rules: SyncConfigView, path: Seq<char>) -> bool {
    has_listed_extension(path, rules.audio_extensions)
}

/// The path has a video or an audio extension.
pub open spec fn is_media(rules: SyncConfigView, path: Seq<char>) -> bool {
    is_video(rules, path) || is_audio(rules, path)
}

/// The path has a file name, and its extension is on the ignore list, or
/// the name holds an ignore keyword, or it matches an ignore pattern.
pub open spec fn is_ignored(rules: SyncConfigView, path: Seq<char>) -> bool {
    match path_file_name(path) {
        Some(name) => has_listed_extension(path, rules.ignore_extensions) || keyword_listed(
            name,
            rules.ignore_keywords,
        ) || regex_listed(name, rules.ignore_regex),
        None => false,
    }
}

/// Whether `ext` is one of `list`, up to the case of ASCII letters.
pub fn extension_in(ext: &str, list: &Vec<String>) -> (r: bool)
    ensures
        r == extension_listed(ext@, crate::command::texts(list@)),
{
    let n: usize = list.len();
    let mut i: usize = 0;
    while i < n
        invariant
            n == list@.len(),
            i <= n,
            forall|k: int| 0 <= k < i ==> !eq_ignore_case(#[trigger] crate::command::texts(list@)[k], ext@),
        decreases n - i,
    {
        if eq_ignore_ascii_case(list[i].as_str(), ext) {
            proof {
                assert(crate::command::texts(list@)[i as int] == list@[i as int]@);
            }
            return true;
        }
        proof {
            assert(crate::command::texts(list@)[i as int] == list@[i as int]@);
        }
        i = i + 1;
    }
    false
}

/// Whether `name` holds one of `list`.
pub fn keyword_in(name: &str, list: &Vec<String>) -> (r: bool)
    ensures
        r == keyword_listed(name@, crate::command::texts(list@)),
{
    let n: usize = list.len();
    let mut i: usize = 0;
    while i < n
        invariant
            n == list@.len(),
            i <= n,
            forall|k: int| 0 <= k < i ==> !occurs_in(#[trigger] crate::command::texts(list@)[k], name@),
        decreases n - i,
    {
        proof {
            assert(crate::command::texts(list@)[i as int] == list@[i as int]@);
        }
        if contains(name, list[i].as_str()) {
            return true;
        }
        i = i + 1;
    }
    false
}

/// Whether `name` matches one of the patterns of `list`.
pub fn regex_in(name: &str, list: &Vec<String>) -> (r: bool)
    ensures
        r == regex_listed(name@, crate::command::texts(list@)),
{
    let n: usize = list.len();
    let mut i: usize = 0;
    while i < n
        invariant
            n == list@.len(),
            i <= n,
            forall|k: int|
                0 <= k < i ==> !(pattern_compiles(#[trigger] crate::command::texts(list@)[k])
                    && pattern_matches(crate::command::texts(list@)[k], name@)),
        decreases n - i,
    {
        proof {
            assert(crate::command::texts(list@)[i as int] == list@[i as int]@);
        }
        if found(search(list[i].as_str(), name)) {
            return true;
        }
        i = i + 1;
    }
    false
}

/// Classifies paths by the rules it was made with.
#[derive(Debug)]
pub struct MediaDetector {
    pub config: SyncConfig,
}

impl Clone for MediaDetector {
    fn clone(&self) -> (r: Self)
        ensures
            r.config@ == self.config@,
    {
        MediaDetector { config: self.config.clone() }
    }
}

impl MediaDetector {
    /// A classifier for the rules. Fails, with the error of the first
    /// pattern that does not compile, exactly when some ignore pattern is
    /// not a valid regular expression.
    pub fn new(config: SyncConfig) -> (r: Result<Self, SyncError>)
        ensures
            r is Ok == all_compile(config@.ignore_regex),
            r matches Ok(d) ==> d.config == config,
            r matches Err(e) ==> e is RegexError,
    {
        let n: usize = config.ignore_regex.len();
        let mut i: usize = 0;
        while i < n
            invariant
                n == config.ignore_regex@.len(),
                i <= n,
                forall|k: int| 0 <= k < i ==> pattern_compiles(#[trigger] config@.ignore_regex[k]),
            decreases n - i,
        {
            proof {
                assert(config@.ignore_regex[i as int] == config.ignore_regex@[i as int]@);
            }
            match search(config.ignore_regex[i].as_str(), "") {
                Ok(_) => {},
                Err(e) => {
                    return Err(SyncError::RegexError(e));
                },
            }
            i = i + 1;
        }
        Ok(MediaDetector { config })
    }

    /// Whether the path has a video or an audio extension.
    pub fn is_media_file(&self, path: &str) -> (r: bool)
        ensures
            r == is_media(self.config@, path@),
    {
        self.is_video_file(path) || self.is_audio_file(path)
    }

    /// Whether the path has a video extension.
    pub fn is_video_file(&self, path: &str) -> (r: bool)
        ensures
            r == is_video(self.config@, path@),
    {
        Self::check_extension(path, &self.config.video_extensions)
    }

    /// Whether the path has an audio extension.
    pub fn is_audio_file(&self, path: &str) -> (r: bool)
        ensures
            r == is_audio(self.config@, path@),
    {
        Self::check_extension(path, &self.config.audio_extensions)
    }

    /// Whether the path is to be ignored.
    pub fn should_ignore(&self, path: &str) -> (r: bool)
        ensures
            r == is_ignored(self.config@, path@),
    {
        match file_name_of(path) {
            Some(name) => {
                if Self::check_extension(path, &self.config.ignore_extensions) {
                    return true;
                }
                if keyword_in(name.as_str(), &self.config.ignore_keywords) {
                    return true;
                }
                regex_in(name.as_str(), &self.config.ignore_regex)
            },
            None => false,
        }
    }

    /// Whether the path has an extension that is one of `extensions`.
    pub fn check_extension(path: &str, extensions: &Vec<String>) -> (r: bool)
        ensures
            r == has_listed_extension(path@, crate::command::texts(extensions@)),
    {
        match extension_of(path) {
            Some(ext) => extension_in(ext.as_str(), extensions),
            None => false,
        }
    }
}

/// Classification is a function of the rules and the path alone: two
/// classifiers with the same rules agree on every path.
pub proof fn lemma_classification_is_pure(a: MediaDetector, b: MediaDetector, path: Seq<char>)
    requires
        a.config@ == b.config@,
    ensures
        is_media(a.config@, path) == is_media(b.config@, path),
        is_ignored(a.config@, path) == is_ignored(b.config@, path),
{
}

} // verus!
