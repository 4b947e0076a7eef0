//! The rules of a synchronisation.

use vstd::prelude::*;
use vstd::string::*;
use crate::command::{clone_opt, clone_texts, push_text, texts};
use crate::text::opt_text;

verus! {

/// Classification rules, name rules and backend choice.
#[derive(Debug)]
pub struct SyncConfig {
    /// Extensions of video files, without the dot.
    pub video_extensions: Vec<String>,
    /// Extensions of audio files, without the dot.
    pub audio_extensions: Vec<String>,
    /// Extensions of files to ignore.
    pub ignore_extensions: Vec<String>,
    /// File names that hold one of these are ignored.
    pub ignore_keywords: Vec<String>,
    /// File names that match one of these patterns are ignored.
    pub ignore_regex: Vec<String>,
    /// Replacements applied to names, each a text and what replaces it.
    pub name_replacements: Vec<(String, String)>,
    /// Where deleted entries are moved to, instead of being removed.
    pub soft_delete_dir: Option<String>,
    /// The remote of the cloud backend; without one the local backend is used.
    pub rclone_remote: Option<String>,
    /// Further arguments for the local transfer tool.
    pub rsync_args: Option<Vec<String>>,
}

/// The rules as mathematical values.
pub struct SyncConfigView {
    pub video_extensions: Seq<Seq<char>>,
    pub audio_extensions: Seq<Seq<char>>,
    pub ignore_extensions: Seq<Seq<char>>,
    pub ignore_keywords: Seq<Seq<char>>,
    pub ignore_regex: Seq<Seq<char>>,
    pub name_replacements: Seq<(Seq<char>, Seq<char>)>,
    pub soft_delete_dir: Option<Seq<char>>,
    pub rclone_remote: Option<Seq<char>>,
    pub rsync_args: Option<Seq<Seq<char>>>,
}

/// The character contents of a list of pairs.
pub open spec fn pair_texts(v: Seq<(String, String)>) -> Seq<(Seq<char>, Seq<char>)> {
    v.map_values(|p: (String, String)| (p.0@, p.1@))
}

impl View for SyncConfig {
    type V = SyncConfigView;

    open spec fn view(&self) -> SyncConfigView {
        SyncConfigView {
            video_extensions: texts(self.video_extensions@),
            audio_extensions: texts(self.audio_extensions@),
            ignore_extensions: texts(self.ignore_extensions@),
            ignore_keywords: texts(self.ignore_keywords@),
            ignore_regex: texts(self.ignore_regex@),
            name_replacements: pair_texts(self.name_replacements@),
            soft_delete_dir: opt_text(self.soft_delete_dir),
            rclone_remote: opt_text(self.rclone_remote),
            rsync_args: match self.rsync_args {
                Some(a) => Some(texts(a@)),
                None => None,
            },
        }
    }
}

/// The video extensions of the default rules.
pub open spec fn default_video_extensions() -> Seq<Seq<char>> {
    seq![
        "mp4"@,
        "mkv"@,
        "avi"@,
        "mov"@,
        "wmv"@,
        "flv"@,
        "m2ts"@,
        "mts"@,
        "ts"@,
        "rmvb"@,
        "rm"@,
        "vob"@,
    ]
}

/// The audio extensions of the default rules.
pub open spec fn default_audio_extensions() -> Seq<Seq<char>> {
    seq!["mp3"@, "wav"@, "flac"@, "aac"@, "ogg"@, "ape"@, "opus"@]
}

/// The default rules: the usual media extensions, nothing ignored, hard
/// deletes, the local backend.
pub open spec fn default_rules() -> SyncConfigView {
    SyncConfigView {
        video_extensions: default_video_extensions(),
        audio_extensions: default_audio_extensions(),
        ignore_extensions: Seq::empty(),
        ignore_keywords: Seq::empty(),
        ignore_regex: Seq::empty(),
        name_replacements: Seq::empty(),
        soft_delete_dir: None,
        rclone_remote: None,
        rsync_args: None,
    }
}

fn video_defaults() -> (r: Vec<String>)
    ensures
        texts(r@) == default_video_extensions(),
{
    let mut r: Vec<String> = Vec::new();
    push_text(&mut r, "mp4");
    push_text(&mut r, "mkv");
    push_text(&mut r, "avi");
    push_text(&mut r, "mov");
    push_text(&mut r, "wmv");
    push_text(&mut r, "flv");
    push_text(&mut r, "m2ts");
    push_text(&mut r, "mts");
    push_text(&mut r, "ts");
    push_text(&mut r, "rmvb");
    push_text(&mut r, "rm");
    push_text(&mut r, "vob");
    proof {
        assert(texts(r@) =~= default_video_extensions());
    }
    r
}

fn audio_defaults() -> (r: Vec<String>)
    ensures
        texts(r@) == default_audio_extensions(),
{
    let mut r: Vec<String> = Vec::new();
    push_text(&mut r, "mp3");
    push_text(&mut r, "wav");
    push_text(&mut r, "flac");
    push_text(&mut r, "aac");
    push_text(&mut r, "ogg");
    push_text(&mut r, "ape");
    push_text(&mut r, "opus");
    proof {
        assert(texts(r@) =~= default_audio_extensions());
    }
    r
}

fn clone_pairs(items: &Vec<(String, String)>) -> (r: Vec<(String, String)>)
    ensures
        r@ == items@,
{
    let n: usize = items.len();
    let mut r: Vec<(String, String)> = Vec::new();
    let mut i: usize = 0;
    while i < n
        invariant
            n == items@.len(),
            i <= n,
            r@ == items@.subrange(0, i as int),
        decreases n - i,
    {
        r.push((items[i].0.clone(), items[i].1.clone()));
        proof {
            assert(r@ =~= items@.subrange(0, i + 1));
        }
        i = i + 1;
    }
    proof {
        assert(r@ =~= items@);
    }
    r
}

impl Default for SyncConfig {
    fn default() -> (r: Self)
        ensures
            r@ == default_rules(),
    {
        let r = SyncConfig {
            video_extensions: video_defaults(),
            audio_extensions: audio_defaults(),
            ignore_extensions: Vec::new(),
            ignore_keywords: Vec::new(),
            ignore_regex: Vec::new(),
            name_replacements: Vec::new(),
            soft_delete_dir: None,
            rclone_remote: None,
            rsync_args: None,
        };
        proof {
            assert(r@.ignore_extensions =~= Seq::empty());
            assert(r@.ignore_keywords =~= Seq::empty());
            assert(r@.ignore_regex =~= Seq::empty());
            assert(r@.name_replacements =~= Seq::empty());
        }
        r
    }
}

impl Clone for SyncConfig {
    fn clone(&self) -> (r: Self)
        ensures
            r@ == self@,
    {
        let rsync_args = match &self.rsync_args {
            Some(a) => Some(clone_texts(a)),
            None => None,
        };
        SyncConfig {
            video_extensions: clone_texts(&self.video_extensions),
            audio_extensions: clone_texts(&self.audio_extensions),
            ignore_extensions: clone_texts(&self.ignore_extensions),
            ignore_keywords: clone_texts(&self.ignore_keywords),
            ignore_regex: clone_texts(&self.ignore_regex),
            name_replacements: clone_pairs(&self.name_replacements),
            soft_delete_dir: clone_opt(&self.soft_delete_dir),
            rclone_remote: clone_opt(&self.rclone_remote),
            rsync_args,
        }
    }
}

} // verus!
