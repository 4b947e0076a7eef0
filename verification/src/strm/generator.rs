//! The placeholder codec: where the placeholder of a media file lies, what
//! it holds, and which entries of a tree get one.

use vstd::prelude::*;
use vstd::string::*;
use crate::paths::{path_with_extension, with_extension};
use crate::strm::config::SyncConfig;
use crate::strm::detector::{is_media, MediaDetector};

verus! {

/// The extension of a placeholder file.
pub const PLACEHOLDER_EXTENSION: &'static str = "strm";

/// Where the placeholder of `media_path` lies: beside the media file,
/// under its name with the placeholder extension.
pub open spec fn placeholder_path(media_path: Seq<char>) -> Seq<char> {
    path_with_extension(media_path, PLACEHOLDER_EXTENSION@)
}

/// The files of a tree that matter here: each path with its text.
pub type Files = Map<Seq<char>, Seq<char>>;

/// What is to be done for one media file.
#[derive(Debug)]
pub struct StrmPlan {
    /// The placeholder's path.
    pub path: String,
    /// What to write there; `None` where the placeholder exists and is
    /// left as it is.
    pub content: Option<String>,
}

impl StrmPlan {
    /// The files after the plan was carried out.
    pub open spec fn apply(&self, files: Files) -> Files {
        match self.content {
            Some(text) => files.insert(self.path@, text@),
            None => files,
        }
    }
}

/// The plan for `media_path` over `files`: an existing placeholder is kept,
/// a missing one is written with the media file's path as its whole text.
pub open spec fn spec_plan(files: Files, media_path: Seq<char>) -> (Seq<char>, Option<Seq<char>>) {
    let path = placeholder_path(media_path);
    if files.contains_key(path) {
        (path, None)
    } else {
        (path, Some(media_path))
    }
}

/// The files after a placeholder was generated for `media_path`.
pub open spec fn spec_generate(files: Files, media_path: Seq<char>) -> Files {
    match spec_plan(files, media_path).1 {
        Some(text) => files.insert(spec_plan(files, media_path).0, text),
        None => files,
    }
}

/// Plans placeholders.
#[derive(Debug)]
pub struct StrmGenerator {
    pub config: SyncConfig,
}

impl Clone for StrmGenerator {
    fn clone(&self) -> (r: Self)
        ensures
            r.config@ == self.config@,
    {
        StrmGenerator { config: self.config.clone() }
    }
}

impl StrmGenerator {
    /// A codec for the rules.
    pub fn new(config: SyncConfig) -> (r: Self)
        ensures
            r.config == config,
    {
        StrmGenerator { config }
    }

    /// The path of the placeholder of `media_path`.
    pub fn strm_path(media_path: &str) -> (r: String)
        ensures
            r@ == placeholder_path(media_path@),
    {
        proof {
            reveal_strlit("strm");
        }
        with_extension(media_path, PLACEHOLDER_EXTENSION)
    }

    /// Plans the placeholder of `media_path`; `strm_exists` says whether a
    /// file already lies at the placeholder's path.
    pub fn generate_strm(&self, media_path: &str, strm_exists: bool) -> (r: StrmPlan)
        ensures
            r.path@ == placeholder_path(media_path@),
            r.content is None == strm_exists,
            r.content matches Some(text) ==> text@ == media_path@,
    {
        let path = Self::strm_path(media_path);
        if strm_exists {
            StrmPlan { path, content: None }
        } else {
            StrmPlan { path, content: Some(String::from_str(media_path)) }
        }
    }

    /// Begins the walk that plans the placeholders of every media file
    /// under `dir_path`.
    pub fn generate_strm_for_dir(&self, dir_path: &str) -> (r: TreeWalk)
        ensures
            r.pending@.len() == 1,
            r.pending@[0]@ == dir_path@,
            r.results@.len() == 0,
    {
        TreeWalk::new(dir_path)
    }

    /// Whether an entry found while walking a tree gets a placeholder: a
    /// file with a video or audio extension does, nothing else.
    pub fn qualifies(&self, path: &str, is_dir: bool) -> (r: bool)
        ensures
            r == (!is_dir && is_media(self.config@, path@)),
    {
        if is_dir {
            false
        } else {
            MediaDetector::check_extension(path, &self.config.video_extensions)
                || MediaDetector::check_extension(path, &self.config.audio_extensions)
        }
    }
}

/// The walk over a tree: the directories still to be read and the
/// placeholders planned so far. Directories are read in no promised order.
#[derive(Debug)]
pub struct TreeWalk {
    /// Directories still to be read; the last one is read next.
    pub pending: Vec<String>,
    /// The placeholder paths so far.
    pub results: Vec<String>,
}

impl TreeWalk {
    /// A walk that starts at `dir_path`.
    pub fn new(dir_path: &str) -> (r: Self)
        ensures
            r.pending@.len() == 1,
            r.pending@[0]@ == dir_path@,
            r.results@.len() == 0,
    {
        let mut pending: Vec<String> = Vec::new();
        pending.push(String::from_str(dir_path));
        TreeWalk { pending, results: Vec::new() }
    }

    /// The directory to read next; `None` when the walk is over.
    pub fn next_dir(&mut self) -> (r: Option<String>)
        ensures
            final(self).results == old(self).results,
            old(self).pending@.len() == 0 ==> r is None && final(self).pending@ == old(self).pending@,
            old(self).pending@.len() > 0 ==> r == Some(old(self).pending@.last())
                && final(self).pending@ == old(self).pending@.drop_last(),
    {
        self.pending.pop()
    }

    /// Takes one entry of the directory being read. A directory is put
    /// aside to be read later; a media file gets its placeholder planned,
    /// which is returned and counted among the results; any other file is
    /// passed over. `strm_exists` matters for media files only.
    pub fn visit(&mut self, generator: &StrmGenerator, path: &str, is_dir: bool, strm_exists: bool) -> (r:
        Option<StrmPlan>)
        ensures
            is_dir ==> r is None && final(self).results@ == old(self).results@
                && final(self).pending@.len() == old(self).pending@.len() + 1
                && final(self).pending@.last()@ == path@
                && final(self).pending@.drop_last() == old(self).pending@,
            !is_dir ==> final(self).pending@ == old(self).pending@,
            !is_dir && !is_media(generator.config@, path@) ==> r is None
                && final(self).results@ == old(self).results@,
            !is_dir && is_media(generator.config@, path@) ==> r is Some
                && r->0.path@ == placeholder_path(path@)
                && r->0.content is None == strm_exists
                && (r->0.content is Some ==> r->0.content->0@ == path@)
                && final(self).results@.len() == old(self).results@.len() + 1
                && final(self).results@.last()@ == placeholder_path(path@)
                && final(self).results@.drop_last() == old(self).results@,
    {
        if is_dir {
            self.pending.push(String::from_str(path));
            proof {
                assert(self.pending@.drop_last() =~= old(self).pending@);
            }
            None
        } else if generator.qualifies(path, false) {
            let plan = generator.generate_strm(path, strm_exists);
            self.results.push(plan.path.clone());
            proof {
                assert(self.results@.drop_last() =~= old(self).results@);
            }
            Some(plan)
        } else {
            None
        }
    }
}

/// Idempotence: generating a placeholder twice for one media path gives
/// the same placeholder path both times, the second time writes nothing,
/// and a placeholder that was there before keeps its text.
pub proof fn lemma_generate_idempotent(files: Files, media_path: Seq<char>)
    ensures
        spec_plan(spec_generate(files, media_path), media_path).0 == spec_plan(files, media_path).0,
        spec_plan(spec_generate(files, media_path), media_path).1 is None,
        spec_generate(spec_generate(files, media_path), media_path) == spec_generate(
            files,
            media_path,
        ),
        files.contains_key(placeholder_path(media_path)) ==> spec_generate(files, media_path)
            == files,
{
}

/// The plan that `generate_strm` returns is the plan over the files, and
/// carrying it out gives the files after generation.
pub proof fn lemma_plan_matches(files: Files, media_path: Seq<char>, plan: StrmPlan)
    requires
        plan.path@ == placeholder_path(media_path),
        plan.content is None == files.contains_key(placeholder_path(media_path)),
        plan.content matches Some(text) ==> text@ == media_path,
    ensures
        plan.apply(files) == spec_generate(files, media_path),
{
}

} // verus!
