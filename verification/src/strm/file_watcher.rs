//! The filter between raw file-system events and the orchestrator.

use vstd::prelude::*;
use vstd::string::*;
use crate::command::{push_arg, texts};
use crate::strm::config::{SyncConfig, SyncConfigView};
use crate::strm::detector::{all_compile, is_ignored, MediaDetector};
use crate::strm::error::SyncError;
use crate::watcher::EventKind;

verus! {

/// Of the first `n` paths, those that are handed on for an event of
/// `kind`: all of them for a removal, else those that are not ignored.
pub open spec fn delivered_paths(rules: SyncConfigView, paths: Seq<Seq<char>>, kind: EventKind, n: int) -> Seq<
    Seq<char>,
>
    decreases n,
{
    if n <= 0 {
        Seq::empty()
    } else if kind == EventKind::Removed || !is_ignored(rules, paths[n - 1]) {
        delivered_paths(rules, paths, kind, n - 1).push(paths[n - 1])
    } else {
        delivered_paths(rules, paths, kind, n - 1)
    }
}

/// Filters the paths of file-system events by the ignore rules.
#[derive(Debug)]
pub struct FileWatcher {
    pub config: SyncConfig,
    /// The classifier; missing where an ignore pattern does not compile.
    pub media_detector: Option<MediaDetector>,
}

impl FileWatcher {
    /// The detector, where there is one, works by the watcher's own rules.
    pub open spec fn wf(&self) -> bool {
        self.media_detector matches Some(d) ==> d.config@ == self.config@
    }

    /// A filter for the rules; without a classifier where an ignore pattern
    /// does not compile.
    pub fn new(config: SyncConfig) -> (r: Self)
        ensures
            r.wf(),
            r.config == config,
            r.media_detector is Some == all_compile(config@.ignore_regex),
    {
        let media_detector = match MediaDetector::new(config.clone()) {
            Ok(d) => Some(d),
            Err(_) => None,
        };
        FileWatcher { config, media_detector }
    }

    /// The rules the filter was made with.
    pub fn get_config(&self) -> (r: &SyncConfig)
        ensures
            *r == self.config,
    {
        &self.config
    }

    /// The paths of one event that are handed on, in their order. A
    /// removal always goes on; any other event goes on for the paths that
    /// the classifier's rules do not ignore. Fails without a classifier.
    pub fn handle_event(&self, paths: &Vec<String>, kind: EventKind) -> (r: Result<
        Vec<String>,
        SyncError,
    >)
        ensures
            r is Ok == self.media_detector is Some,
            r matches Ok(kept) ==> texts(kept@) == delivered_paths(
                self.media_detector->0.config@,
                texts(paths@),
                kind,
                paths@.len() as int,
            ),
            r matches Err(e) ==> (e matches SyncError::ConfigError(m) && m@
                == "Media detector is not initialized"@),
    {
        let detector = match &self.media_detector {
            Some(d) => d,
            None => {
                return Err(
                    SyncError::ConfigError(String::from_str("Media detector is not initialized")),
                );
            },
        };
        let n: usize = paths.len();
        let mut kept: Vec<String> = Vec::new();
        let mut i: usize = 0;
        proof {
            assert(texts(kept@) =~= delivered_paths(self.config@, texts(paths@), kind, 0));
        }
        while i < n
            invariant
                n == paths@.len(),
                i <= n,
                texts(kept@) == delivered_paths(detector.config@, texts(paths@), kind, i as int),
            decreases n - i,
        {
            proof {
                assert(texts(paths@)[i as int] == paths@[i as int]@);
            }
            let removed = match kind {
                EventKind::Removed => true,
                _ => false,
            };
            if removed || !detector.should_ignore(paths[i].as_str()) {
                push_arg(&mut kept, paths[i].clone());
            }
            i = i + 1;
        }
        Ok(kept)
    }
}

} // verus!
