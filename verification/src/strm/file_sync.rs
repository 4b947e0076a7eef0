//! The orchestrator: classifier, codec and strategy put together.

use vstd::prelude::*;
use vstd::string::*;
use crate::paths::{join_paths, path_join, path_strip_prefix, strip_prefix};
use crate::strm::config::{SyncConfig, SyncConfigView};
use crate::strm::detector::{all_compile, is_ignored, is_media, MediaDetector};
use crate::strm::error::SyncError;
use crate::strm::file_watcher::FileWatcher;
use crate::strm::generator::{StrmGenerator, TreeWalk};
use crate::strm::strategy::{
    is_missing_remote, LocalSyncStrategy, RcloneSyncStrategy, SyncStrategy, TransferStep,
};
use crate::text::same_text;
use crate::watcher::{EventKind, SyncEvent};

verus! {

/// What an event asks for.
#[derive(Debug)]
pub enum EventAction {
    /// Generate the placeholder of the media path at the mapped location.
    Generate(String),
    /// Delete the entry at the mapped location.
    Delete(String),
    /// Nothing.
    Nothing,
}

/// The event leads to an action on the mapped path: every removal, and a
/// creation or modification of a media file that is not ignored.
pub open spec fn needs_mapping(rules: SyncConfigView, path: Seq<char>, kind: EventKind) -> bool {
    match kind {
        EventKind::Removed => true,
        EventKind::Created | EventKind::Modified => is_media(rules, path) && !is_ignored(
            rules,
            path,
        ),
        EventKind::Other => false,
    }
}

/// The path under `dest` that stands for `path` under `src`; `None` where
/// `path` does not lie under `src`.
pub open spec fn mapped_path(src: Seq<char>, dest: Seq<char>, path: Seq<char>) -> Option<Seq<char>> {
    match path_strip_prefix(path, src) {
        Some(rel) => Some(path_join(dest, rel)),
        None => None,
    }
}

/// The action is the one that an event of `kind` on `path` asks for.
pub open spec fn is_dispatch(
    action: EventAction,
    rules: SyncConfigView,
    src: Seq<char>,
    dest: Seq<char>,
    path: Seq<char>,
    kind: EventKind,
) -> bool {
    if !needs_mapping(rules, path, kind) {
        action is Nothing
    } else if kind == EventKind::Removed {
        action matches EventAction::Delete(p) && Some(p@) == mapped_path(src, dest, path)
    } else {
        action matches EventAction::Generate(p) && Some(p@) == mapped_path(src, dest, path)
    }
}

/// How far a one-shot synchronisation has come.
#[derive(Debug, Clone, Copy, PartialEq, Eq, Structural)]
pub enum SyncPhase {
    /// Nothing was done yet.
    Start,
    /// The destination directory is being made sure of.
    Ensuring,
    /// The placeholders of the source tree are being written.
    Generating,
    /// Everything else is being transferred.
    Transferring,
    /// The run is over.
    Done,
}

/// What the driver of a one-shot synchronisation has to do next.
#[derive(Debug)]
pub enum SyncAction {
    /// Carry out the step and report how it went.
    Perform(TransferStep),
    /// Walk the source tree with this walk, write the placeholders it
    /// plans, and report how it went.
    GeneratePlaceholders(TreeWalk),
    /// The run is over, with this result.
    Finish(Result<(), SyncError>),
}

/// A one-shot synchronisation in progress.
#[derive(Debug)]
pub struct SyncRun {
    pub phase: SyncPhase,
}

/// The place of a phase in the order of a run.
pub open spec fn phase_rank(phase: SyncPhase) -> int {
    match phase {
        SyncPhase::Start => 0,
        SyncPhase::Ensuring => 1,
        SyncPhase::Generating => 2,
        SyncPhase::Transferring => 3,
        SyncPhase::Done => 4,
    }
}

/// Keeps a destination tree in step with a source tree.
#[derive(Debug)]
pub struct FileSync {
    pub config: SyncConfig,
    pub detector: MediaDetector,
    pub generator: StrmGenerator,
    pub strategy: SyncStrategy,
    /// The event filter; present where a quarantine directory is configured.
    pub watcher: Option<FileWatcher>,
}

impl FileSync {
    /// The rules of the strategy.
    pub open spec fn strategy_rules(&self) -> SyncConfigView {
        match self.strategy {
            SyncStrategy::Local(s) => s.config@,
            SyncStrategy::Rclone(s) => s.config@,
        }
    }

    /// What `new` establishes: all parts work by the same rules; the cloud
    /// backend is chosen exactly where a remote is configured; the event
    /// filter is there exactly where a quarantine directory is configured.
    pub open spec fn wf(&self) -> bool {
        &&& self.detector.config@ == self.config@
        &&& self.generator.config@ == self.config@
        &&& self.strategy_rules() == self.config@
        &&& self.strategy is Rclone == self.config@.rclone_remote is Some
        &&& self.watcher is Some == self.config@.soft_delete_dir is Some
        &&& self.watcher matches Some(w) ==> w.wf() && w.config@ == self.config@
        &&& all_compile(self.config@.ignore_regex)
    }

    /// An orchestrator for the rules. Fails exactly when an ignore pattern
    /// is not a valid regular expression.
    pub fn new(config: SyncConfig) -> (r: Result<Self, SyncError>)
        ensures
            r is Ok == all_compile(config@.ignore_regex),
            r matches Ok(s) ==> s.wf() && s.config == config,
            r matches Err(e) ==> e is RegexError,
    {
        let detector = match MediaDetector::new(config.clone()) {
            Ok(d) => d,
            Err(e) => {
                return Err(e);
            },
        };
        let generator = StrmGenerator::new(config.clone());
        let strategy = if config.rclone_remote.is_some() {
            SyncStrategy::Rclone(RcloneSyncStrategy::new(config.clone()))
        } else {
            SyncStrategy::Local(LocalSyncStrategy::new(config.clone()))
        };
        let watcher = if config.soft_delete_dir.is_some() {
            Some(FileWatcher::new(config.clone()))
        } else {
            None
        };
        Ok(FileSync { config, detector, generator, strategy, watcher })
    }

    /// The rules the orchestrator was made with.
    pub fn get_config(&self) -> (r: &SyncConfig)
        ensures
            *r == self.config,
    {
        &self.config
    }

    /// The placeholder codec.
    pub fn get_generator(&self) -> (r: &StrmGenerator)
        ensures
            *r == self.generator,
    {
        &self.generator
    }

    /// The step that makes sure of the destination directory.
    pub fn ensure_directory(&self, path: &str, exists: bool) -> (r: Result<TransferStep, SyncError>)
        ensures
            r is Ok == self.strategy.is_usable(),
            r matches Ok(step) ==> self.strategy.is_ensure_directory(step, path@, exists),
            r matches Err(e) ==> is_missing_remote(e),
    {
        self.strategy.ensure_directory(path, exists)
    }

    /// The transfer of a one-shot synchronisation, which follows the
    /// placeholders: `copy` adds to the destination, `sync` mirrors
    /// strictly, any other operation is refused by its name.
    pub fn sync_directory(&self, src: &str, dest: &str, operation: &str) -> (r: Result<
        TransferStep,
        SyncError,
    >)
        ensures
            r is Ok == ((operation@ == "copy"@ || operation@ == "sync"@)
                && self.strategy.is_usable()),
            r matches Ok(step) ==> self.strategy.is_transfer(
                step,
                src@,
                dest@,
                operation@ != "copy"@,
            ),
            r matches Err(e) ==> if operation@ == "copy"@ || operation@ == "sync"@ {
                is_missing_remote(e)
            } else {
                e matches SyncError::UnsupportedOperation(name) && name@ == operation@
            },
    {
        if same_text(operation, "copy") {
            self.strategy.copy(src, dest)
        } else if same_text(operation, "sync") {
            self.strategy.sync(src, dest)
        } else {
            Err(SyncError::UnsupportedOperation(String::from_str(operation)))
        }
    }

    /// A one-shot synchronisation that has not begun.
    pub fn begin_sync() -> (r: SyncRun)
        ensures
            r.phase == SyncPhase::Start,
    {
        SyncRun { phase: SyncPhase::Start }
    }

    /// The operation is one of those on offer and the backend can plan it.
    pub open spec fn can_transfer(&self, operation: Seq<char>) -> bool {
        (operation == "copy"@ || operation == "sync"@) && self.strategy.is_usable()
    }

    /// The step of a run that was at `phase` is the right one: first the
    /// destination directory is made sure of, then the placeholders of the
    /// source tree are written, then everything else is transferred. The
    /// first failure ends the run and is its result; an operation that is
    /// not on offer is found out when the transfer is due.
    pub open spec fn is_advance(
        &self,
        phase: SyncPhase,
        src: Seq<char>,
        dest: Seq<char>,
        operation: Seq<char>,
        dest_exists: bool,
        last: Result<(), SyncError>,
        next: SyncPhase,
        action: SyncAction,
    ) -> bool {
        match phase {
            SyncPhase::Start => if self.strategy.is_usable() {
                next == SyncPhase::Ensuring && (action matches SyncAction::Perform(step)
                    && self.strategy.is_ensure_directory(step, dest, dest_exists))
            } else {
                next == SyncPhase::Done && (action matches SyncAction::Finish(Err(e))
                    && is_missing_remote(e))
            },
            SyncPhase::Ensuring => if last is Ok {
                next == SyncPhase::Generating && (action matches SyncAction::GeneratePlaceholders(
                    walk,
                ) && walk.pending@.len() == 1 && walk.pending@[0]@ == src && walk.results@.len()
                    == 0)
            } else {
                next == SyncPhase::Done && action == SyncAction::Finish(last)
            },
            SyncPhase::Generating => if last is Err {
                next == SyncPhase::Done && action == SyncAction::Finish(last)
            } else if self.can_transfer(operation) {
                next == SyncPhase::Transferring && (action matches SyncAction::Perform(step)
                    && self.strategy.is_transfer(step, src, dest, operation != "copy"@))
            } else if operation == "copy"@ || operation == "sync"@ {
                next == SyncPhase::Done && (action matches SyncAction::Finish(Err(e))
                    && is_missing_remote(e))
            } else {
                next == SyncPhase::Done && (action matches SyncAction::Finish(
                    Err(SyncError::UnsupportedOperation(name)),
                ) && name@ == operation)
            },
            SyncPhase::Transferring => next == SyncPhase::Done && action == SyncAction::Finish(last),
            SyncPhase::Done => next == SyncPhase::Done && action == SyncAction::Finish(last),
        }
    }

    /// Decides the next step of a one-shot synchronisation of `src` into
    /// `dest`. `last` is how the step before went (it is not looked at when
    /// the run begins), `dest_exists` whether the destination directory is
    /// there.
    pub fn advance(
        &self,
        run: &mut SyncRun,
        src: &str,
        dest: &str,
        operation: &str,
        dest_exists: bool,
        last: Result<(), SyncError>,
    ) -> (action: SyncAction)
        ensures
            self.is_advance(
                old(run).phase,
                src@,
                dest@,
                operation@,
                dest_exists,
                last,
                final(run).phase,
                action,
            ),
    {
        match run.phase {
            SyncPhase::Start => match self.ensure_directory(dest, dest_exists) {
                Ok(step) => {
                    run.phase = SyncPhase::Ensuring;
                    SyncAction::Perform(step)
                },
                Err(e) => {
                    run.phase = SyncPhase::Done;
                    SyncAction::Finish(Err(e))
                },
            },
            SyncPhase::Ensuring => {
                if last.is_ok() {
                    run.phase = SyncPhase::Generating;
                    SyncAction::GeneratePlaceholders(self.generator.generate_strm_for_dir(src))
                } else {
                    run.phase = SyncPhase::Done;
                    SyncAction::Finish(last)
                }
            },
            SyncPhase::Generating => {
                if last.is_err() {
                    run.phase = SyncPhase::Done;
                    SyncAction::Finish(last)
                } else {
                    match self.sync_directory(src, dest, operation) {
                        Ok(step) => {
                            run.phase = SyncPhase::Transferring;
                            SyncAction::Perform(step)
                        },
                        Err(e) => {
                            run.phase = SyncPhase::Done;
                            SyncAction::Finish(Err(e))
                        },
                    }
                }
            },
            SyncPhase::Transferring => {
                run.phase = SyncPhase::Done;
                SyncAction::Finish(last)
            },
            SyncPhase::Done => SyncAction::Finish(last),
        }
    }

    /// The event filter of a watch; an error where none is configured.
    pub fn watch_directory(&self) -> (r: Result<&FileWatcher, SyncError>)
        ensures
            r is Ok == self.watcher is Some,
            r matches Ok(w) ==> *w == self.watcher->0,
            r matches Err(e) ==> (e matches SyncError::ConfigError(m) && m@
                == "File watcher not configured"@),
    {
        match &self.watcher {
            Some(w) => Ok(w),
            None => Err(SyncError::ConfigError(String::from_str("File watcher not configured"))),
        }
    }

    /// Turns one event on a path under `src` into an action on the path
    /// that stands for it under `dest`, by the classifier's rules. A path
    /// that is to be acted on but does not lie under `src` is an error.
    pub fn dispatch_event(&self, src: &str, dest: &str, event: &SyncEvent) -> (r: Result<
        EventAction,
        SyncError,
    >)
        ensures
            r is Err == (needs_mapping(self.detector.config@, event.path@, event.kind)
                && mapped_path(src@, dest@, event.path@) is None),
            r matches Ok(action) ==> is_dispatch(
                action,
                self.detector.config@,
                src@,
                dest@,
                event.path@,
                event.kind,
            ),
            r matches Err(e) ==> (e matches SyncError::PathError(m) && m@ == "prefix not found"@),
    {
        let path = event.path.as_str();
        match event.kind {
            EventKind::Created | EventKind::Modified => {
                if self.detector.is_media_file(path) && !self.detector.should_ignore(path) {
                    match strip_prefix(path, src) {
                        Some(rel) => Ok(EventAction::Generate(join_paths(dest, rel.as_str()))),
                        None => Err(SyncError::PathError(String::from_str("prefix not found"))),
                    }
                } else {
                    Ok(EventAction::Nothing)
                }
            },
            EventKind::Removed => match strip_prefix(path, src) {
                Some(rel) => Ok(EventAction::Delete(join_paths(dest, rel.as_str()))),
                None => Err(SyncError::PathError(String::from_str("prefix not found"))),
            },
            EventKind::Other => Ok(EventAction::Nothing),
        }
    }

    /// The step that carries out the deletion an event asked for.
    pub fn delete(&self, path: &str) -> (r: Result<TransferStep, SyncError>)
        ensures
            r is Ok == self.strategy.can_delete(path@),
            r matches Ok(step) ==> self.strategy.is_delete(step, path@),
            r matches Err(e) ==> self.strategy.is_delete_error(e),
    {
        self.strategy.delete(path)
    }
}

/// A run never goes back: every step leaves it at a later phase, and a run
/// that is over stays over.
pub proof fn lemma_run_moves_forward(
    sync: FileSync,
    phase: SyncPhase,
    src: Seq<char>,
    dest: Seq<char>,
    operation: Seq<char>,
    dest_exists: bool,
    last: Result<(), SyncError>,
    next: SyncPhase,
    action: SyncAction,
)
    requires
        sync.is_advance(phase, src, dest, operation, dest_exists, last, next, action),
    ensures
        phase_rank(next) > phase_rank(phase) || (phase == SyncPhase::Done && next
            == SyncPhase::Done),
        action is Finish <==> next == SyncPhase::Done,
        phase != SyncPhase::Start && last is Err ==> action == SyncAction::Finish(last),
{
}

/// An orchestrator as `new` makes it can plan every transfer: where the
/// cloud backend was chosen, its remote is configured.
pub proof fn lemma_chosen_backend_is_usable(sync: FileSync)
    requires
        sync.wf(),
    ensures
        sync.strategy.is_usable(),
        sync.detector.config@ == sync.config@,
{
}

} // verus!
