//! The transfer strategies: what each backend runs to replicate a tree, to
//! delete an entry and to make sure a directory exists.

use vstd::prelude::*;
use vstd::string::*;
use crate::command::{flagged, push_all, push_arg, push_flagged, push_text, texts, SyncCommand};
use crate::paths::{file_name_of, join_paths, path_file_name, path_join};
use crate::strm::config::SyncConfig;
use crate::strm::error::SyncError;
use crate::text::{join2, join3};

verus! {

/// How a transfer ended.
#[derive(Debug)]
pub struct TransferOutcome {
    /// The tool reported success.
    pub success: bool,
    /// What the tool wrote to its error output.
    pub diagnostic: String,
}

/// One thing for the driver to carry out.
#[derive(Debug)]
pub enum TransferStep {
    /// Run the command and report how it ended.
    Run(SyncCommand),
    /// Move an entry: from, to.
    Rename(String, String),
    /// Remove a file.
    Remove(String),
    /// Create a directory and its missing parents.
    CreateDirectory(String),
    /// Nothing to do.
    Nothing,
}

/// The exclusions that keep media files out of a transfer: `--exclude`,
/// `*.EXT` for every video and then every audio extension.
pub open spec fn media_exclusions(video: Seq<String>, audio: Seq<String>) -> Seq<Seq<char>> {
    flagged("--exclude"@, "*."@, video) + flagged("--exclude"@, "*."@, audio)
}

fn push_media_exclusions(args: &mut Vec<String>, config: &SyncConfig)
    ensures
        texts(final(args)@) == texts(old(args)@) + media_exclusions(
            config.video_extensions@,
            config.audio_extensions@,
        ),
{
    push_flagged(args, "--exclude", "*.", &config.video_extensions);
    push_flagged(args, "--exclude", "*.", &config.audio_extensions);
    proof {
        assert(texts(args@) =~= texts(old(args)@) + media_exclusions(
            config.video_extensions@,
            config.audio_extensions@,
        ));
    }
}

/// The backend for paths that this host can reach.
#[derive(Debug)]
pub struct LocalSyncStrategy {
    pub config: SyncConfig,
}

impl LocalSyncStrategy {
    /// A backend for the rules.
    pub fn new(config: SyncConfig) -> (r: Self)
        ensures
            r.config == config,
    {
        LocalSyncStrategy { config }
    }

    /// `--delete` for a strict mirror, nothing for an additive copy.
    pub open spec fn spec_delete_args(delete: bool) -> Seq<Seq<char>> {
        if delete {
            seq!["--delete"@]
        } else {
            Seq::empty()
        }
    }

    /// The configured extra arguments.
    pub open spec fn spec_extra_args(&self) -> Seq<Seq<char>> {
        match self.config.rsync_args {
            Some(a) => texts(a@),
            None => Seq::empty(),
        }
    }

    /// The arguments of a mirroring run: archive and progress flags, the
    /// source with a trailing slash, the media exclusions, `--delete` for a
    /// strict mirror, the destination, and the configured extra arguments.
    pub open spec fn spec_rsync_args(&self, src: Seq<char>, dest: Seq<char>, delete: bool) -> Seq<
        Seq<char>,
    > {
        seq!["-avz"@, "--progress"@, src + "/"@] + media_exclusions(
            self.config.video_extensions@,
            self.config.audio_extensions@,
        ) + Self::spec_delete_args(delete) + seq![dest] + self.spec_extra_args()
    }

    /// The command that mirrors `src` into `dest`, media files left out.
    pub fn build_rsync_command(&self, src: &str, dest: &str, delete: bool) -> (r: SyncCommand)
        ensures
            r.spec_program() == "rsync"@,
            r.spec_args() == self.spec_rsync_args(src@, dest@, delete),
    {
        let mut args: Vec<String> = Vec::new();
        push_text(&mut args, "-avz");
        push_text(&mut args, "--progress");
        push_arg(&mut args, join2(src, "/"));
        proof {
            assert(texts(args@) =~= seq!["-avz"@, "--progress"@, src@ + "/"@]);
        }
        push_media_exclusions(&mut args, &self.config);
        let ghost g1 = texts(args@);
        if delete {
            push_text(&mut args, "--delete");
        }
        proof {
            assert(texts(args@) =~= g1 + Self::spec_delete_args(delete));
        }
        let ghost g2 = texts(args@);
        push_text(&mut args, dest);
        proof {
            assert(texts(args@) =~= g2 + seq![dest@]);
        }
        let ghost g3 = texts(args@);
        match &self.config.rsync_args {
            Some(extra) => {
                push_all(&mut args, extra);
            },
            None => {},
        }
        proof {
            assert(texts(args@) =~= g3 + self.spec_extra_args());
        }
        SyncCommand { program: String::from_str("rsync"), args }
    }

    /// Additive copy of `src` into `dest`.
    pub fn copy(&self, src: &str, dest: &str) -> (r: TransferStep)
        ensures
            r matches TransferStep::Run(c) && c.spec_program() == "rsync"@ && c.spec_args()
                == self.spec_rsync_args(src@, dest@, false),
    {
        TransferStep::Run(self.build_rsync_command(src, dest, false))
    }

    /// Strict mirror of `src` into `dest`.
    pub fn sync(&self, src: &str, dest: &str) -> (r: TransferStep)
        ensures
            r matches TransferStep::Run(c) && c.spec_program() == "rsync"@ && c.spec_args()
                == self.spec_rsync_args(src@, dest@, true),
    {
        TransferStep::Run(self.build_rsync_command(src, dest, true))
    }

    /// What deleting `path` means: with a quarantine directory the entry is
    /// moved there under its own name, which fails for a path without a
    /// file name; without one the file is removed.
    pub fn delete(&self, path: &str) -> (r: Result<TransferStep, SyncError>)
        ensures
            r is Err == (self.config.soft_delete_dir is Some && path_file_name(path@) is None),
            r matches Err(e) ==> (e matches SyncError::PathError(m) && m@ == "Invalid file name"@),
            r matches Ok(step) ==> match self.config.soft_delete_dir {
                Some(dir) => step matches TransferStep::Rename(from, to) && from@ == path@ && to@
                    == path_join(dir@, path_file_name(path@)->0),
                None => step matches TransferStep::Remove(p) && p@ == path@,
            },
    {
        match &self.config.soft_delete_dir {
            Some(dir) => match file_name_of(path) {
                Some(name) => Ok(
                    TransferStep::Rename(
                        String::from_str(path),
                        join_paths(dir.as_str(), name.as_str()),
                    ),
                ),
                None => Err(SyncError::PathError(String::from_str("Invalid file name"))),
            },
            None => Ok(TransferStep::Remove(String::from_str(path))),
        }
    }

    /// What making sure of a directory means: nothing where it exists.
    pub fn ensure_directory(&self, path: &str, exists: bool) -> (r: TransferStep)
        ensures
            exists ==> r is Nothing,
            !exists ==> (r matches TransferStep::CreateDirectory(p) && p@ == path@),
    {
        if exists {
            TransferStep::Nothing
        } else {
            TransferStep::CreateDirectory(String::from_str(path))
        }
    }

    /// The result of a run: a failure carries the tool's error output.
    pub fn finish(outcome: TransferOutcome) -> (r: Result<(), SyncError>)
        ensures
            r is Ok == outcome.success,
            r matches Err(e) ==> (e matches SyncError::RsyncError(m) && m == outcome.diagnostic),
    {
        if outcome.success {
            Ok(())
        } else {
            Err(SyncError::RsyncError(outcome.diagnostic))
        }
    }
}

/// The backend for a named remote of the cloud transfer tool.
#[derive(Debug)]
pub struct RcloneSyncStrategy {
    pub config: SyncConfig,
}

impl RcloneSyncStrategy {
    /// A backend for the rules.
    pub fn new(config: SyncConfig) -> (r: Self)
        ensures
            r.config == config,
    {
        RcloneSyncStrategy { config }
    }

    /// `path` on the remote: `REMOTE:PATH`.
    pub open spec fn spec_remote_path(remote: Seq<char>, path: Seq<char>) -> Seq<char> {
        remote + ":"@ + path
    }

    /// The arguments of a transfer: the operation, the progress flag, the
    /// source with a trailing slash, the media exclusions, the destination.
    pub open spec fn spec_rclone_args(&self, operation: Seq<char>, src: Seq<char>, dest: Seq<char>) -> Seq<
        Seq<char>,
    > {
        seq![operation, "--progress"@, src + "/"@] + media_exclusions(
            self.config.video_extensions@,
            self.config.audio_extensions@,
        ) + seq![dest]
    }

    /// The command that transfers `src` to `dest`, media files left out.
    pub fn build_rclone_command(&self, operation: &str, src: &str, dest: &str) -> (r: SyncCommand)
        ensures
            r.spec_program() == "rclone"@,
            r.spec_args() == self.spec_rclone_args(operation@, src@, dest@),
    {
        let mut args: Vec<String> = Vec::new();
        push_text(&mut args, operation);
        push_text(&mut args, "--progress");
        push_arg(&mut args, join2(src, "/"));
        proof {
            assert(texts(args@) =~= seq![operation@, "--progress"@, src@ + "/"@]);
        }
        push_media_exclusions(&mut args, &self.config);
        let ghost g1 = texts(args@);
        push_text(&mut args, dest);
        proof {
            assert(texts(args@) =~= g1 + seq![dest@]);
        }
        SyncCommand { program: String::from_str("rclone"), args }
    }

    /// `path` on the configured remote; an error without a remote.
    pub fn remote_path(&self, path: &str) -> (r: Result<String, SyncError>)
        ensures
            r is Ok == self.config.rclone_remote is Some,
            r matches Ok(p) ==> p@ == Self::spec_remote_path(self.config.rclone_remote->0@, path@),
            r matches Err(e) ==> (e matches SyncError::ConfigError(m) && m@
                == "Rclone remote not configured"@),
    {
        match &self.config.rclone_remote {
            Some(remote) => Ok(join3(remote.as_str(), ":", path)),
            None => Err(SyncError::ConfigError(String::from_str("Rclone remote not configured"))),
        }
    }

    fn transfer(&self, operation: &str, src: &str, dest: &str) -> (r: Result<TransferStep, SyncError>)
        ensures
            r is Ok == self.config.rclone_remote is Some,
            r matches Ok(step) ==> (step matches TransferStep::Run(c) && c.spec_program()
                == "rclone"@ && c.spec_args() == self.spec_rclone_args(
                operation@,
                src@,
                Self::spec_remote_path(self.config.rclone_remote->0@, dest@),
            )),
            r matches Err(e) ==> (e matches SyncError::ConfigError(m) && m@
                == "Rclone remote not configured"@),
    {
        match self.remote_path(dest) {
            Ok(target) => Ok(
                TransferStep::Run(self.build_rclone_command(operation, src, target.as_str())),
            ),
            Err(e) => Err(e),
        }
    }

    /// Additive copy of `src` to `dest` on the remote.
    pub fn copy(&self, src: &str, dest: &str) -> (r: Result<TransferStep, SyncError>)
        ensures
            r is Ok == self.config.rclone_remote is Some,
            r matches Ok(step) ==> (step matches TransferStep::Run(c) && c.spec_program()
                == "rclone"@ && c.spec_args() == self.spec_rclone_args(
                "copy"@,
                src@,
                Self::spec_remote_path(self.config.rclone_remote->0@, dest@),
            )),
            r matches Err(e) ==> (e matches SyncError::ConfigError(m) && m@
                == "Rclone remote not configured"@),
    {
        self.transfer("copy", src, dest)
    }

    /// Strict mirror of `src` to `dest` on the remote.
    pub fn sync(&self, src: &str, dest: &str) -> (r: Result<TransferStep, SyncError>)
        ensures
            r is Ok == self.config.rclone_remote is Some,
            r matches Ok(step) ==> (step matches TransferStep::Run(c) && c.spec_program()
                == "rclone"@ && c.spec_args() == self.spec_rclone_args(
                "sync"@,
                src@,
                Self::spec_remote_path(self.config.rclone_remote->0@, dest@),
            )),
            r matches Err(e) ==> (e matches SyncError::ConfigError(m) && m@
                == "Rclone remote not configured"@),
    {
        self.transfer("sync", src, dest)
    }

    /// Deletes `path` on the remote.
    pub fn delete(&self, path: &str) -> (r: Result<TransferStep, SyncError>)
        ensures
            r is Ok == self.config.rclone_remote is Some,
            r matches Ok(step) ==> (step matches TransferStep::Run(c) && c.spec_program()
                == "rclone"@ && c.spec_args() == seq![
                "delete"@,
                Self::spec_remote_path(self.config.rclone_remote->0@, path@),
            ]),
            r matches Err(e) ==> (e matches SyncError::ConfigError(m) && m@
                == "Rclone remote not configured"@),
    {
        match self.remote_path(path) {
            Ok(target) => {
                let mut args: Vec<String> = Vec::new();
                push_text(&mut args, "delete");
                push_arg(&mut args, target);
                proof {
                    assert(texts(args@) =~= seq![
                        "delete"@,
                        Self::spec_remote_path(self.config.rclone_remote->0@, path@),
                    ]);
                }
                Ok(TransferStep::Run(SyncCommand { program: String::from_str("rclone"), args }))
            },
            Err(e) => Err(e),
        }
    }

    /// Makes sure that `path` exists on the remote, parents included.
    pub fn ensure_directory(&self, path: &str) -> (r: Result<TransferStep, SyncError>)
        ensures
            r is Ok == self.config.rclone_remote is Some,
            r matches Ok(step) ==> (step matches TransferStep::Run(c) && c.spec_program()
                == "rclone"@ && c.spec_args() == seq![
                "mkdir"@,
                "--parents"@,
                Self::spec_remote_path(self.config.rclone_remote->0@, path@),
            ]),
            r matches Err(e) ==> (e matches SyncError::ConfigError(m) && m@
                == "Rclone remote not configured"@),
    {
        match self.remote_path(path) {
            Ok(target) => {
                let mut args: Vec<String> = Vec::new();
                push_text(&mut args, "mkdir");
                push_text(&mut args, "--parents");
                push_arg(&mut args, target);
                proof {
                    assert(texts(args@) =~= seq![
                        "mkdir"@,
                        "--parents"@,
                        Self::spec_remote_path(self.config.rclone_remote->0@, path@),
                    ]);
                }
                Ok(TransferStep::Run(SyncCommand { program: String::from_str("rclone"), args }))
            },
            Err(e) => Err(e),
        }
    }

    /// The result of a run: a failure carries the tool's error output.
    pub fn finish(outcome: TransferOutcome) -> (r: Result<(), SyncError>)
        ensures
            r is Ok == outcome.success,
            r matches Err(e) ==> (e matches SyncError::RcloneError(m) && m == outcome.diagnostic),
    {
        if outcome.success {
            Ok(())
        } else {
            Err(SyncError::RcloneError(outcome.diagnostic))
        }
    }
}

/// The `i`-th media extension of the rules: the video extensions first,
/// then the audio extensions.
pub open spec fn media_extension(video: Seq<String>, audio: Seq<String>, i: int) -> Seq<char> {
    if i < video.len() {
        video[i]@
    } else {
        audio[i - video.len()]@
    }
}

/// The exclusions name every media extension: the `i`-th one is excluded
/// by the `i`-th pair of arguments.
pub proof fn lemma_exclusions_name_media(video: Seq<String>, audio: Seq<String>, i: int)
    requires
        0 <= i < video.len() + audio.len(),
    ensures
        media_exclusions(video, audio).len() == 2 * (video.len() + audio.len()),
        media_exclusions(video, audio)[2 * i] == "--exclude"@,
        media_exclusions(video, audio)[2 * i + 1] == "*."@ + media_extension(video, audio, i),
{
    let v = flagged("--exclude"@, "*."@, video);
    let a = flagged("--exclude"@, "*."@, audio);
    if i < video.len() {
        assert(v[2 * i] == "--exclude"@);
        assert(v[2 * i + 1] == "*."@ + video[i]@);
    } else {
        let k = i - video.len();
        assert(a[2 * k] == "--exclude"@);
        assert(a[2 * k + 1] == "*."@ + audio[k]@);
    }
}

/// Media files are never transferred by the local backend: whatever the
/// paths and the mode, the command excludes every video and audio
/// extension of the rules.
pub proof fn lemma_local_transfer_excludes_media(
    local: LocalSyncStrategy,
    src: Seq<char>,
    dest: Seq<char>,
    delete: bool,
    i: int,
)
    requires
        0 <= i < local.config.video_extensions@.len() + local.config.audio_extensions@.len(),
    ensures
        local.spec_rsync_args(src, dest, delete)[3 + 2 * i] == "--exclude"@,
        local.spec_rsync_args(src, dest, delete)[3 + 2 * i + 1] == "*."@ + media_extension(
            local.config.video_extensions@,
            local.config.audio_extensions@,
            i,
        ),
{
    lemma_exclusions_name_media(local.config.video_extensions@, local.config.audio_extensions@, i);
}

/// Media files are never transferred by the cloud backend: whatever the
/// operation and the paths, the command excludes every video and audio
/// extension of the rules.
pub proof fn lemma_remote_transfer_excludes_media(
    remote: RcloneSyncStrategy,
    operation: Seq<char>,
    src: Seq<char>,
    dest: Seq<char>,
    i: int,
)
    requires
        0 <= i < remote.config.video_extensions@.len() + remote.config.audio_extensions@.len(),
    ensures
        remote.spec_rclone_args(operation, src, dest)[3 + 2 * i] == "--exclude"@,
        remote.spec_rclone_args(operation, src, dest)[3 + 2 * i + 1] == "*."@ + media_extension(
            remote.config.video_extensions@,
            remote.config.audio_extensions@,
            i,
        ),
{
    lemma_exclusions_name_media(remote.config.video_extensions@, remote.config.audio_extensions@, i);
}

/// The step is a run of the local tool that mirrors `src` into `dest`.
pub open spec fn is_local_transfer(
    local: LocalSyncStrategy,
    step: TransferStep,
    src: Seq<char>,
    dest: Seq<char>,
    delete: bool,
) -> bool {
    step matches TransferStep::Run(c) && c.spec_program() == "rsync"@ && c.spec_args()
        == local.spec_rsync_args(src, dest, delete)
}

/// The step deletes `path` as the local backend does: a move into the
/// quarantine directory where one is configured, a removal otherwise.
pub open spec fn is_local_delete(local: LocalSyncStrategy, step: TransferStep, path: Seq<char>) -> bool {
    match local.config.soft_delete_dir {
        Some(dir) => step matches TransferStep::Rename(from, to) && from@ == path && to@
            == path_join(dir@, path_file_name(path)->0),
        None => step matches TransferStep::Remove(p) && p@ == path,
    }
}

/// The step is a run of the cloud tool with these arguments.
pub open spec fn is_remote_run(step: TransferStep, args: Seq<Seq<char>>) -> bool {
    step matches TransferStep::Run(c) && c.spec_program() == "rclone"@ && c.spec_args() == args
}

/// The error of a cloud backend without a remote.
pub open spec fn is_missing_remote(e: SyncError) -> bool {
    e matches SyncError::ConfigError(m) && m@ == "Rclone remote not configured"@
}

/// The backend of an orchestrator, chosen once.
#[derive(Debug)]
pub enum SyncStrategy {
    Local(LocalSyncStrategy),
    Rclone(RcloneSyncStrategy),
}

impl SyncStrategy {
    /// Whether every operation of the backend can be planned: the cloud
    /// backend needs its remote.
    pub open spec fn is_usable(&self) -> bool {
        match self {
            SyncStrategy::Local(_) => true,
            SyncStrategy::Rclone(s) => s.config.rclone_remote is Some,
        }
    }

    /// The step is the transfer of `src` to `dest` by this backend, strict
    /// or additive.
    pub open spec fn is_transfer(&self, step: TransferStep, src: Seq<char>, dest: Seq<char>, strict: bool) -> bool {
        match self {
            SyncStrategy::Local(s) => is_local_transfer(*s, step, src, dest, strict),
            SyncStrategy::Rclone(s) => is_remote_run(
                step,
                s.spec_rclone_args(
                    if strict {
                        "sync"@
                    } else {
                        "copy"@
                    },
                    src,
                    RcloneSyncStrategy::spec_remote_path(s.config.rclone_remote->0@, dest),
                ),
            ),
        }
    }

    /// The step deletes `path` as this backend does.
    pub open spec fn is_delete(&self, step: TransferStep, path: Seq<char>) -> bool {
        match self {
            SyncStrategy::Local(s) => is_local_delete(*s, step, path),
            SyncStrategy::Rclone(s) => is_remote_run(
                step,
                seq![
                    "delete"@,
                    RcloneSyncStrategy::spec_remote_path(s.config.rclone_remote->0@, path),
                ],
            ),
        }
    }

    /// Whether deleting `path` can be planned.
    pub open spec fn can_delete(&self, path: Seq<char>) -> bool {
        match self {
            SyncStrategy::Local(s) => !(s.config.soft_delete_dir is Some && path_file_name(path) is None),
            SyncStrategy::Rclone(s) => s.config.rclone_remote is Some,
        }
    }

    /// The error of a deletion that cannot be planned.
    pub open spec fn is_delete_error(&self, e: SyncError) -> bool {
        match self {
            SyncStrategy::Local(_) => e matches SyncError::PathError(m) && m@ == "Invalid file name"@,
            SyncStrategy::Rclone(_) => is_missing_remote(e),
        }
    }

    /// The step makes sure that `path` exists, as this backend does.
    pub open spec fn is_ensure_directory(&self, step: TransferStep, path: Seq<char>, exists: bool) -> bool {
        match self {
            SyncStrategy::Local(_) => if exists {
                step is Nothing
            } else {
                step matches TransferStep::CreateDirectory(p) && p@ == path
            },
            SyncStrategy::Rclone(s) => is_remote_run(
                step,
                seq![
                    "mkdir"@,
                    "--parents"@,
                    RcloneSyncStrategy::spec_remote_path(s.config.rclone_remote->0@, path),
                ],
            ),
        }
    }

    /// Mirrors `src` into `dest`, media files left out; with
    /// `delete_extraneous`, destination entries absent from the source are
    /// removed as well.
    pub fn replicate(&self, src: &str, dest: &str, delete_extraneous: bool) -> (r: Result<
        TransferStep,
        SyncError,
    >)
        ensures
            r is Ok == self.is_usable(),
            r matches Ok(step) ==> self.is_transfer(step, src@, dest@, delete_extraneous),
            r matches Err(e) ==> is_missing_remote(e),
    {
        if delete_extraneous {
            self.sync(src, dest)
        } else {
            self.copy(src, dest)
        }
    }

    /// Additive copy of `src` into `dest`.
    pub fn copy(&self, src: &str, dest: &str) -> (r: Result<TransferStep, SyncError>)
        ensures
            r is Ok == self.is_usable(),
            r matches Ok(step) ==> self.is_transfer(step, src@, dest@, false),
            r matches Err(e) ==> is_missing_remote(e),
    {
        match self {
            SyncStrategy::Local(s) => Ok(s.copy(src, dest)),
            SyncStrategy::Rclone(s) => s.copy(src, dest),
        }
    }

    /// Strict mirror of `src` into `dest`.
    pub fn sync(&self, src: &str, dest: &str) -> (r: Result<TransferStep, SyncError>)
        ensures
            r is Ok == self.is_usable(),
            r matches Ok(step) ==> self.is_transfer(step, src@, dest@, true),
            r matches Err(e) ==> is_missing_remote(e),
    {
        match self {
            SyncStrategy::Local(s) => Ok(s.sync(src, dest)),
            SyncStrategy::Rclone(s) => s.sync(src, dest),
        }
    }

    /// Deletes the entry at `path`.
    pub fn delete(&self, path: &str) -> (r: Result<TransferStep, SyncError>)
        ensures
            r is Ok == self.can_delete(path@),
            r matches Ok(step) ==> self.is_delete(step, path@),
            r matches Err(e) ==> self.is_delete_error(e),
    {
        match self {
            SyncStrategy::Local(s) => s.delete(path),
            SyncStrategy::Rclone(s) => s.delete(path),
        }
    }

    /// Makes sure that the directory `path` exists; `exists` says whether
    /// it does on this host, which the cloud backend does not ask.
    pub fn ensure_directory(&self, path: &str, exists: bool) -> (r: Result<TransferStep, SyncError>)
        ensures
            r is Ok == self.is_usable(),
            r matches Ok(step) ==> self.is_ensure_directory(step, path@, exists),
            r matches Err(e) ==> is_missing_remote(e),
    {
        match self {
            SyncStrategy::Local(s) => Ok(s.ensure_directory(path, exists)),
            SyncStrategy::Rclone(s) => s.ensure_directory(path),
        }
    }

    /// The result of a run: a failure carries the tool's error output,
    /// under the backend's own error.
    pub fn finish(&self, outcome: TransferOutcome) -> (r: Result<(), SyncError>)
        ensures
            r is Ok == outcome.success,
            r matches Err(e) ==> match self {
                SyncStrategy::Local(_) => e matches SyncError::RsyncError(m) && m
                    == outcome.diagnostic,
                SyncStrategy::Rclone(_) => e matches SyncError::RcloneError(m) && m
                    == outcome.diagnostic,
            },
    {
        match self {
            SyncStrategy::Local(_) => LocalSyncStrategy::finish(outcome),
            SyncStrategy::Rclone(_) => RcloneSyncStrategy::finish(outcome),
        }
    }
}

} // verus!
