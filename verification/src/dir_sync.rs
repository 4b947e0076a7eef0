//! Directory mirroring through rsync: the configuration, the checks made
//! before a run, the command line, and the reading of the tool's output.

use vstd::prelude::*;
use vstd::string::*;
use crate::command::{
    clone_opt, clone_texts, join_strings, join_with, prefixed, push_arg, push_prefixed,
    push_text, texts, SyncCommand,
};
use crate::location::DirLocation;
use crate::pattern::{is_valid_pattern, pattern_compiles, search};
use crate::ssh::SSH_PASSWORD_OPTIONS;
use crate::text::{
    contains, ends_with, is_prefix, is_suffix, occurs_in, same_text, starts_with,
    trim_start, trim_start_matches,
};

verus! {

/// What to mirror, where to, and which files take part.
#[derive(Debug)]
pub struct DirSyncConfig {
    pub source: DirLocation,
    pub destination: DirLocation,
    /// Strict mirroring also deletes destination entries absent from the source.
    pub strict_mode: bool,
    /// Suffixes to include, without a leading dot. When not empty, only these take part.
    pub include_suffixes: Vec<String>,
    /// Suffixes to exclude, without a leading dot. Used when no include suffix is set.
    pub exclude_suffixes: Vec<String>,
    /// A pattern for names to exclude.
    pub exclude_regex: Option<String>,
    /// A file that must exist for a run to start.
    pub guard_file: Option<String>,
}

impl Default for DirSyncConfig {
    fn default() -> (r: Self)
        ensures
            r.source.path@.len() == 0 && r.source.is_dir && r.source.ssh_config is None,
            r.destination.path@.len() == 0 && r.destination.is_dir && r.destination.ssh_config is None,
            !r.strict_mode,
            r.include_suffixes@.len() == 0,
            r.exclude_suffixes@.len() == 0,
            r.exclude_regex is None,
            r.guard_file is None,
    {
        DirSyncConfig {
            source: DirLocation::default(),
            destination: DirLocation::default(),
            strict_mode: false,
            include_suffixes: Vec::new(),
            exclude_suffixes: Vec::new(),
            exclude_regex: None,
            guard_file: None,
        }
    }
}

impl Clone for DirSyncConfig {
    fn clone(&self) -> (r: Self)
        ensures
            r.source == self.source,
            r.destination == self.destination,
            r.strict_mode == self.strict_mode,
            r.include_suffixes@ == self.include_suffixes@,
            r.exclude_suffixes@ == self.exclude_suffixes@,
            r.exclude_regex == self.exclude_regex,
            r.guard_file == self.guard_file,
    {
        DirSyncConfig {
            source: self.source.clone(),
            destination: self.destination.clone(),
            strict_mode: self.strict_mode,
            include_suffixes: clone_texts(&self.include_suffixes),
            exclude_suffixes: clone_texts(&self.exclude_suffixes),
            exclude_regex: clone_opt(&self.exclude_regex),
            guard_file: clone_opt(&self.guard_file),
        }
    }
}

/// Each suffix without its leading dots.
pub open spec fn undotted(suffixes: Seq<&str>) -> Seq<Seq<char>> {
    Seq::new(suffixes.len(), |i: int| trim_start(suffixes[i]@, '.'))
}

fn strip_dots(suffixes: &Vec<&str>) -> (r: Vec<String>)
    ensures
        texts(r@) == undotted(suffixes@),
{
    let n: usize = suffixes.len();
    let mut r: Vec<String> = Vec::new();
    let mut i: usize = 0;
    proof {
        assert(texts(r@) =~= undotted(suffixes@).subrange(0, 0));
    }
    while i < n
        invariant
            n == suffixes@.len(),
            i <= n,
            texts(r@) == undotted(suffixes@).subrange(0, i as int),
        decreases n - i,
    {
        let s = trim_start_matches(suffixes[i], '.');
        push_arg(&mut r, s);
        proof {
            assert(texts(r@) =~= undotted(suffixes@).subrange(0, i + 1));
        }
        i = i + 1;
    }
    proof {
        assert(undotted(suffixes@).subrange(0, n as int) =~= undotted(suffixes@));
    }
    r
}

impl DirSyncConfig {
    /// The empty configuration: no paths, additive copy, no filters, no guard.
    pub fn new() -> (r: Self)
        ensures
            r.source.path@.len() == 0 && r.source.is_dir && r.source.ssh_config is None,
            r.destination.path@.len() == 0 && r.destination.is_dir && r.destination.ssh_config is None,
            !r.strict_mode,
            r.include_suffixes@.len() == 0,
            r.exclude_suffixes@.len() == 0,
            r.exclude_regex is None,
            r.guard_file is None,
    {
        DirSyncConfig::default()
    }

    /// Starts a chain of `with_` calls from the empty configuration.
    pub fn builder() -> (r: Self)
        ensures
            r.source.path@.len() == 0 && r.source.is_dir && r.source.ssh_config is None,
            r.destination.path@.len() == 0 && r.destination.is_dir && r.destination.ssh_config is None,
            !r.strict_mode,
            r.include_suffixes@.len() == 0,
            r.exclude_suffixes@.len() == 0,
            r.exclude_regex is None,
            r.guard_file is None,
    {
        DirSyncConfig::new()
    }

    /// Sets where to mirror from.
    pub fn with_source(self, source: DirLocation) -> (r: Self)
        ensures
            r == (DirSyncConfig { source: source, ..self }),
    {
        DirSyncConfig { source: source, ..self }
    }

    /// Sets where to mirror to.
    pub fn with_destination(self, destination: DirLocation) -> (r: Self)
        ensures
            r == (DirSyncConfig { destination: destination, ..self }),
    {
        DirSyncConfig { destination: destination, ..self }
    }

    /// Sets whether destination entries absent from the source are deleted.
    pub fn with_strict_mode(self, strict: bool) -> (r: Self)
        ensures
            r == (DirSyncConfig { strict_mode: strict, ..self }),
    {
        DirSyncConfig { strict_mode: strict, ..self }
    }

    /// Sets the suffixes to include; leading dots are dropped.
    pub fn with_include_suffixes(self, suffixes: Vec<&str>) -> (r: Self)
        ensures
            texts(r.include_suffixes@) == undotted(suffixes@),
            r == (DirSyncConfig { include_suffixes: r.include_suffixes, ..self }),
    {
        let include_suffixes = strip_dots(&suffixes);
        DirSyncConfig { include_suffixes, ..self }
    }

    /// Sets the suffixes to exclude; leading dots are dropped.
    pub fn with_exclude_suffixes(self, suffixes: Vec<&str>) -> (r: Self)
        ensures
            texts(r.exclude_suffixes@) == undotted(suffixes@),
            r == (DirSyncConfig { exclude_suffixes: r.exclude_suffixes, ..self }),
    {
        let exclude_suffixes = strip_dots(&suffixes);
        DirSyncConfig { exclude_suffixes, ..self }
    }

    /// Sets the exclusion pattern. Fails, with the compiler's error, exactly
    /// when the pattern is not a valid regular expression.
    pub fn with_exclude_regex(self, regex: &str) -> (r: Result<Self, regex::Error>)
        ensures
            r is Ok == pattern_compiles(regex@),
            r matches Ok(c) ==> c.exclude_regex is Some && c.exclude_regex->0@ == regex@ && c == (
            DirSyncConfig { exclude_regex: c.exclude_regex, ..self }),
    {
        match search(regex, "") {
            Ok(_) => Ok(DirSyncConfig { exclude_regex: Some(String::from_str(regex)), ..self }),
            Err(e) => Err(e),
        }
    }

    /// Sets the file that must exist for a run to start.
    pub fn with_guard_file(self, guard_file: &str) -> (r: Self)
        ensures
            r.guard_file is Some && r.guard_file->0@ == guard_file@,
            r == (DirSyncConfig { guard_file: r.guard_file, ..self }),
    {
        DirSyncConfig { guard_file: Some(String::from_str(guard_file)), ..self }
    }

    /// A copy of the source location.
    pub fn get_source(&self) -> (r: DirLocation)
        ensures
            r == self.source,
    {
        self.source.clone()
    }

    /// A copy of the destination location.
    pub fn get_destination(&self) -> (r: DirLocation)
        ensures
            r == self.destination,
    {
        self.destination.clone()
    }

    /// A copy of the guard file's path, if one is set.
    pub fn get_guard_file(&self) -> (r: Option<String>)
        ensures
            r == self.guard_file,
    {
        clone_opt(&self.guard_file)
    }

    /// Whether strict mirroring is on.
    pub fn get_strict_mode(&self) -> (r: bool)
        ensures
            r == self.strict_mode,
    {
        self.strict_mode
    }

    /// A copy of the suffixes to include.
    pub fn get_include_suffixes(&self) -> (r: Vec<String>)
        ensures
            r@ == self.include_suffixes@,
    {
        clone_texts(&self.include_suffixes)
    }

    /// A copy of the suffixes to exclude.
    pub fn get_exclude_suffixes(&self) -> (r: Vec<String>)
        ensures
            r@ == self.exclude_suffixes@,
    {
        clone_texts(&self.exclude_suffixes)
    }

    /// A copy of the exclusion pattern, if one is set.
    pub fn get_exclude_regex(&self) -> (r: Option<String>)
        ensures
            r == self.exclude_regex,
    {
        clone_opt(&self.exclude_regex)
    }
}

/// How a line of the tool's standard output is to be treated.
#[derive(Debug, Clone, Copy, PartialEq, Eq, Structural)]
pub enum LineKind {
    /// Transfer statistics, for the progress listener.
    Progress,
    /// The name of an entry being transferred, for the file listener.
    File,
    /// Banner, summary or blank line; nobody is told.
    Other,
}

/// The line reports both sent and received totals: the closing summary.
pub open spec fn is_totals_line(line: Seq<char>) -> bool {
    occurs_in("sent"@, line) && occurs_in("received"@, line)
}

/// The line carries a remaining-count or a transfer-rate token and is not
/// the closing summary.
pub open spec fn is_progress_line(line: Seq<char>) -> bool {
    (occurs_in("to-chk"@, line) || occurs_in("bytes/sec"@, line)) && !is_totals_line(line)
}

/// The line is not indented, not empty, and none of the tool's banner or
/// summary lines.
pub open spec fn is_file_line(line: Seq<char>) -> bool {
    &&& !is_prefix(" "@, line)
    &&& line.len() != 0
    &&& !is_prefix("total size is"@, line)
    &&& !is_totals_line(line)
    &&& !is_suffix("sending incremental file list"@, line)
    &&& !is_suffix("./"@, line)
}

/// Progress is tested first: a line that is both counts as progress.
pub open spec fn spec_classify_line(line: Seq<char>) -> LineKind {
    if is_progress_line(line) {
        LineKind::Progress
    } else if is_file_line(line) {
        LineKind::File
    } else {
        LineKind::Other
    }
}

/// The first `n` lines, each followed by a line feed.
pub open spec fn lines_text(lines: Seq<String>, n: int) -> Seq<char>
    decreases n,
{
    if n <= 0 {
        Seq::empty()
    } else {
        lines_text(lines, n - 1) + lines[n - 1]@ + "\n"@
    }
}

/// The arguments as shown to a reader, from index `i` on: the argument
/// after `-e` is put in double quotes and shown together with it.
pub open spec fn display_parts(args: Seq<Seq<char>>, i: int) -> Seq<Seq<char>>
    decreases args.len() - i,
{
    if i < 0 || i >= args.len() {
        Seq::empty()
    } else if args[i] == "-e"@ && i + 1 < args.len() {
        seq!["-e \""@ + args[i + 1] + "\""@] + display_parts(args, i + 2)
    } else {
        seq![args[i]] + display_parts(args, i + 1)
    }
}

/// Runs one mirroring of a configured source into its destination.
#[derive(Debug)]
pub struct DirSyncHelper {
    pub config: DirSyncConfig,
}

impl DirSyncHelper {
    /// A helper for one configuration.
    pub fn new(config: DirSyncConfig) -> (r: Self)
        ensures
            r.config == config,
    {
        DirSyncHelper { config }
    }

    /// The message for a guard file that is configured but absent.
    pub open spec fn guard_message(guard: Seq<char>) -> Seq<char> {
        "Guard file '"@ + guard + "' does not exist, sync aborted."@
    }

    /// The message for a local source that is absent.
    pub open spec fn source_message(source: Seq<char>) -> Seq<char> {
        "Source path '"@ + source + "' does not exist, sync aborted."@
    }

    /// The source is on this host, so its existence can be tested here.
    pub open spec fn source_is_local(&self) -> bool {
        self.config.source.ssh_config is None
    }

    /// What the checks before a run decide, given what exists: the guard
    /// file is tested first, then a local source.
    pub open spec fn spec_preflight(&self, guard_exists: bool, source_exists: bool) -> Result<
        (),
        Seq<char>,
    > {
        if self.config.guard_file is Some && !guard_exists {
            Err(Self::guard_message(self.config.guard_file->0@))
        } else if self.source_is_local() && !source_exists {
            Err(Self::source_message(self.config.source.spec_path()))
        } else {
            Ok(())
        }
    }

    /// The local path whose existence a run depends on, if the source is local.
    pub fn source_path_to_check(&self) -> (r: Option<String>)
        ensures
            r is Some == self.source_is_local(),
            r matches Some(p) ==> p@ == self.config.source.spec_path(),
    {
        if self.config.source.ssh_config.is_none() {
            Some(self.config.source.get_path())
        } else {
            None
        }
    }

    /// Decides whether a run may start. `guard_exists` says whether the
    /// configured guard file exists (ignored when none is configured),
    /// `source_exists` whether the source path does (ignored for a remote
    /// source). No command is built, let alone started, on an error.
    pub fn preflight(&self, guard_exists: bool, source_exists: bool) -> (r: Result<(), String>)
        ensures
            r is Ok == self.spec_preflight(guard_exists, source_exists) is Ok,
            r matches Err(m) ==> m@ == self.spec_preflight(guard_exists, source_exists)->Err_0,
    {
        match &self.config.guard_file {
            Some(guard) => {
                if !guard_exists {
                    let mut m = String::from_str("Guard file '");
                    m.append(guard.as_str());
                    m.append("' does not exist, sync aborted.");
                    return Err(m);
                }
            },
            None => {},
        }
        if self.config.source.ssh_config.is_none() && !source_exists {
            let mut m = String::from_str("Source path '");
            m.append(self.config.source.get_path().as_str());
            m.append("' does not exist, sync aborted.");
            return Err(m);
        }
        Ok(())
    }

    /// The password goes through `sshpass`: the destination has a non-empty one.
    pub open spec fn uses_sshpass(&self) -> bool {
        match self.config.destination.ssh_config {
            Some(c) => c.password is Some && c.password->0@.len() != 0,
            None => false,
        }
    }

    /// The destination's password, when `sshpass` is used.
    pub open spec fn spec_password(&self) -> Seq<char> {
        self.config.destination.ssh_config->0.password->0@
    }

    /// The program to start.
    pub open spec fn spec_program(&self) -> Seq<char> {
        if self.uses_sshpass() {
            "sshpass"@
        } else {
            "rsync"@
        }
    }

    /// With `sshpass`: the password option and the wrapped program.
    pub open spec fn spec_wrapper_args(&self) -> Seq<Seq<char>> {
        if self.uses_sshpass() {
            seq!["-p"@, self.spec_password(), "rsync"@]
        } else {
            Seq::empty()
        }
    }

    /// Archive mode, overall progress, verbose.
    pub open spec fn spec_mode_args() -> Seq<Seq<char>> {
        seq!["-a"@, "--info=progress2"@, "-v"@]
    }

    /// The remote shell: fixed options with `sshpass`; else the
    /// destination's, else the source's, if either has a credential.
    pub open spec fn spec_shell_args(&self) -> Seq<Seq<char>> {
        if self.uses_sshpass() {
            seq!["-e"@, SSH_PASSWORD_OPTIONS@]
        } else if self.config.destination.spec_rsync_arg() is Some {
            seq!["-e"@, self.config.destination.spec_rsync_arg()->0]
        } else if self.config.source.spec_rsync_arg() is Some {
            seq!["-e"@, self.config.source.spec_rsync_arg()->0]
        } else {
            Seq::empty()
        }
    }

    /// Strict mode deletes what the source lacks.
    pub open spec fn spec_delete_args(&self) -> Seq<Seq<char>> {
        if self.config.strict_mode {
            seq!["--delete"@]
        } else {
            Seq::empty()
        }
    }

    /// Include suffixes win over exclude suffixes: directories and the
    /// listed suffixes are included and all else excluded; without include
    /// suffixes, the listed exclude suffixes are excluded.
    pub open spec fn spec_filter_args(&self) -> Seq<Seq<char>> {
        if self.config.include_suffixes@.len() != 0 {
            seq!["--include=*/"@] + prefixed("--include=*."@, self.config.include_suffixes@)
                + seq!["--exclude=*"@]
        } else {
            prefixed("--exclude=*."@, self.config.exclude_suffixes@)
        }
    }

    /// The exclusion pattern, when it is a valid regular expression.
    pub open spec fn spec_regex_args(&self) -> Seq<Seq<char>> {
        match self.config.exclude_regex {
            Some(p) => if pattern_compiles(p@) {
                seq!["--exclude="@ + p@]
            } else {
                Seq::empty()
            },
            None => Seq::empty(),
        }
    }

    /// Source, then destination.
    pub open spec fn spec_path_args(&self) -> Seq<Seq<char>> {
        seq![self.config.source.spec_path(), self.config.destination.spec_path()]
    }

    /// The complete argument list of a run.
    pub open spec fn spec_rsync_args(&self) -> Seq<Seq<char>> {
        self.spec_wrapper_args() + Self::spec_mode_args() + self.spec_shell_args()
            + self.spec_delete_args() + self.spec_filter_args() + self.spec_regex_args()
            + self.spec_path_args()
    }

    fn push_wrapper_args(&self, args: &mut Vec<String>) -> (use_sshpass: bool)
        ensures
            use_sshpass == self.uses_sshpass(),
            texts(final(args)@) == texts(old(args)@) + self.spec_wrapper_args(),
    {
        let mut use_sshpass = false;
        match &self.config.destination.ssh_config {
            Some(c) => match &c.password {
                Some(p) => {
                    if !p.as_str().is_empty() {
                        use_sshpass = true;
                        push_text(args, "-p");
                        push_text(args, p.as_str());
                        push_text(args, "rsync");
                    }
                },
                None => {},
            },
            None => {},
        }
        proof {
            assert(texts(args@) =~= texts(old(args)@) + self.spec_wrapper_args());
        }
        use_sshpass
    }

    fn push_mode_args(args: &mut Vec<String>)
        ensures
            texts(final(args)@) == texts(old(args)@) + Self::spec_mode_args(),
    {
        push_text(args, "-a");
        push_text(args, "--info=progress2");
        push_text(args, "-v");
        proof {
            assert(texts(args@) =~= texts(old(args)@) + Self::spec_mode_args());
        }
    }

    fn push_shell_args(&self, args: &mut Vec<String>, use_sshpass: bool)
        requires
            use_sshpass == self.uses_sshpass(),
        ensures
            texts(final(args)@) == texts(old(args)@) + self.spec_shell_args(),
    {
        if !use_sshpass {
            match self.config.destination.to_rsync_arg() {
                Some(a) => {
                    push_text(args, "-e");
                    push_arg(args, a);
                },
                None => match self.config.source.to_rsync_arg() {
                    Some(a) => {
                        push_text(args, "-e");
                        push_arg(args, a);
                    },
                    None => {},
                },
            }
        } else {
            push_text(args, "-e");
            push_text(args, SSH_PASSWORD_OPTIONS);
        }
        proof {
            assert(texts(args@) =~= texts(old(args)@) + self.spec_shell_args());
        }
    }

    fn push_delete_args(&self, args: &mut Vec<String>)
        ensures
            texts(final(args)@) == texts(old(args)@) + self.spec_delete_args(),
    {
        if self.config.strict_mode {
            push_text(args, "--delete");
        }
        proof {
            assert(texts(args@) =~= texts(old(args)@) + self.spec_delete_args());
        }
    }

    fn push_filter_args(&self, args: &mut Vec<String>)
        ensures
            texts(final(args)@) == texts(old(args)@) + self.spec_filter_args(),
    {
        if self.config.include_suffixes.len() != 0 {
            push_text(args, "--include=*/");
            push_prefixed(args, "--include=*.", &self.config.include_suffixes);
            push_text(args, "--exclude=*");
        } else {
            push_prefixed(args, "--exclude=*.", &self.config.exclude_suffixes);
        }
        proof {
            assert(texts(args@) =~= texts(old(args)@) + self.spec_filter_args());
        }
    }

    fn push_regex_args(&self, args: &mut Vec<String>)
        ensures
            texts(final(args)@) == texts(old(args)@) + self.spec_regex_args(),
    {
        match &self.config.exclude_regex {
            Some(p) => {
                if is_valid_pattern(p.as_str()) {
                    let mut a = String::from_str("--exclude=");
                    a.append(p.as_str());
                    push_arg(args, a);
                }
            },
            None => {},
        }
        proof {
            assert(texts(args@) =~= texts(old(args)@) + self.spec_regex_args());
        }
    }

    fn push_path_args(&self, args: &mut Vec<String>)
        ensures
            texts(final(args)@) == texts(old(args)@) + self.spec_path_args(),
    {
        push_arg(args, self.config.source.get_path());
        push_arg(args, self.config.destination.get_path());
        proof {
            assert(texts(args@) =~= texts(old(args)@) + self.spec_path_args());
        }
    }

    /// Builds the command of a run from the configuration.
    pub fn build_rsync_command(&self) -> (r: SyncCommand)
        ensures
            r.spec_program() == self.spec_program(),
            r.spec_args() == self.spec_rsync_args(),
    {
        let mut args: Vec<String> = Vec::new();
        let use_sshpass = self.push_wrapper_args(&mut args);
        proof {
            assert(texts(args@) =~= self.spec_wrapper_args());
        }
        let program = if use_sshpass {
            String::from_str("sshpass")
        } else {
            String::from_str("rsync")
        };
        Self::push_mode_args(&mut args);
        self.push_shell_args(&mut args, use_sshpass);
        self.push_delete_args(&mut args);
        self.push_filter_args(&mut args);
        self.push_regex_args(&mut args);
        self.push_path_args(&mut args);
        SyncCommand { program, args }
    }

    /// The whole decision before a run: the command, unless a check fails.
    /// On an error there is no command, so nothing can be started.
    pub fn plan_sync(&self, guard_exists: bool, source_exists: bool) -> (r: Result<
        SyncCommand,
        String,
    >)
        ensures
            r is Ok == self.spec_preflight(guard_exists, source_exists) is Ok,
            r matches Ok(c) ==> c.spec_program() == self.spec_program() && c.spec_args()
                == self.spec_rsync_args(),
            r matches Err(m) ==> m@ == self.spec_preflight(guard_exists, source_exists)->Err_0,
    {
        match self.preflight(guard_exists, source_exists) {
            Ok(_) => Ok(self.build_rsync_command()),
            Err(m) => Err(m),
        }
    }

    /// The command as one line for a log: program and arguments separated
    /// by single spaces, the remote-shell argument in double quotes.
    pub open spec fn spec_display(cmd: SyncCommand) -> Seq<char> {
        join_with(seq![cmd.spec_program()] + display_parts(cmd.spec_args(), 0), " "@)
    }

    /// Renders the command as one line for a log.
    pub fn format_sync_command(cmd: &SyncCommand) -> (r: String)
        ensures
            r@ == Self::spec_display(*cmd),
    {
        let mut parts: Vec<String> = Vec::new();
        push_arg(&mut parts, cmd.program.clone());
        let n: usize = cmd.args.len();
        let mut i: usize = 0;
        let ghost all = seq![cmd.spec_program()] + display_parts(cmd.spec_args(), 0);
        proof {
            assert(texts(parts@) + display_parts(cmd.spec_args(), 0) =~= all);
        }
        while i < n
            invariant
                n == cmd.args@.len(),
                i <= n,
                all == seq![cmd.spec_program()] + display_parts(cmd.spec_args(), 0),
                texts(parts@) + display_parts(cmd.spec_args(), i as int) == all,
            decreases n - i,
        {
            let ghost before = texts(parts@);
            proof {
                assert(cmd.spec_args()[i as int] == cmd.args@[i as int]@);
            }
            if i < n - 1 && same_text(cmd.args[i].as_str(), "-e") {
                proof {
                    assert(cmd.spec_args()[i + 1] == cmd.args@[i + 1]@);
                }
                let mut a = String::from_str("-e \"");
                a.append(cmd.args[i + 1].as_str());
                a.append("\"");
                push_arg(&mut parts, a);
                proof {
                    assert(texts(parts@) + display_parts(cmd.spec_args(), i + 2) =~= before
                        + display_parts(cmd.spec_args(), i as int));
                }
                i = i + 2;
            } else {
                push_arg(&mut parts, cmd.args[i].clone());
                proof {
                    assert(texts(parts@) + display_parts(cmd.spec_args(), i + 1) =~= before
                        + display_parts(cmd.spec_args(), i as int));
                }
                i = i + 1;
            }
        }
        proof {
            assert(texts(parts@) =~= all);
        }
        join_strings(&parts, " ")
    }

    /// Whether the line reports transfer progress.
    pub fn check_file_sync_progress(line: &str) -> (r: bool)
        ensures
            r == is_progress_line(line@),
    {
        (contains(line, "to-chk") || contains(line, "bytes/sec")) && !(contains(line, "sent")
            && contains(line, "received"))
    }

    /// Whether the line names an entry being transferred.
    pub fn check_file_sync_line(line: &str) -> (r: bool)
        ensures
            r == is_file_line(line@),
    {
        !starts_with(line, " ") && !line.is_empty() && !starts_with(line, "total size is") && !(
        contains(line, "sent") && contains(line, "received")) && !ends_with(
            line,
            "sending incremental file list",
        ) && !ends_with(line, "./")
    }

    /// Decides which listener, if any, is told of a line of standard output.
    pub fn classify_line(line: &str) -> (r: LineKind)
        ensures
            r == spec_classify_line(line@),
    {
        if Self::check_file_sync_progress(line) {
            LineKind::Progress
        } else if Self::check_file_sync_line(line) {
            LineKind::File
        } else {
            LineKind::Other
        }
    }

    /// The lines of the tool's error output as one text, each line ended by
    /// a line feed.
    pub fn collect_stderr(lines: &Vec<String>) -> (r: String)
        ensures
            r@ == lines_text(lines@, lines@.len() as int),
    {
        let n: usize = lines.len();
        let mut r = String::new();
        let mut i: usize = 0;
        while i < n
            invariant
                n == lines@.len(),
                i <= n,
                r@ == lines_text(lines@, i as int),
            decreases n - i,
        {
            r.append(lines[i].as_str());
            r.append("\n");
            i = i + 1;
        }
        r
    }

    /// The result of a run from the tool's exit status.
    pub fn finish(exit_success: bool) -> (r: Result<(), String>)
        ensures
            r is Ok == exit_success,
            r matches Err(m) ==> m@ == "rsync failed"@,
    {
        if exit_success {
            Ok(())
        } else {
            Err(String::from_str("rsync failed"))
        }
    }
}

} // verus!
