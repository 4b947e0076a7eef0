use pilipili_strm::command::SyncCommand;
use pilipili_strm::dir_sync::{DirSyncConfig, DirSyncHelper, LineKind};
use pilipili_strm::location::DirLocation;
use pilipili_strm::ssh::{SshConfig, SSH_PASSWORD_OPTIONS};

fn mock_config(source: &str, destination: &str) -> DirSyncConfig {
    DirSyncConfig::builder()
        .with_source(DirLocation::new(source, true, None))
        .with_destination(DirLocation::new(destination, true, None))
        .with_strict_mode(false)
        .with_include_suffixes(vec!["strm"])
        .with_exclude_suffixes(vec!["aac", "ape", "flac"])
}

fn mock_server_config(source: &str, destination: &str) -> DirSyncConfig {
    let ssh_config = SshConfig::builder()
        .with_username("root".to_string())
        .with_password("123456".to_string())
        .with_ip("127.0.0.1".to_string());
    DirSyncConfig::builder()
        .with_source(DirLocation::new(source, true, None))
        .with_destination(DirLocation::new(destination, true, Some(ssh_config)))
        .with_strict_mode(false)
        .with_exclude_suffixes(vec!["aac", "ape", "flac"])
}

fn args(list: &[&str]) -> Vec<String> {
    list.iter().map(|s| s.to_string()).collect()
}

#[test]
fn test_source_path_not_exist() {
    let config = mock_config("/nonexistent/source/", "/tmp/dest/");
    let sync_helper = DirSyncHelper::new(config);

    assert_eq!(sync_helper.source_path_to_check(), Some("/nonexistent/source/".to_string()));
    let result = sync_helper.preflight(false, false);
    assert!(result.is_err(), "Sync should fail when source does not exist");
    if let Err(e) = result {
        assert!(e.to_string().contains("Source path '/nonexistent/source/' does not exist"));
    }
}

#[test]
fn test_guard_file_not_exist() {
    let mut config = mock_config("/tmp/source/", "/tmp/dest/");
    let guard_file_option: Option<String> = Some("/nonexistent/guard.txt".to_string());
    if let Some(guard_file) = guard_file_option {
        config = config.with_guard_file(&guard_file);
    }

    let sync_helper = DirSyncHelper::new(config.clone());

    assert_eq!(sync_helper.config.get_guard_file(), Some("/nonexistent/guard.txt".to_string()));
    let result = sync_helper.preflight(false, true);
    assert!(result.is_err(), "Sync should fail when guard file does not exist");
    if let Err(e) = result {
        assert!(e.to_string().contains("Guard file '/nonexistent/guard.txt' does not exist"));
    }
}

#[test]
fn preflight_messages_are_exact_and_guard_comes_first() {
    let helper = DirSyncHelper::new(mock_config("/data/src", "/data/dst").with_guard_file("/g"));
    assert_eq!(helper.preflight(false, false), Err("Guard file '/g' does not exist, sync aborted.".to_string()));
    assert_eq!(helper.preflight(true, false), Err("Source path '/data/src/' does not exist, sync aborted.".to_string()));
    assert_eq!(helper.preflight(true, true), Ok(()));
    let unguarded = DirSyncHelper::new(mock_config("/data/src", "/data/dst"));
    assert_eq!(unguarded.preflight(false, true), Ok(()));
}

#[test]
fn a_missing_guard_file_leaves_no_command_to_start() {
    let helper = DirSyncHelper::new(mock_config("/tmp/source/", "/tmp/dest/").with_guard_file("/nonexistent/guard.txt"));
    let plan = helper.plan_sync(false, true);
    assert_eq!(plan.err(), Some("Guard file '/nonexistent/guard.txt' does not exist, sync aborted.".to_string()));
    let plan = helper.plan_sync(true, true).unwrap();
    assert_eq!(plan.program, "rsync");
    assert_eq!(plan.args, helper.build_rsync_command().args);
}

#[test]
fn remote_source_is_not_checked() {
    let ssh = SshConfig::new().with_key_path("/k".to_string());
    let config = DirSyncConfig::new()
        .with_source(DirLocation::new("/remote/src", true, Some(ssh)))
        .with_destination(DirLocation::new("/dst", true, None));
    let helper = DirSyncHelper::new(config);
    assert_eq!(helper.source_path_to_check(), None);
    assert_eq!(helper.preflight(true, false), Ok(()));
}

#[test]
fn suffixes_lose_their_leading_dots() {
    let config = DirSyncConfig::new()
        .with_include_suffixes(vec![".strm", "..nfo", "jpg"])
        .with_exclude_suffixes(vec![".txt"]);
    assert_eq!(config.get_include_suffixes(), args(&["strm", "nfo", "jpg"]));
    assert_eq!(config.get_exclude_suffixes(), args(&["txt"]));
    assert!(!config.get_strict_mode());
    assert_eq!(config.get_exclude_regex(), None);
}

#[test]
fn exclude_regex_must_compile() {
    assert!(DirSyncConfig::new().with_exclude_regex("(unclosed").is_err());
    let config = DirSyncConfig::new().with_exclude_regex("^tmp.*$").unwrap();
    assert_eq!(config.get_exclude_regex(), Some("^tmp.*$".to_string()));
}

#[test]
fn local_command_with_include_suffixes() {
    let helper = DirSyncHelper::new(mock_config("/src", "/dst"));
    let cmd = helper.build_rsync_command();
    assert_eq!(cmd.program, "rsync");
    assert_eq!(
        cmd.args,
        args(&["-a", "--info=progress2", "-v", "--include=*/", "--include=*.strm", "--exclude=*", "/src/", "/dst/"])
    );
}

#[test]
fn password_command_goes_through_sshpass() {
    let helper = DirSyncHelper::new(mock_server_config("/src", "/dst"));
    let cmd = helper.build_rsync_command();
    assert_eq!(cmd.program, "sshpass");
    assert_eq!(
        cmd.args,
        args(&[
            "-p",
            "123456",
            "rsync",
            "-a",
            "--info=progress2",
            "-v",
            "-e",
            SSH_PASSWORD_OPTIONS,
            "--exclude=*.aac",
            "--exclude=*.ape",
            "--exclude=*.flac",
            "/src/",
            "root@127.0.0.1:/dst/",
        ])
    );
}

#[test]
fn key_command_with_strict_mode_and_regex() {
    let dest_ssh = SshConfig::new().with_username("media".to_string()).with_key_path("~/.ssh/id".to_string()).with_ip("10.0.0.2".to_string()).with_port(2222);
    let config = DirSyncConfig::new()
        .with_source(DirLocation::new("/src//", true, None))
        .with_destination(DirLocation::new("/dst/file", false, Some(dest_ssh)))
        .with_strict_mode(true)
        .with_exclude_regex("^\\..*")
        .unwrap();
    let cmd = DirSyncHelper::new(config).build_rsync_command();
    assert_eq!(cmd.program, "rsync");
    assert_eq!(
        cmd.args,
        args(&[
            "-a",
            "--info=progress2",
            "-v",
            "-e",
            "ssh -i ~/.ssh/id -p 2222",
            "--delete",
            "--exclude=^\\..*",
            "/src/",
            "media@10.0.0.2:/dst/file",
        ])
    );
}

#[test]
fn source_shell_is_used_when_destination_has_none() {
    let src_ssh = SshConfig::new().with_key_path("/k".to_string());
    let config = DirSyncConfig::new()
        .with_source(DirLocation::new("/src", true, Some(src_ssh)))
        .with_destination(DirLocation::new("/dst", true, None));
    let cmd = DirSyncHelper::new(config).build_rsync_command();
    assert_eq!(cmd.args, args(&["-a", "--info=progress2", "-v", "-e", "ssh -i /k -p 22", "root@127.0.0.1:/src/", "/dst/"]));
}

#[test]
fn empty_password_does_not_use_sshpass() {
    let ssh = SshConfig::new().with_password(String::new());
    let config = DirSyncConfig::new()
        .with_source(DirLocation::new("/src", true, None))
        .with_destination(DirLocation::new("/dst", true, Some(ssh)));
    let cmd = DirSyncHelper::new(config).build_rsync_command();
    assert_eq!(cmd.program, "rsync");
    assert_eq!(cmd.args, args(&["-a", "--info=progress2", "-v", "-e", "ssh -p 22", "/src/", "root@127.0.0.1:/dst/"]));
}

#[test]
fn an_invalid_pattern_in_the_configuration_is_left_out() {
    let mut config = mock_config("/src", "/dst").with_include_suffixes(vec![]);
    config.exclude_regex = Some("(unclosed".to_string());
    let cmd = DirSyncHelper::new(config).build_rsync_command();
    assert_eq!(
        cmd.args,
        args(&["-a", "--info=progress2", "-v", "--exclude=*.aac", "--exclude=*.ape", "--exclude=*.flac", "/src/", "/dst/"])
    );
}

#[test]
fn command_line_quotes_the_remote_shell() {
    let cmd = SyncCommand {
        program: "rsync".to_string(),
        args: args(&["-a", "-v", "-e", "ssh -i ~/.ssh/id_rsa -p 22", "/source/path/", "user@host:/dest/path"]),
    };
    assert_eq!(
        DirSyncHelper::format_sync_command(&cmd),
        "rsync -a -v -e \"ssh -i ~/.ssh/id_rsa -p 22\" /source/path/ user@host:/dest/path"
    );
    let trailing = SyncCommand { program: "rsync".to_string(), args: args(&["-a", "-e"]) };
    assert_eq!(DirSyncHelper::format_sync_command(&trailing), "rsync -a -e");
    let bare = SyncCommand { program: "rsync".to_string(), args: Vec::new() };
    assert_eq!(DirSyncHelper::format_sync_command(&bare), "rsync");
    let twice = SyncCommand { program: "p".to_string(), args: args(&["-e", "-e", "x"]) };
    assert_eq!(DirSyncHelper::format_sync_command(&twice), "p -e \"-e\" x");
}

#[test]
fn output_lines_are_classified() {
    let progress = "          1,024 100%    1.00MB/s    0:00:00 (xfr#1, to-chk=0/2)";
    assert!(DirSyncHelper::check_file_sync_progress(progress));
    assert!(!DirSyncHelper::check_file_sync_line(progress));
    assert_eq!(DirSyncHelper::classify_line(progress), LineKind::Progress);

    let summary = "sent 1,234 bytes  received 56 bytes  2,580.00 bytes/sec";
    assert!(!DirSyncHelper::check_file_sync_progress(summary));
    assert!(!DirSyncHelper::check_file_sync_line(summary));
    assert_eq!(DirSyncHelper::classify_line(summary), LineKind::Other);

    assert_eq!(DirSyncHelper::classify_line("movies/film.strm"), LineKind::File);
    assert_eq!(DirSyncHelper::classify_line(""), LineKind::Other);
    assert_eq!(DirSyncHelper::classify_line("sending incremental file list"), LineKind::Other);
    assert_eq!(DirSyncHelper::classify_line("./"), LineKind::Other);
    assert_eq!(DirSyncHelper::classify_line("total size is 10  speedup is 0.01"), LineKind::Other);
    assert_eq!(DirSyncHelper::classify_line(" indented"), LineKind::Other);
    assert_eq!(DirSyncHelper::classify_line("name with to-chk in it"), LineKind::Progress);
    assert_eq!(DirSyncHelper::classify_line("sent.txt"), LineKind::File);
}

#[test]
fn stderr_lines_are_joined_and_exit_status_decides() {
    assert_eq!(DirSyncHelper::collect_stderr(&args(&["a", "b"])), "a\nb\n");
    assert_eq!(DirSyncHelper::collect_stderr(&Vec::new()), "");
    assert_eq!(DirSyncHelper::finish(true), Ok(()));
    assert_eq!(DirSyncHelper::finish(false), Err("rsync failed".to_string()));
}

#[test]
fn ssh_config_defaults_and_arguments() {
    let c = SshConfig::new();
    assert_eq!(c.get_username(), "root");
    assert_eq!(c.get_ip(), "127.0.0.1");
    assert_eq!(c.get_port(), 22);
    assert_eq!(c.get_password(), None);
    assert!(!c.has_password());
    assert_eq!(c.to_rsync_arg(), None);

    let key = SshConfig::builder().with_key_path("/keys/id".to_string());
    assert_eq!(key.to_rsync_arg(), Some("ssh -i /keys/id -p 22".to_string()));
    let both = key.clone().with_password("pw".to_string()).with_port(65535);
    assert_eq!(both.to_rsync_arg(), Some("ssh -i /keys/id -p 65535".to_string()));
    assert_eq!(both.get_password(), Some("pw"));
    assert!(both.has_password());
    let pw = SshConfig::new().with_password("pw".to_string()).with_port(0).with_username("u".to_string());
    assert_eq!(pw.to_rsync_arg(), Some("ssh -p 0".to_string()));
    assert_eq!(pw.get_username(), "u");
}

#[test]
fn location_paths() {
    assert_eq!(DirLocation::new("/a/b///", true, None).get_path(), "/a/b/");
    assert_eq!(DirLocation::new("/a/b/", false, None).get_path(), "/a/b");
    assert_eq!(DirLocation::new("", true, None).get_path(), "/");
    assert_eq!(DirLocation::default().get_path(), "/");
    let ssh = SshConfig::new().with_username("u".to_string()).with_ip("h".to_string());
    let remote = DirLocation::new("/d", true, Some(ssh));
    assert_eq!(remote.get_path(), "u@h:/d/");
    assert!(remote.ssh_config().is_some());
    assert_eq!(remote.to_rsync_arg(), None);
    assert_eq!(DirLocation::new("/d", true, None).to_rsync_arg(), None);
}
