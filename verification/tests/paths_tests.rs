use pilipili_strm::paths::{
    check_plain_extension, file_name_of, same_path, split_name, starts_with_path, FileHelper, FileType, PathHelper,
};

#[test]
fn extension_and_stem_follow_the_file_name() {
    assert_eq!(PathHelper::extension("/a/b/video.mp4"), Some("mp4".to_string()));
    assert_eq!(PathHelper::extension("/a/b.d/video"), None);
    assert_eq!(PathHelper::extension("/a/.hidden"), None);
    assert_eq!(PathHelper::extension("archive.tar.gz"), Some("gz".to_string()));
    assert_eq!(PathHelper::file_stem("/a/b/video.mp4"), Some("video".to_string()));
    assert_eq!(PathHelper::file_stem("/a/b/.."), None);
    assert_eq!(PathHelper::file_stem("archive.tar.gz"), Some("archive.tar".to_string()));
}

#[test]
fn extension_and_stem_agree_with_the_platform() {
    let paths = [
        "video.mp4", "/a/b/video.MP4", "noext", ".hidden", ".hidden.txt", "a.", "a..", "...", "a.b.c", "/a/b.c/d",
        "/a/b.c/", "/", "", "..", "/a/..", "a/./b.x", "dir.d/.e", "x.tar.gz", " .x", "ä.ö",
    ];
    for p in paths {
        let ext = std::path::Path::new(p).extension().map(|e| e.to_str().unwrap().to_string());
        let stem = std::path::Path::new(p).file_stem().map(|e| e.to_str().unwrap().to_string());
        assert_eq!(PathHelper::extension(p), ext, "extension of {:?}", p);
        assert_eq!(PathHelper::file_stem(p), stem, "stem of {:?}", p);
    }
}

#[test]
fn file_names_and_comparisons_agree_with_the_platform() {
    let paths = [
        "video.mp4", "/a/b/video.MP4", "/a/b/", "/a/b/.", "/a/b/..", "/", "", ".", "..", "a//b", "./a", "a/./b",
        "~", "~/", "~/x", "~x", "/~", "a/~", "//a", "a/b/../c", "/a/b", "/a", "a", "a/b",
    ];
    for p in paths {
        let name = std::path::Path::new(p).file_name().map(|e| e.to_str().unwrap().to_string());
        assert_eq!(file_name_of(p), name, "file name of {:?}", p);
        for q in paths {
            assert_eq!(starts_with_path(p, q), std::path::Path::new(p).starts_with(q), "{:?} starts with {:?}", p, q);
            assert_eq!(same_path(p, q), std::path::Path::new(p) == std::path::Path::new(q), "{:?} == {:?}", p, q);
        }
    }
}

#[test]
fn names_split_at_the_last_dot() {
    assert_eq!(split_name("a.b.c"), ("a.b".to_string(), Some("c".to_string())));
    assert_eq!(split_name(".profile"), (".profile".to_string(), None));
    assert_eq!(split_name("name"), ("name".to_string(), None));
    assert_eq!(split_name("name."), ("name".to_string(), Some(String::new())));
    assert_eq!(split_name(""), (String::new(), None));
}

#[test]
fn join_adjoins_or_replaces() {
    assert_eq!(PathHelper::join("/srv/dst", "a/b.strm"), "/srv/dst/a/b.strm");
    assert_eq!(PathHelper::join("/srv/dst/", "x"), "/srv/dst/x");
    assert_eq!(PathHelper::join("/srv/dst", "/abs"), "/abs");
}

#[test]
fn normalize_resolves_dots() {
    assert_eq!(PathHelper::normalize("/a/./b/../c"), "/a/c");
    assert_eq!(PathHelper::normalize("./x"), "x");
    assert_eq!(PathHelper::normalize("a/../.."), "");
    assert_eq!(PathHelper::normalize("/a/b/"), "/a/b");
    assert_eq!(PathHelper::normalize("/.."), "/");
    assert_eq!(PathHelper::normalize(""), "");
}

#[test]
fn tilde_expands_to_the_given_home() {
    let home = Some("/home/alice".to_string());
    assert_eq!(PathHelper::expand_tilde_in("~/Downloads/Tests", home.clone()), "/home/alice/Downloads/Tests");
    assert_eq!(PathHelper::expand_tilde_in("~", home.clone()), "/home/alice");
    assert_eq!(PathHelper::expand_tilde_in("~", None), "~");
    assert_eq!(PathHelper::expand_tilde_in("~/x", None), "~/x");
    assert_eq!(PathHelper::expand_tilde_in("/etc/passwd", home.clone()), "/etc/passwd");
    assert_eq!(PathHelper::expand_tilde_in("~bob/x", home.clone()), "~bob/x");
    assert_eq!(PathHelper::expand_tilde_in("a/~/x", home), "a/~/x");
}

#[test]
fn expand_tilde_leaves_other_paths_alone() {
    assert_eq!(PathHelper::expand_tilde("/var/lib/media"), "/var/lib/media");
    assert_eq!(PathHelper::expand_tilde("relative/dir"), "relative/dir");
}

#[test]
fn file_type_reads_the_metadata_flags() {
    assert_eq!(PathHelper::file_type(true, false), Some(FileType::File));
    assert_eq!(PathHelper::file_type(false, true), Some(FileType::Directory));
    assert_eq!(PathHelper::file_type(false, false), None);
}

#[test]
fn candidates_append_a_counter_to_the_previous_stem() {
    assert!(check_plain_extension("strm"));
    assert!(!check_plain_extension("st/rm"));
    assert!(!check_plain_extension("st\\rm"));
    let first = FileHelper::first_candidate("/tmp/d/testfile.txt", "strm");
    assert_eq!(first, "/tmp/d/testfile.strm");
    let second = FileHelper::next_candidate("/tmp/d/testfile.txt", &first, "strm", 1);
    assert_eq!(second, Some("/tmp/d/testfile-1.strm".to_string()));
    let third = FileHelper::next_candidate("/tmp/d/testfile.txt", "/tmp/d/testfile-1.strm", "strm", 2);
    assert_eq!(third, Some("/tmp/d/testfile-1-2.strm".to_string()));
    assert_eq!(FileHelper::next_candidate("/tmp/d/testfile.txt", "/tmp/d/..", "strm", 1), None);
    assert_eq!(FileHelper::content("/tmp/d/testfile.txt"), "/tmp/d/testfile.txt\n");
}
