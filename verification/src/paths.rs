//! Paths as text. Splitting a path into components follows the platform's
//! rules, so it is left to `std::path`; what the library builds on top of
//! the parts, such as the extension of a file name, is proved here.

use vstd::prelude::*;
use vstd::string::*;
use std::path::{Component, Path};
use crate::text::{chars_of, join2, opt_text, same_text};

verus! {

/// One component of a path.
#[derive(Debug)]
pub enum PathPart {
    /// A platform prefix such as a drive.
    Prefix(String),
    /// The root directory.
    RootDir,
    /// `.`
    CurDir,
    /// `..`
    ParentDir,
    /// A directory or file name.
    Normal(String),
}

/// One component of a path, as mathematical value.
pub enum PartView {
    Prefix(Seq<char>),
    RootDir,
    CurDir,
    ParentDir,
    Normal(Seq<char>),
}

impl View for PathPart {
    type V = PartView;

    open spec fn view(&self) -> PartView {
        match self {
            PathPart::Prefix(p) => PartView::Prefix(p@),
            PathPart::RootDir => PartView::RootDir,
            PathPart::CurDir => PartView::CurDir,
            PathPart::ParentDir => PartView::ParentDir,
            PathPart::Normal(p) => PartView::Normal(p@),
        }
    }
}

/// The components of a list, as mathematical values.
pub open spec fn part_views(parts: Seq<PathPart>) -> Seq<PartView> {
    parts.map_values(|p: PathPart| p@)
}

/// What kind of entry a path names.
#[derive(Debug, Clone, Copy, PartialEq, Eq, Structural)]
pub enum FileType {
    File,
    Directory,
}

/// The components of the path, as `std::path::Path::components` yields them.
pub uninterp spec fn path_components(path: Seq<char>) -> Seq<PartView>;

/// The path's file name: its last component, where that is a name.
pub open spec fn path_file_name(path: Seq<char>) -> Option<Seq<char>> {
    let parts = path_components(path);
    if parts.len() > 0 && parts.last() is Normal {
        Some(parts.last()->Normal_0)
    } else {
        None
    }
}

/// The index of the last dot of `name`; -1 where it has none.
pub open spec fn last_dot(name: Seq<char>) -> int
    decreases name.len(),
{
    if name.len() == 0 {
        -1
    } else if name.last() == '.' {
        name.len() - 1
    } else {
        last_dot(name.drop_last())
    }
}

/// The extension of a file name: what follows its last dot. A name
/// without a dot has none, nor has one whose only dot is in front.
pub open spec fn name_extension(name: Seq<char>) -> Option<Seq<char>> {
    if last_dot(name) <= 0 {
        None
    } else {
        Some(name.subrange(last_dot(name) + 1, name.len() as int))
    }
}

/// The stem of a file name: what stands before its last dot; the whole
/// name where it has no extension.
pub open spec fn name_stem(name: Seq<char>) -> Seq<char> {
    if last_dot(name) <= 0 {
        name
    } else {
        name.subrange(0, last_dot(name))
    }
}

/// The extension of the path's file name.
pub open spec fn path_extension(path: Seq<char>) -> Option<Seq<char>> {
    match path_file_name(path) {
        Some(name) => name_extension(name),
        None => None,
    }
}

/// The path's file name without its extension.
pub open spec fn path_file_stem(path: Seq<char>) -> Option<Seq<char>> {
    match path_file_name(path) {
        Some(name) => Some(name_stem(name)),
        None => None,
    }
}

/// Where a dot stands at `d` and none after it, `d` is the last dot.
pub proof fn lemma_last_dot_is(name: Seq<char>, d: int)
    requires
        0 <= d < name.len(),
        name[d] == '.',
        forall|j: int| d < j < name.len() ==> name[j] != '.',
    ensures
        last_dot(name) == d,
    decreases name.len(),
{
    if name.last() != '.' {
        let t = name.drop_last();
        assert(t[d] == name[d]);
        assert forall|j: int| d < j < t.len() implies t[j] != '.' by {
            assert(t[j] == name[j]);
        }
        lemma_last_dot_is(t, d);
    }
}

/// A name without a dot has no last dot.
pub proof fn lemma_no_dot(name: Seq<char>)
    requires
        forall|j: int| 0 <= j < name.len() ==> name[j] != '.',
    ensures
        last_dot(name) == -1,
    decreases name.len(),
{
    if name.len() > 0 {
        let t = name.drop_last();
        assert forall|j: int| 0 <= j < t.len() implies t[j] != '.' by {
            assert(t[j] == name[j]);
        }
        lemma_no_dot(t);
    }
}

/// The path with its extension replaced, as `std::path::Path::with_extension` gives it.
pub uninterp spec fn path_with_extension(path: Seq<char>, extension: Seq<char>) -> Seq<char>;

/// The path with its file name replaced, as `std::path::Path::with_file_name` gives it.
pub uninterp spec fn path_with_file_name(path: Seq<char>, name: Seq<char>) -> Seq<char>;

/// The path relative to `base`, as `std::path::Path::strip_prefix` gives it;
/// `None` where `base` is not a prefix of the path.
pub uninterp spec fn path_strip_prefix(path: Seq<char>, base: Seq<char>) -> Option<Seq<char>>;

/// `part` adjoined to `base`, as `std::path::Path::join` gives it.
pub uninterp spec fn path_join(base: Seq<char>, part: Seq<char>) -> Seq<char>;

/// `head` is the beginning of `parts`.
pub open spec fn parts_start_with(parts: Seq<PartView>, head: Seq<PartView>) -> bool {
    head.len() <= parts.len() && forall|i: int| 0 <= i < head.len() ==> parts[i] == head[i]
}

/// Whether `base` is a prefix of the path, component by component.
pub open spec fn path_starts_with(path: Seq<char>, base: Seq<char>) -> bool {
    parts_start_with(path_components(path), path_components(base))
}

/// Whether two paths have the same components.
pub open spec fn path_equal(a: Seq<char>, b: Seq<char>) -> bool {
    path_components(a) == path_components(b)
}

/// The path without its last component, as `std::path::Path::parent` gives it.
pub uninterp spec fn path_parent(path: Seq<char>) -> Option<Seq<char>>;


/// An extension that holds no path separator.
pub open spec fn is_plain_extension(extension: Seq<char>) -> bool {
    forall|i: int| 0 <= i < extension.len() ==> extension[i] != '/' && extension[i] != '\\'
}

/// Calls `std::path::Path::with_extension`. The contract gives the result a
/// name and claims that it depends on the two strings alone. The call
/// panics on an extension that holds a path separator; `requires` leaves
/// such extensions out.
#[verifier::external_body]
pub(crate) fn with_extension(path: &str, extension: &str) -> (r: String)
    requires
        is_plain_extension(extension@),
    ensures
        r@ == path_with_extension(path@, extension@),
{
    Path::new(path).with_extension(extension).to_string_lossy().into_owned()
}

/// Calls `std::path::Path::with_file_name`. The contract gives the result
/// a name and claims that it depends on the two strings alone.
#[verifier::external_body]
pub(crate) fn with_file_name(path: &str, name: &str) -> (r: String)
    ensures
        r@ == path_with_file_name(path@, name@),
{
    Path::new(path).with_file_name(name).to_string_lossy().into_owned()
}

/// Calls `std::path::Path::strip_prefix`; its error, which carries nothing,
/// becomes `None`. The contract gives the result a name and claims that it
/// depends on the two strings alone.
#[verifier::external_body]
pub(crate) fn strip_prefix(path: &str, base: &str) -> (r: Option<String>)
    ensures
        r is Some == path_strip_prefix(path@, base@) is Some,
        r matches Some(e) ==> e@ == path_strip_prefix(path@, base@)->0,
{
    match Path::new(path).strip_prefix(base) {
        Ok(rest) => Some(rest.to_string_lossy().into_owned()),
        Err(_) => None,
    }
}

/// Calls `std::path::Path::join`. The contract gives the result a name and
/// claims that it depends on the two strings alone.
#[verifier::external_body]
pub(crate) fn join_paths(base: &str, part: &str) -> (r: String)
    ensures
        r@ == path_join(base@, part@),
{
    Path::new(base).join(part).to_string_lossy().into_owned()
}

/// Calls `std::path::Path::parent`. The contract gives the result a name
/// and claims that it depends on the path alone.
#[verifier::external_body]
pub(crate) fn parent_of(path: &str) -> (r: Option<String>)
    ensures
        r is Some == path_parent(path@) is Some,
        r matches Some(e) ==> e@ == path_parent(path@)->0,
{
    match Path::new(path).parent() {
        Some(e) => Some(e.to_string_lossy().into_owned()),
        None => None,
    }
}

/// Calls `std::path::Path::components` and hands out each component in the
/// library's own type. The contract gives the list a name and claims that
/// it depends on the path alone.
#[verifier::external_body]
pub(crate) fn components_of(path: &str) -> (r: Vec<PathPart>)
    ensures
        part_views(r@) == path_components(path@),
{
    let mut parts = Vec::new();
    for c in Path::new(path).components() {
        parts.push(match c {
            Component::Prefix(p) => PathPart::Prefix(p.as_os_str().to_string_lossy().into_owned()),
            Component::RootDir => PathPart::RootDir,
            Component::CurDir => PathPart::CurDir,
            Component::ParentDir => PathPart::ParentDir,
            Component::Normal(p) => PathPart::Normal(p.to_string_lossy().into_owned()),
        });
    }
    parts
}

/// Calls `dirs::home_dir`. What it returns depends on the environment and
/// the user database, so nothing is claimed of it. A directory whose name
/// is not valid UTF-8 counts as unknown.
#[verifier::external_body]
fn lookup_home_dir() -> Option<String> {
    match dirs::home_dir() {
        Some(p) => p.into_os_string().into_string().ok(),
        None => None,
    }
}

/// Calls `dirs::desktop_dir`; nothing is claimed of the result.
#[verifier::external_body]
fn lookup_desktop_dir() -> Option<String> {
    match dirs::desktop_dir() {
        Some(p) => p.into_os_string().into_string().ok(),
        None => None,
    }
}

/// Calls `dirs::document_dir`; nothing is claimed of the result.
#[verifier::external_body]
fn lookup_document_dir() -> Option<String> {
    match dirs::document_dir() {
        Some(p) => p.into_os_string().into_string().ok(),
        None => None,
    }
}

/// Calls `dirs::config_dir`; nothing is claimed of the result.
#[verifier::external_body]
fn lookup_config_dir() -> Option<String> {
    match dirs::config_dir() {
        Some(p) => p.into_os_string().into_string().ok(),
        None => None,
    }
}

/// Whether two components are the same.
pub fn same_part(a: &PathPart, b: &PathPart) -> (r: bool)
    ensures
        r == (a@ == b@),
{
    match (a, b) {
        (PathPart::Prefix(x), PathPart::Prefix(y)) => same_text(x.as_str(), y.as_str()),
        (PathPart::RootDir, PathPart::RootDir) => true,
        (PathPart::CurDir, PathPart::CurDir) => true,
        (PathPart::ParentDir, PathPart::ParentDir) => true,
        (PathPart::Normal(x), PathPart::Normal(y)) => same_text(x.as_str(), y.as_str()),
        _ => false,
    }
}

/// Whether `head` is the beginning of `parts`.
pub fn parts_begin_with(parts: &Vec<PathPart>, head: &Vec<PathPart>) -> (r: bool)
    ensures
        r == parts_start_with(part_views(parts@), part_views(head@)),
{
    if head.len() > parts.len() {
        return false;
    }
    let n: usize = head.len();
    let mut i: usize = 0;
    while i < n
        invariant
            n == head@.len(),
            n <= parts@.len(),
            i <= n,
            forall|k: int| 0 <= k < i ==> part_views(parts@)[k] == part_views(head@)[k],
        decreases n - i,
    {
        proof {
            assert(part_views(parts@)[i as int] == parts@[i as int]@);
            assert(part_views(head@)[i as int] == head@[i as int]@);
        }
        if !same_part(&parts[i], &head[i]) {
            return false;
        }
        i = i + 1;
    }
    true
}

/// The path's file name.
pub fn file_name_of(path: &str) -> (r: Option<String>)
    ensures
        r is Some == path_file_name(path@) is Some,
        r matches Some(e) ==> e@ == path_file_name(path@)->0,
{
    let mut parts = components_of(path);
    proof {
        if parts@.len() > 0 {
            assert(part_views(parts@).last() == parts@.last()@);
        }
    }
    match parts.pop() {
        Some(PathPart::Normal(name)) => Some(name),
        _ => None,
    }
}

/// Whether `base` is a prefix of the path, component by component.
pub fn starts_with_path(path: &str, base: &str) -> (r: bool)
    ensures
        r == path_starts_with(path@, base@),
{
    let parts = components_of(path);
    let head = components_of(base);
    parts_begin_with(&parts, &head)
}

/// Whether two paths have the same components.
pub fn same_path(a: &str, b: &str) -> (r: bool)
    ensures
        r == path_equal(a@, b@),
{
    let x = components_of(a);
    let y = components_of(b);
    let r = x.len() == y.len() && parts_begin_with(&x, &y);
    proof {
        if r {
            assert(part_views(x@) =~= part_views(y@));
        } else if x@.len() == y@.len() {
            if part_views(x@) == part_views(y@) {
                assert(parts_start_with(part_views(x@), part_views(y@)));
            }
        } else {
            assert(part_views(x@).len() != part_views(y@).len());
        }
    }
    r
}

/// Splits a file name at its last dot into stem and extension.
pub fn split_name(name: &str) -> (r: (String, Option<String>))
    ensures
        r.0@ == name_stem(name@),
        r.1 is Some == name_extension(name@) is Some,
        r.1 matches Some(e) ==> e@ == name_extension(name@)->0,
{
    let v = chars_of(name);
    let n: usize = v.len();
    let mut i: usize = n;
    while i > 0 && v[i - 1] != '.'
        invariant
            v@ == name@,
            n == v@.len(),
            i <= n,
            forall|j: int| i <= j < n ==> name@[j] != '.',
        decreases i,
    {
        i = i - 1;
    }
    if i <= 1 {
        proof {
            if i == 1 {
                lemma_last_dot_is(name@, 0);
            } else {
                lemma_no_dot(name@);
            }
        }
        (String::from_str(name), None)
    } else {
        proof {
            lemma_last_dot_is(name@, i - 1);
        }
        (
            String::from_str(name.substring_char(0, i - 1)),
            Some(String::from_str(name.substring_char(i, n))),
        )
    }
}

/// The extension of the path's file name.
pub fn extension_of(path: &str) -> (r: Option<String>)
    ensures
        r is Some == path_extension(path@) is Some,
        r matches Some(e) ==> e@ == path_extension(path@)->0,
{
    match file_name_of(path) {
        Some(name) => split_name(name.as_str()).1,
        None => None,
    }
}

/// The path's file name without its extension.
pub fn file_stem_of(path: &str) -> (r: Option<String>)
    ensures
        r is Some == path_file_stem(path@) is Some,
        r matches Some(e) ==> e@ == path_file_stem(path@)->0,
{
    match file_name_of(path) {
        Some(name) => Some(split_name(name.as_str()).0),
        None => None,
    }
}

/// Whether the extension holds no path separator.
pub fn check_plain_extension(extension: &str) -> (r: bool)
    ensures
        r == is_plain_extension(extension@),
{
    let v = chars_of(extension);
    let n: usize = v.len();
    let mut i: usize = 0;
    while i < n
        invariant
            v@ == extension@,
            n == v@.len(),
            i <= n,
            forall|k: int| 0 <= k < i ==> extension@[k] != '/' && extension@[k] != '\\',
        decreases n - i,
    {
        if v[i] == '/' || v[i] == '\\' {
            return false;
        }
        i = i + 1;
    }
    true
}

/// The path after one component has been applied to `acc`: `.` keeps it,
/// `..` drops its last component where it has a parent, every other
/// component is adjoined.
pub open spec fn apply_part(acc: Seq<char>, part: PartView) -> Seq<char> {
    match part {
        PartView::Prefix(p) => path_join(acc, p),
        PartView::RootDir => path_join(acc, "/"@),
        PartView::CurDir => acc,
        PartView::ParentDir => match path_parent(acc) {
            Some(parent) => parent,
            None => acc,
        },
        PartView::Normal(p) => path_join(acc, p),
    }
}

/// The first `n` components applied in order to the empty path.
pub open spec fn apply_parts(parts: Seq<PartView>, n: int) -> Seq<char>
    decreases n,
{
    if n <= 0 {
        Seq::empty()
    } else {
        apply_part(apply_parts(parts, n - 1), parts[n - 1])
    }
}

/// The path with `.` and `..` components resolved.
pub open spec fn spec_normalize(path: Seq<char>) -> Seq<char> {
    apply_parts(path_components(path), path_components(path).len() as int)
}

/// The path with a leading `~` replaced by `home`; unchanged where it does
/// not start with `~` or no home directory is known.
pub open spec fn spec_expand_tilde(path: Seq<char>, home: Option<Seq<char>>) -> Seq<char> {
    if !path_starts_with(path, "~"@) {
        path
    } else if path_equal(path, "~"@) {
        match home {
            Some(h) => h,
            None => path,
        }
    } else {
        match (path_strip_prefix(path, "~/"@), home) {
            (Some(rest), Some(h)) => path_join(h, rest),
            _ => path,
        }
    }
}

/// Applies one component to the path built so far.
pub fn step_path(acc: String, part: &PathPart) -> (r: String)
    ensures
        r@ == apply_part(acc@, part@),
{
    match part {
        PathPart::Prefix(p) => join_paths(acc.as_str(), p.as_str()),
        PathPart::RootDir => join_paths(acc.as_str(), "/"),
        PathPart::CurDir => acc,
        PathPart::ParentDir => match parent_of(acc.as_str()) {
            Some(parent) => parent,
            None => acc,
        },
        PathPart::Normal(p) => join_paths(acc.as_str(), p.as_str()),
    }
}

/// Applies the components in order to the empty path.
pub fn fold_parts(parts: &Vec<PathPart>) -> (r: String)
    ensures
        r@ == apply_parts(part_views(parts@), parts@.len() as int),
{
    let n: usize = parts.len();
    let mut acc = String::new();
    let mut i: usize = 0;
    while i < n
        invariant
            n == parts@.len(),
            i <= n,
            acc@ == apply_parts(part_views(parts@), i as int),
        decreases n - i,
    {
        proof {
            assert(part_views(parts@)[i as int] == parts@[i as int]@);
        }
        acc = step_path(acc, &parts[i]);
        i = i + 1;
    }
    acc
}

/// Path operations on text.
pub struct PathHelper;

impl PathHelper {
    /// Expands a leading `~` to the given home directory.
    pub fn expand_tilde_in(path: &str, home: Option<String>) -> (r: String)
        ensures
            r@ == spec_expand_tilde(path@, opt_text(home)),
    {
        if starts_with_path(path, "~") {
            if same_path(path, "~") {
                return match home {
                    Some(h) => h,
                    None => String::from_str(path),
                };
            }
            match strip_prefix(path, "~/") {
                Some(rest) => {
                    return match home {
                        Some(h) => join_paths(h.as_str(), rest.as_str()),
                        None => String::from_str(path),
                    };
                },
                None => {},
            }
        }
        String::from_str(path)
    }

    /// Expands a leading `~` to the user's home directory. Whatever home
    /// directory the system reports, a path that does not start with `~`
    /// comes back unchanged.
    pub fn expand_tilde(path: &str) -> (r: String)
        ensures
            !path_starts_with(path@, "~"@) ==> r@ == path@,
            exists|home: Option<Seq<char>>| r@ == spec_expand_tilde(path@, home),
    {
        let home = Self::home_dir();
        let ghost h = opt_text(home);
        let r = Self::expand_tilde_in(path, home);
        proof {
            assert(r@ == spec_expand_tilde(path@, h));
        }
        r
    }

    /// The user's home directory, if the system knows one.
    pub fn home_dir() -> Option<String> {
        lookup_home_dir()
    }

    /// The user's desktop directory, if the system knows one.
    pub fn desktop_dir() -> Option<String> {
        lookup_desktop_dir()
    }

    /// The user's documents directory, if the system knows one.
    pub fn documents_dir() -> Option<String> {
        lookup_document_dir()
    }

    /// The user's configuration directory, if the system knows one.
    pub fn config_dir() -> Option<String> {
        lookup_config_dir()
    }

    /// `part` adjoined to `base`.
    pub fn join(base: &str, part: &str) -> (r: String)
        ensures
            r@ == path_join(base@, part@),
    {
        join_paths(base, part)
    }

    /// The file name without its extension.
    pub fn file_stem(path: &str) -> (r: Option<String>)
        ensures
            r is Some == path_file_stem(path@) is Some,
            r matches Some(e) ==> e@ == path_file_stem(path@)->0,
    {
        file_stem_of(path)
    }

    /// The extension of the file name.
    pub fn extension(path: &str) -> (r: Option<String>)
        ensures
            r is Some == path_extension(path@) is Some,
            r matches Some(e) ==> e@ == path_extension(path@)->0,
    {
        extension_of(path)
    }

    /// The path with `.` and `..` components resolved.
    pub fn normalize(path: &str) -> (r: String)
        ensures
            r@ == spec_normalize(path@),
    {
        let parts = components_of(path);
        fold_parts(&parts)
    }

    /// The kind of an entry from what its metadata says; `None` for an
    /// entry that is neither a regular file nor a directory.
    pub fn file_type(is_file: bool, is_dir: bool) -> (r: Option<FileType>)
        ensures
            r == if is_file {
                Some(FileType::File)
            } else if is_dir {
                Some(FileType::Directory)
            } else {
                None::<FileType>
            },
    {
        if is_file {
            Some(FileType::File)
        } else if is_dir {
            Some(FileType::Directory)
        } else {
            None
        }
    }
}

/// Names for a file written beside an existing one.
pub struct FileHelper;

impl FileHelper {
    /// The first name to try: the file's own path with the new extension.
    pub fn first_candidate(absolute_path: &str, extension: &str) -> (r: String)
        requires
            is_plain_extension(extension@),
        ensures
            r@ == path_with_extension(absolute_path@, extension@),
    {
        with_extension(absolute_path, extension)
    }

    /// The name to try after `current` was found taken: the stem of
    /// `current`, a hyphen and `count`, beside the file, with the new
    /// extension. `None` where `current` has no file name.
    pub open spec fn spec_next_candidate(
        absolute_path: Seq<char>,
        current: Seq<char>,
        extension: Seq<char>,
        count: u32,
    ) -> Option<Seq<char>> {
        match path_file_stem(current) {
            Some(stem) => Some(
                path_with_extension(
                    path_with_file_name(
                        absolute_path,
                        stem + "-"@ + crate::text::decimal(count as int),
                    ),
                    extension,
                ),
            ),
            None => None,
        }
    }

    /// The name to try after `current` was found taken.
    pub fn next_candidate(absolute_path: &str, current: &str, extension: &str, count: u32) -> (r:
        Option<String>)
        requires
            is_plain_extension(extension@),
        ensures
            r is Some == Self::spec_next_candidate(absolute_path@, current@, extension@, count) is Some,
            r matches Some(p) ==> p@ == Self::spec_next_candidate(
                absolute_path@,
                current@,
                extension@,
                count,
            )->0,
    {
        match file_stem_of(current) {
            Some(stem) => {
                let mut name = stem;
                name.append("-");
                name.append(crate::text::int_text(count as i64).as_str());
                let renamed = with_file_name(absolute_path, name.as_str());
                Some(with_extension(renamed.as_str(), extension))
            },
            None => None,
        }
    }

    /// What the new file holds: the path of the file it stands beside, and
    /// a line feed.
    pub fn content(absolute_path: &str) -> (r: String)
        ensures
            r@ == absolute_path@ + "\n"@,
    {
        join2(absolute_path, "\n")
    }
}

} // verus!
