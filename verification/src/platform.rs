//! Platform-specific security policies: safe directories, the Git
//! executable's location, file permissions.

use vstd::prelude::*;
use crate::security::canonical_path;
use crate::errors::target_is_windows;
use crate::text::{
    append_str, concat, contains_any, contains_seq, equals_any, join, join_strings, lowercase,
    owned, starts_with, starts_with_any, str_contains, str_contains_any, str_equals_any,
    str_has_char, str_starts_with, str_starts_with_any, strings, to_lowercase, views,
};

verus! {

/// Directories searched for Git tools on Unix, in order.
pub open spec fn safe_unix_dirs() -> Seq<Seq<char>> {
    seq![
        "/usr/bin"@, "/bin"@, "/usr/local/bin"@, "/opt/local/bin"@, "/usr/local/git/bin"@,
        "/opt/homebrew/bin"@,
    ]
}

/// Directories searched for Git tools on Windows, in order.
pub open spec fn safe_windows_dirs() -> Seq<Seq<char>> {
    seq![
        "C:\\Program Files\\Git\\cmd"@, "C:\\Program Files\\Git\\bin"@,
        "C:\\Program Files\\Git\\usr\\bin"@, "C:\\Program Files (x86)\\Git\\cmd"@,
        "C:\\Program Files (x86)\\Git\\bin"@, "C:\\Program Files (x86)\\Git\\usr\\bin"@,
        "C:\\Windows\\System32"@, "C:\\Windows"@, "C:\\Windows\\System32\\WindowsPowerShell\\v1.0"@,
    ]
}

/// Locations of the Git executable on Unix, in order of preference.
pub open spec fn unix_git_locations() -> Seq<Seq<char>> {
    seq![
        "/usr/bin/git"@, "/usr/local/bin/git"@, "/opt/local/bin/git"@,
        "/usr/local/git/bin/git"@, "/opt/homebrew/bin/git"@,
    ]
}

/// Prefixes of directories that are never safe on Unix.
pub open spec fn unix_dangerous_prefixes() -> Seq<Seq<char>> {
    seq![
        "/dev/"@, "/proc/"@, "/sys/"@, "/var/spool/"@, "/etc/shadow"@, "/etc/passwd"@,
        "/boot/"@, "/var/log/"@, "/tmp/"@, "/var/tmp/"@,
    ]
}

/// Parts of (lower-cased) paths that are never safe on Windows.
pub open spec fn windows_dangerous_parts() -> Seq<Seq<char>> {
    seq![
        "c:\\windows\\system32\\drivers"@, "c:\\windows\\system32\\config"@,
        "c:\\windows\\temp"@, "c:\\users\\public"@, "c:\\programdata"@, "\\device\\"@,
        "\\\\?\\"@,
    ]
}

/// Prefixes of (lower-cased) Windows directories from which tools may be run.
pub open spec fn windows_safe_prefixes() -> Seq<Seq<char>> {
    seq![
        "c:\\program files\\git"@, "c:\\program files (x86)\\git"@, "c:\\windows\\system32"@,
        "c:\\windows"@,
    ]
}

/// Prefixes of (lower-cased) Windows locations whose files are not read.
pub open spec fn windows_dangerous_locations() -> Seq<Seq<char>> {
    seq![
        "c:\\windows\\system32\\drivers"@, "c:\\windows\\system32\\config"@,
        "c:\\program files\\internet explorer"@,
        "c:\\program files\\common files\\microsoft shared"@,
    ]
}

/// File extensions (lower-cased) of executables and libraries.
pub open spec fn dangerous_extensions() -> Seq<Seq<char>> {
    seq![
        "exe"@, "bat"@, "cmd"@, "com"@, "scr"@, "pif"@, "msi"@, "dll"@, "sys"@, "drv"@,
        "bin"@, "o"@, "so"@, "dylib"@,
    ]
}

/// What `std::path::Path::extension` gives for a path (as UTF-8 text).
pub uninterp spec fn path_extension(path: Seq<char>) -> Option<Seq<char>>;

/// How `std::path::Path` formats a path with `{:?}`.
pub uninterp spec fn path_debug(path: Seq<char>) -> Seq<char>;

/// The extension of a path (`std::path::Path::extension`, lossily as text).
#[verifier::external_body]
pub(crate) fn extension_of(path: &str) -> (r: Option<String>)
    ensures
        r is Some <==> path_extension(path@) is Some,
        r matches Some(e) ==> e@ == path_extension(path@)->0,
{
    std::path::Path::new(path).extension().map(|e| e.to_string_lossy().into_owned())
}

/// A path formatted with `{:?}` (`std::path::Path`'s `Debug`).
#[verifier::external_body]
pub(crate) fn debug_path(path: &str) -> (r: String)
    ensures
        r@ == path_debug(path@),
{
    format!("{:?}", std::path::Path::new(path))
}

/// Whether a directory exists at `path` (`std::path::Path::is_dir`).
/// The answer depends on the file system; nothing is stated about it.
#[verifier::external_body]
pub(crate) fn dir_exists(path: &str) -> bool {
    std::path::Path::new(path).is_dir()
}

/// Whether a regular file exists at `path` (`std::path::Path::is_file`).
/// The answer depends on the file system; nothing is stated about it.
#[verifier::external_body]
pub(crate) fn file_exists(path: &str) -> bool {
    std::path::Path::new(path).is_file()
}

/// What is known of a file system entry, read from its metadata.
#[derive(Debug, Clone, Copy, PartialEq, Eq, Structural)]
pub struct FileFacts {
    pub exists: bool,
    pub is_file: bool,
    pub len: u64,
    pub mode: u32,
}

/// The candidates whose flag is set, in order.
pub open spec fn selected(candidates: Seq<Seq<char>>, flags: Seq<bool>) -> Seq<Seq<char>> {
    selected_prefix(candidates, flags, candidates.len() as int)
}

/// The first `n` candidates whose flag is set, in order.
pub open spec fn selected_prefix(candidates: Seq<Seq<char>>, flags: Seq<bool>, n: int) -> Seq<
    Seq<char>,
>
    decreases n,
{
    if n <= 0 {
        Seq::empty()
    } else {
        let rest = selected_prefix(candidates, flags, n - 1);
        if n - 1 < flags.len() && n - 1 < candidates.len() && flags[n - 1] {
            rest.push(candidates[n - 1])
        } else {
            rest
        }
    }
}

/// The index of the first set flag, from `k` on.
pub open spec fn first_set(flags: Seq<bool>, k: int) -> Option<int>
    decreases flags.len() - k,
{
    if k < 0 || k >= flags.len() {
        None
    } else if flags[k] {
        Some(k)
    } else {
        first_set(flags, k + 1)
    }
}

/// Why a Unix file fails the permission check, if it does.
pub open spec fn unix_permission_problem(path: Seq<char>, facts: FileFacts) -> Option<Seq<char>> {
    if !facts.exists {
        Some("Path does not exist: "@ + path_debug(path))
    } else if facts.mode & 0o002 != 0 {
        Some("File is world-writable: "@ + path_debug(path))
    } else if facts.is_file && facts.len > 100_000_000 {
        Some("File too large: "@ + path_debug(path))
    } else if facts.is_file && (facts.mode & 0o4000 != 0 || facts.mode & 0o2000 != 0) {
        Some("File has dangerous setuid/setgid permissions: "@ + path_debug(path))
    } else {
        None
    }
}

/// Why a Windows file fails the permission check, if it does.
pub open spec fn windows_permission_problem(path: Seq<char>, facts: FileFacts) -> Option<
    Seq<char>,
> {
    if !facts.exists {
        Some("Path does not exist: "@ + path_debug(path))
    } else if facts.is_file && facts.len > 100_000_000 {
        Some("File too large: "@ + path_debug(path))
    } else if starts_with_any(lowercase(path), windows_dangerous_locations()) {
        Some("Path in dangerous location: "@ + path_debug(path))
    } else {
        None
    }
}

/// Whether a directory is safe for Git operations on Unix.
pub open spec fn safe_unix_directory(path: Seq<char>) -> bool {
    !starts_with_any(path, unix_dangerous_prefixes()) && !contains_seq(path, ".."@)
        && !path.contains('~')
}

/// Whether a directory is safe for Git operations, on Windows when
/// `windows` holds.
pub open spec fn safe_directory(path: Seq<char>, windows: bool) -> bool {
    if windows {
        safe_windows_directory(path)
    } else {
        safe_unix_directory(path)
    }
}

/// What sanitizing a path can give, on Windows when `windows` holds: a
/// path in a safe directory, or an error saying the path could not be
/// resolved or resolved into an unsafe directory.
pub open spec fn sanitized_path_outcome(r: Result<String, String>, windows: bool) -> bool {
    match r {
        Ok(p) => safe_directory(p@, windows),
        Err(m) => starts_with(m@, "Cannot canonicalize path: "@) || exists|c: Seq<char>|
            !safe_directory(c, windows) && m@ == "Path points to unsafe directory: "@ + #[trigger] path_debug(c),
    }
}

/// Whether a directory is safe for Git operations on Windows.
pub open spec fn safe_windows_directory(path: Seq<char>) -> bool {
    !contains_any(lowercase(path), windows_dangerous_parts()) && !starts_with(
        lowercase(path),
        "\\\\"@,
    )
}

/// Platform security policies.
pub struct PlatformSecurity;

impl PlatformSecurity {
    /// A PATH value made of the safe Unix directories that exist.
    pub fn secure_path() -> (r: Result<String, String>)
        ensures
            r matches Err(m) ==> m@ == "No safe PATH directories found"@,
            r matches Ok(s) ==> exists|f: Seq<bool>| f.len() == safe_unix_dirs().len()
                && selected(safe_unix_dirs(), f).len() > 0 && s@ == join(selected(safe_unix_dirs(), f), ":"@),
    {
        Self::secure_unix_path()
    }

    /// A PATH value made of the safe Unix directories that exist.
    pub fn secure_unix_path() -> (r: Result<String, String>)
        ensures
            r matches Err(m) ==> m@ == "No safe PATH directories found"@,
            r matches Ok(s) ==> exists|f: Seq<bool>| f.len() == safe_unix_dirs().len()
                && selected(safe_unix_dirs(), f).len() > 0 && s@ == join(selected(safe_unix_dirs(), f), ":"@),
    {
        let dirs = strings(
            &["/usr/bin", "/bin", "/usr/local/bin", "/opt/local/bin", "/usr/local/git/bin", "/opt/homebrew/bin"],
        );
        let mut flags: Vec<bool> = Vec::new();
        let mut i: usize = 0;
        while i < dirs.len()
            invariant
                i <= dirs.len(),
                flags@.len() == i,
            decreases dirs.len() - i,
        {
            flags.push(dir_exists(dirs[i].as_str()));
            i = i + 1;
        }
        assert(views(dirs@) =~= safe_unix_dirs());
        let r = Self::unix_path_from(&flags);
        proof {
            if r is Ok {
                assert(selected(safe_unix_dirs(), flags@).len() > 0);
            }
        }
        r
    }

    /// A PATH value made of the safe Unix directories whose flag is set:
    /// `flags[i]` tells whether the i-th of [`safe_unix_dirs`] exists.
    pub fn unix_path_from(flags: &Vec<bool>) -> (r: Result<String, String>)
        ensures
            selected(safe_unix_dirs(), flags@).len() == 0 ==> (r matches Err(m) && m@
                == "No safe PATH directories found"@),
            selected(safe_unix_dirs(), flags@).len() > 0 ==> (r matches Ok(s) && s@ == join(
                selected(safe_unix_dirs(), flags@),
                ":"@,
            )),
    {
        let dirs = strings(
            &["/usr/bin", "/bin", "/usr/local/bin", "/opt/local/bin", "/usr/local/git/bin", "/opt/homebrew/bin"],
        );
        assert(views(dirs@) =~= safe_unix_dirs());
        let chosen = select(&dirs, flags);
        if chosen.len() == 0 {
            return Err(owned("No safe PATH directories found"));
        }
        Ok(join_strings(&chosen, ":"))
    }

    /// A PATH value made of the safe Windows directories whose flag is set:
    /// `flags[i]` tells whether the i-th of [`safe_windows_dirs`] exists.
    pub fn windows_path_from(flags: &Vec<bool>) -> (r: Result<String, String>)
        ensures
            selected(safe_windows_dirs(), flags@).len() == 0 ==> (r matches Err(m) && m@
                == "No safe PATH directories found on Windows"@),
            selected(safe_windows_dirs(), flags@).len() > 0 ==> (r matches Ok(s) && s@ == join(
                selected(safe_windows_dirs(), flags@),
                ";"@,
            )),
    {
        let dirs = strings(
            &[
                "C:\\Program Files\\Git\\cmd",
                "C:\\Program Files\\Git\\bin",
                "C:\\Program Files\\Git\\usr\\bin",
                "C:\\Program Files (x86)\\Git\\cmd",
                "C:\\Program Files (x86)\\Git\\bin",
                "C:\\Program Files (x86)\\Git\\usr\\bin",
                "C:\\Windows\\System32",
                "C:\\Windows",
                "C:\\Windows\\System32\\WindowsPowerShell\\v1.0",
            ],
        );
        assert(views(dirs@) =~= safe_windows_dirs());
        let chosen = select(&dirs, flags);
        if chosen.len() == 0 {
            return Err(owned("No safe PATH directories found on Windows"));
        }
        Ok(join_strings(&chosen, ";"))
    }

    /// A PATH value made of the safe Windows directories that exist.
    pub fn secure_windows_path() -> (r: Result<String, String>)
        ensures
            r matches Err(m) ==> m@ == "No safe PATH directories found on Windows"@,
            r matches Ok(s) ==> exists|f: Seq<bool>| f.len() == safe_windows_dirs().len()
                && selected(safe_windows_dirs(), f).len() > 0 && s@ == join(selected(safe_windows_dirs(), f), ";"@),
    {
        let dirs = strings(
            &[
                "C:\\Program Files\\Git\\cmd",
                "C:\\Program Files\\Git\\bin",
                "C:\\Program Files\\Git\\usr\\bin",
                "C:\\Program Files (x86)\\Git\\cmd",
                "C:\\Program Files (x86)\\Git\\bin",
                "C:\\Program Files (x86)\\Git\\usr\\bin",
                "C:\\Windows\\System32",
                "C:\\Windows",
                "C:\\Windows\\System32\\WindowsPowerShell\\v1.0",
            ],
        );
        let mut flags: Vec<bool> = Vec::new();
        let mut i: usize = 0;
        while i < dirs.len()
            invariant
                i <= dirs.len(),
                flags@.len() == i,
            decreases dirs.len() - i,
        {
            flags.push(dir_exists(dirs[i].as_str()));
            i = i + 1;
        }
        assert(views(dirs@) =~= safe_windows_dirs());
        let r = Self::windows_path_from(&flags);
        proof {
            if r is Ok {
                assert(selected(safe_windows_dirs(), flags@).len() > 0);
            }
        }
        r
    }

    /// The Git executable in the first safe location where it exists.
    pub fn find_git_executable_secure() -> (r: Result<String, String>)
        ensures
            r matches Ok(p) ==> unix_git_locations().contains(p@),
            r matches Err(m) ==> m@ == "Git executable not found in safe locations"@,
    {
        Self::find_git_unix()
    }

    /// The Git executable in the first safe Unix location where it exists.
    pub fn find_git_unix() -> (r: Result<String, String>)
        ensures
            r matches Ok(p) ==> unix_git_locations().contains(p@),
            r matches Err(m) ==> m@ == "Git executable not found in safe locations"@,
    {
        let locations = strings(
            &["/usr/bin/git", "/usr/local/bin/git", "/opt/local/bin/git", "/usr/local/git/bin/git", "/opt/homebrew/bin/git"],
        );
        let mut flags: Vec<bool> = Vec::new();
        let mut i: usize = 0;
        while i < locations.len()
            invariant
                i <= locations.len(),
                flags@.len() == i,
            decreases locations.len() - i,
        {
            flags.push(file_exists(locations[i].as_str()));
            i = i + 1;
        }
        let r = Self::git_location_from(&flags);
        proof {
            if r is Ok {
                let k = first_set(flags@, 0)->0;
                lemma_first_set_range(flags@, 0);
                assert(unix_git_locations()[k] == r->Ok_0@);
            }
        }
        r
    }

    /// The first Unix Git location whose flag is set: `flags[i]` tells
    /// whether the i-th of [`unix_git_locations`] is a file.
    pub fn git_location_from(flags: &Vec<bool>) -> (r: Result<String, String>)
        ensures
            (first_set(flags@, 0) matches Some(k) && k < unix_git_locations().len()) ==> (r matches Ok(
                p,
            ) && p@ == unix_git_locations()[first_set(flags@, 0)->0]),
            !(first_set(flags@, 0) matches Some(k) && k < unix_git_locations().len()) ==> (r matches Err(
                m,
            ) && m@ == "Git executable not found in safe locations"@),
    {
        let locations = strings(
            &["/usr/bin/git", "/usr/local/bin/git", "/opt/local/bin/git", "/usr/local/git/bin/git", "/opt/homebrew/bin/git"],
        );
        assert(views(locations@) =~= unix_git_locations());
        let mut i: usize = 0;
        while i < flags.len()
            invariant
                i <= flags.len(),
                first_set(flags@, 0) == first_set(flags@, i as int),
                views(locations@) == unix_git_locations(),
            decreases flags.len() - i,
        {
            if flags[i] {
                if i < locations.len() {
                    assert(views(locations@)[i as int] == locations@[i as int]@);
                    return Ok(owned(locations[i].as_str()));
                } else {
                    return Err(owned("Git executable not found in safe locations"));
                }
            }
            i = i + 1;
        }
        Err(owned("Git executable not found in safe locations"))
    }

    /// Checks the permissions of a file on Unix from its metadata.
    pub fn validate_file_permissions(path: &str, facts: &FileFacts) -> (r: Result<(), String>)
        ensures
            r is Ok <==> unix_permission_problem(path@, *facts) is None,
            r matches Err(m) ==> m@ == unix_permission_problem(path@, *facts)->0,
    {
        Self::validate_unix_permissions(path, facts)
    }

    /// Checks the permissions of a file on Unix from its metadata: it must
    /// exist, not be world-writable, and, for a file, be at most 100 MB and
    /// carry no setuid or setgid bit.
    pub fn validate_unix_permissions(path: &str, facts: &FileFacts) -> (r: Result<(), String>)
        ensures
            r is Ok <==> unix_permission_problem(path@, *facts) is None,
            r matches Err(m) ==> m@ == unix_permission_problem(path@, *facts)->0,
    {
        if !facts.exists {
            return Err(concat("Path does not exist: ", debug_path(path).as_str()));
        }
        if facts.mode & 0o002 != 0 {
            return Err(concat("File is world-writable: ", debug_path(path).as_str()));
        }
        if facts.is_file {
            if facts.len > 100_000_000 {
                return Err(concat("File too large: ", debug_path(path).as_str()));
            }
            if facts.mode & 0o4000 != 0 || facts.mode & 0o2000 != 0 {
                return Err(
                    concat(
                        "File has dangerous setuid/setgid permissions: ",
                        debug_path(path).as_str(),
                    ),
                );
            }
        }
        Ok(())
    }

    /// Checks a file on Windows from its metadata: it must exist, be at most
    /// 100 MB if a file, and lie outside the system's sensitive locations.
    pub fn validate_windows_permissions(path: &str, facts: &FileFacts) -> (r: Result<(), String>)
        ensures
            r is Ok <==> windows_permission_problem(path@, *facts) is None,
            r matches Err(m) ==> m@ == windows_permission_problem(path@, *facts)->0,
    {
        if !facts.exists {
            return Err(concat("Path does not exist: ", debug_path(path).as_str()));
        }
        if facts.is_file && facts.len > 100_000_000 {
            return Err(concat("File too large: ", debug_path(path).as_str()));
        }
        let lower = to_lowercase(path);
        let dangerous = strings(
            &[
                "c:\\windows\\system32\\drivers",
                "c:\\windows\\system32\\config",
                "c:\\program files\\internet explorer",
                "c:\\program files\\common files\\microsoft shared",
            ],
        );
        assert(views(dangerous@) =~= windows_dangerous_locations());
        if str_starts_with_any(lower.as_str(), &dangerous) {
            return Err(concat("Path in dangerous location: ", debug_path(path).as_str()));
        }
        Ok(())
    }

    /// Whether a directory is safe for Git operations, by the rules of the
    /// platform the crate was built for (see [`target_is_windows`]).
    pub fn is_safe_directory(path: &str) -> (r: bool)
        ensures
            r == safe_directory(path@, false) || r == safe_directory(path@, true),
    {
        Self::is_safe_directory_on(path, target_is_windows())
    }

    /// Whether a directory is safe for Git operations, by the Windows rules
    /// when `windows` holds and by the Unix rules otherwise.
    pub fn is_safe_directory_on(path: &str, windows: bool) -> (r: bool)
        ensures
            r == safe_directory(path@, windows),
    {
        if windows {
            Self::is_safe_directory_windows(path)
        } else {
            Self::is_safe_directory_unix(path)
        }
    }

    /// Whether a directory is safe on Unix: outside system and temporary
    /// directories, without `..` or `~`.
    pub fn is_safe_directory_unix(path: &str) -> (r: bool)
        ensures
            r == safe_unix_directory(path@),
    {
        let dangerous = strings(
            &["/dev/", "/proc/", "/sys/", "/var/spool/", "/etc/shadow", "/etc/passwd", "/boot/", "/var/log/", "/tmp/", "/var/tmp/"],
        );
        assert(views(dangerous@) =~= unix_dangerous_prefixes());
        if str_starts_with_any(path, &dangerous) {
            return false;
        }
        if str_contains(path, "..") || str_has_char(path, '~') {
            return false;
        }
        true
    }

    /// Whether a directory is safe on Windows: outside system, temporary and
    /// public directories, not a device or UNC path.
    pub fn is_safe_directory_windows(path: &str) -> (r: bool)
        ensures
            r == safe_windows_directory(path@),
    {
        let lower = to_lowercase(path);
        let dangerous = strings(
            &[
                "c:\\windows\\system32\\drivers",
                "c:\\windows\\system32\\config",
                "c:\\windows\\temp",
                "c:\\users\\public",
                "c:\\programdata",
                "\\device\\",
                "\\\\?\\",
            ],
        );
        assert(views(dangerous@) =~= windows_dangerous_parts());
        if str_contains_any(lower.as_str(), &dangerous) {
            return false;
        }
        if str_starts_with(lower.as_str(), "\\\\") {
            return false;
        }
        true
    }

    /// Whether a directory of the Windows PATH is one from which Git may run.
    pub fn is_safe_windows_path_dir(path: &str) -> (r: bool)
        ensures
            r == starts_with_any(lowercase(path@), windows_safe_prefixes()),
    {
        let lower = to_lowercase(path);
        let safe = strings(
            &["c:\\program files\\git", "c:\\program files (x86)\\git", "c:\\windows\\system32", "c:\\windows"],
        );
        assert(views(safe@) =~= windows_safe_prefixes());
        str_starts_with_any(lower.as_str(), &safe)
    }
}

/// The strings whose flag is set, in order.
pub fn select(candidates: &Vec<String>, flags: &Vec<bool>) -> (r: Vec<String>)
    ensures
        views(r@) == selected(views(candidates@), flags@),
{
    let mut r: Vec<String> = Vec::new();
    let mut i: usize = 0;
    while i < candidates.len()
        invariant
            i <= candidates.len(),
            views(r@) == selected_prefix(views(candidates@), flags@, i as int),
        decreases candidates.len() - i,
    {
        if i < flags.len() && flags[i] {
            let ghost before = r@;
            r.push(owned(candidates[i].as_str()));
            assert(views(r@) =~= views(before).push(candidates@[i as int]@));
            assert(views(candidates@)[i as int] == candidates@[i as int]@);
        }
        i = i + 1;
    }
    r
}

proof fn lemma_first_set_range(flags: Seq<bool>, k: int)
    requires
        0 <= k,
    ensures
        first_set(flags, k) matches Some(j) ==> k <= j < flags.len() && flags[j],
    decreases flags.len() - k,
{
    if k < flags.len() && !flags[k] {
        lemma_first_set_range(flags, k + 1);
    }
}

/// File-system security checks.
pub struct FileSystemSecurity;

/// Why a file is not safe to read, if it is not.
pub open spec fn unsafe_to_read(path: Seq<char>, facts: FileFacts) -> Option<Seq<char>> {
    if !facts.exists {
        Some("File does not exist"@)
    } else if !facts.is_file {
        Some("Path is not a regular file"@)
    } else if unix_permission_problem(path, facts) is Some {
        unix_permission_problem(path, facts)
    } else if path_extension(path) is Some && equals_any(
        lowercase(path_extension(path)->0),
        dangerous_extensions(),
    ) {
        Some("Dangerous file extension: "@ + lowercase(path_extension(path)->0))
    } else {
        None
    }
}

impl FileSystemSecurity {
    /// Checks whether a file is safe to read: it is an existing regular file,
    /// passes the permission check, and is not an executable or library.
    pub fn is_safe_to_read(path: &str, facts: &FileFacts) -> (r: Result<(), String>)
        ensures
            r is Ok <==> unsafe_to_read(path@, *facts) is None,
            r matches Err(m) ==> m@ == unsafe_to_read(path@, *facts)->0,
    {
        if !facts.exists {
            return Err(owned("File does not exist"));
        }
        if !facts.is_file {
            return Err(owned("Path is not a regular file"));
        }
        PlatformSecurity::validate_file_permissions(path, facts)?;
        match extension_of(path) {
            Some(ext) => {
                let lower = to_lowercase(ext.as_str());
                let dangerous = strings(
                    &["exe", "bat", "cmd", "com", "scr", "pif", "msi", "dll", "sys", "drv", "bin", "o", "so", "dylib"],
                );
                assert(views(dangerous@) =~= dangerous_extensions());
                if str_equals_any(lower.as_str(), &dangerous) {
                    return Err(concat("Dangerous file extension: ", lower.as_str()));
                }
            },
            None => {},
        }
        Ok(())
    }

    /// Resolves a path and checks that it points to a safe directory, by
    /// the rules of the platform the crate was built for.
    pub fn sanitize_path(path: &str) -> (r: Result<String, String>)
        ensures
            sanitized_path_outcome(r, false) || sanitized_path_outcome(r, true),
    {
        Self::check_canonical(canonical_path(path), target_is_windows())
    }

    /// What sanitizing a path gives once it was resolved to `canonical` (or
    /// failed to resolve): the canonical path when its directory is safe,
    /// by the Windows rules when `windows` holds and the Unix ones otherwise.
    pub fn check_canonical(canonical: Result<String, String>, windows: bool) -> (r: Result<String, String>)
        ensures
            canonical matches Ok(c) ==> (if safe_directory(c@, windows) {
                r matches Ok(p) && p@ == c@
            } else {
                r matches Err(m) && m@ == "Path points to unsafe directory: "@ + path_debug(c@)
            }),
            canonical matches Err(e) ==> (r matches Err(m) && m@ == "Cannot canonicalize path: "@ + e@
                && starts_with(m@, "Cannot canonicalize path: "@)),
    {
        match canonical {
            Ok(c) => {
                if !PlatformSecurity::is_safe_directory_on(c.as_str(), windows) {
                    return Err(concat("Path points to unsafe directory: ", debug_path(c.as_str()).as_str()));
                }
                Ok(c)
            },
            Err(e) => Err(concat("Cannot canonicalize path: ", e.as_str())),
        }
    }

    /// Sanitizes a user name taken from the environment: only letters,
    /// digits and `-` (and `_` when `allow_underscore`) are kept.
    pub fn sanitize_account_name(name: &str, allow_underscore: bool) -> (r: String)
        ensures
            r@ == account_chars(name@, allow_underscore),
    {
        let v = crate::text::chars_of(name);
        let mut out: Vec<char> = Vec::new();
        let mut i: usize = 0;
        while i < v.len()
            invariant
                i <= v.len(),
                v@ == name@,
                out@ == account_chars(v@.take(i as int), allow_underscore),
            decreases v.len() - i,
        {
            let c = v[i];
            assert(v@.take((i + 1) as int).drop_last() == v@.take(i as int));
            if is_alphanumeric(c) || c == '-' || (allow_underscore && c == '_') {
                out.push(c);
            }
            i = i + 1;
        }
        assert(v@.take(v.len() as int) == v@);
        crate::text::string_of(&out)
    }
}

/// Whether `char::is_alphanumeric` holds.
pub uninterp spec fn alphanumeric(c: char) -> bool;

/// `char::is_alphanumeric` (Unicode letters and numbers).
#[verifier::external_body]
pub(crate) fn is_alphanumeric(c: char) -> (r: bool)
    ensures
        r == alphanumeric(c),
{
    c.is_alphanumeric()
}

/// The characters kept in an account name.
pub open spec fn account_chars(s: Seq<char>, allow_underscore: bool) -> Seq<char>
    decreases s.len(),
{
    if s.len() == 0 {
        s
    } else {
        let rest = account_chars(s.drop_last(), allow_underscore);
        let c = s.last();
        if alphanumeric(c) || c == '-' || (allow_underscore && c == '_') {
            rest.push(c)
        } else {
            rest
        }
    }
}

} // verus!
