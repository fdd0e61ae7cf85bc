//! Security policies for Git command arguments and user input.

use vstd::prelude::*;
use vstd::utf8::encode_utf8;
use crate::errors::{is_absolute, is_absolute_path, ref_name_breaks_rules, target_is_windows};
use crate::patterns::{regex_check, regex_compile_error, regex_is_match, regex_matches};
use crate::text::{
    all_hex, append_str, ascii_lower_seq, ascii_lowercase, byte_len, char_string, char_width,
    chars_of, concat, concat3, contains_seq, decimal, first_listed, first_listed_from, owned,
    prefix_bytes, remove_chars, result_view, starts_with, str_all_hex, str_contains, str_has_char,
    str_starts_with, str_ends_with, string_of, strip_controls, u64_to_string, usize_to_string,
    utf8_width, lemma_prefix_bytes_step,
};

verus! {

/// Git commands that may be run: read-only ones only.
pub open spec fn allowed_commands() -> Seq<Seq<char>> {
    seq![
        "rev-list"@, "log"@, "show"@, "diff"@, "cat-file"@, "ls-files"@, "ls-tree"@,
        "show-ref"@, "for-each-ref"@, "rev-parse"@, "status"@, "branch"@, "tag"@,
        "config"@, "remote"@, "describe"@, "merge-base"@, "name-rev"@, "symbolic-ref"@,
    ]
}

/// Regular expressions that no argument may match, in the order they are tried.
pub open spec fn dangerous_patterns() -> Seq<Seq<char>> {
    seq![
        "[|&;`$()<>]"@,
        "\\\\x[0-9a-fA-F]{2}"@,
        "\\\\u[0-9a-fA-F]{4}"@,
        "\\\\[0-7]{1,3}"@,
        "\\.\\./"@,
        "\\\\\\.\\\\./"@,
        "/\\.\\./"@,
        "\\.\\.\\\\"@,
        "--upload-pack"@,
        "--receive-pack"@,
        "--exec"@,
        "--ssh"@,
        "--ext"@,
        "--config"@,
        "--no-verify"@,
        "--local"@,
        "--shared"@,
        "--bare"@,
        "--git-dir="@,
        "--work-tree="@,
        "(https?|ssh|git|ftp)://"@,
        "[a-zA-Z0-9.-]+@[a-zA-Z0-9.-]+:"@,
        "file://"@,
        "[\\n\\r\\t\\v\\f]"@,
        "[\\x00-\\x1f\\x7f-\\x9f]"@,
    ]
}

/// Regular expressions of revision specifiers that are accepted.
pub open spec fn safe_revision_patterns() -> Seq<Seq<char>> {
    seq![
        "^[a-fA-F0-9]{4,40}$"@,
        "^HEAD$"@,
        "^HEAD~\\d+$"@,
        "^HEAD\\^\\d*$"@,
        "^refs/heads/[\\w/-]+$"@,
        "^refs/tags/[\\w/-]+$"@,
        "^refs/remotes/[\\w/-]+$"@,
        "^[\\w/-]+$"@,
    ]
}

/// Environment variables that may not be passed to Git.
pub open spec fn dangerous_env_vars() -> Seq<Seq<char>> {
    seq![
        "LD_PRELOAD"@, "LD_LIBRARY_PATH"@, "DYLD_INSERT_LIBRARIES"@, "PATH"@,
        "GIT_EXEC_PATH"@, "GIT_SSH"@, "GIT_SSH_COMMAND"@, "GIT_PROXY_COMMAND"@,
        "GIT_CONNECT_TIMEOUT"@,
    ]
}

fn allowed_commands_vec() -> (v: Vec<String>)
    ensures
        v@.map_values(|s: String| s@) == allowed_commands(),
{
    let v = vec![
        owned("rev-list"), owned("log"), owned("show"), owned("diff"), owned("cat-file"),
        owned("ls-files"), owned("ls-tree"), owned("show-ref"), owned("for-each-ref"),
        owned("rev-parse"), owned("status"), owned("branch"), owned("tag"), owned("config"),
        owned("remote"), owned("describe"), owned("merge-base"), owned("name-rev"),
        owned("symbolic-ref"),
    ];
    assert(v@.map_values(|s: String| s@) =~= allowed_commands());
    v
}

fn dangerous_patterns_vec() -> (v: Vec<String>)
    ensures
        v@.map_values(|s: String| s@) == dangerous_patterns(),
{
    let v = vec![
        owned("[|&;`$()<>]"),
        owned("\\\\x[0-9a-fA-F]{2}"),
        owned("\\\\u[0-9a-fA-F]{4}"),
        owned("\\\\[0-7]{1,3}"),
        owned("\\.\\./"),
        owned("\\\\\\.\\\\./"),
        owned("/\\.\\./"),
        owned("\\.\\.\\\\"),
        owned("--upload-pack"),
        owned("--receive-pack"),
        owned("--exec"),
        owned("--ssh"),
        owned("--ext"),
        owned("--config"),
        owned("--no-verify"),
        owned("--local"),
        owned("--shared"),
        owned("--bare"),
        owned("--git-dir="),
        owned("--work-tree="),
        owned("(https?|ssh|git|ftp)://"),
        owned("[a-zA-Z0-9.-]+@[a-zA-Z0-9.-]+:"),
        owned("file://"),
        owned("[\\n\\r\\t\\v\\f]"),
        owned("[\\x00-\\x1f\\x7f-\\x9f]"),
    ];
    assert(v@.map_values(|s: String| s@) =~= dangerous_patterns());
    v
}

fn safe_revision_patterns_vec() -> (v: Vec<String>)
    ensures
        v@.map_values(|s: String| s@) == safe_revision_patterns(),
{
    let v = vec![
        owned("^[a-fA-F0-9]{4,40}$"),
        owned("^HEAD$"),
        owned("^HEAD~\\d+$"),
        owned("^HEAD\\^\\d*$"),
        owned("^refs/heads/[\\w/-]+$"),
        owned("^refs/tags/[\\w/-]+$"),
        owned("^refs/remotes/[\\w/-]+$"),
        owned("^[\\w/-]+$"),
    ];
    assert(v@.map_values(|s: String| s@) =~= safe_revision_patterns());
    v
}

fn dangerous_env_vars_vec() -> (v: Vec<String>)
    ensures
        v@.map_values(|s: String| s@) == dangerous_env_vars(),
{
    let v = vec![
        owned("LD_PRELOAD"), owned("LD_LIBRARY_PATH"), owned("DYLD_INSERT_LIBRARIES"),
        owned("PATH"), owned("GIT_EXEC_PATH"), owned("GIT_SSH"), owned("GIT_SSH_COMMAND"),
        owned("GIT_PROXY_COMMAND"), owned("GIT_CONNECT_TIMEOUT"),
    ];
    assert(v@.map_values(|s: String| s@) =~= dangerous_env_vars());
    v
}

/// The index of the first pattern, from `k` on, that matches `arg`.
pub open spec fn first_matching_pattern(patterns: Seq<Seq<char>>, arg: Seq<char>, k: int) -> Option<
    int,
>
    decreases patterns.len() - k,
{
    if k < 0 || k >= patterns.len() {
        None
    } else if regex_is_match(patterns[k], arg) {
        Some(k)
    } else {
        first_matching_pattern(patterns, arg, k + 1)
    }
}

/// Whether some pattern of the list compiles and matches `spec_text`.
pub open spec fn some_pattern_accepts(patterns: Seq<Seq<char>>, text: Seq<char>) -> bool {
    exists|i: int|
        0 <= i < patterns.len() && regex_compile_error(#[trigger] patterns[i]) is None
            && regex_is_match(patterns[i], text)
}

/// Whether an argument looks like a reference or revision.
pub open spec fn looks_like_ref(arg: Seq<char>) -> bool {
    contains_seq(arg, "refs/"@) || starts_with(arg, "HEAD"@) || all_hex(arg)
}

/// Whether an argument is a revision specifier with range or ancestry syntax.
pub open spec fn is_revision_expression(arg: Seq<char>) -> bool {
    contains_seq(arg, ".."@) || contains_seq(arg, "@{"@) || arg.contains('~')
}

/// Why one argument is rejected, if it is.
pub open spec fn argument_problem(index: nat, arg: Seq<char>) -> Option<Seq<char>> {
    if byte_len(arg) > 4096 {
        Some(
            "Argument "@ + decimal(index) + " too long: "@ + decimal(byte_len(arg)) + " > "@
                + "4096"@,
        )
    } else if first_matching_pattern(dangerous_patterns(), arg, 0) is Some {
        Some("Argument "@ + decimal(index) + " contains dangerous pattern"@)
    } else if !(starts_with(arg, "-"@) && arg.len() > 1) && is_absolute_path(arg, true) {
        Some("Absolute paths not allowed: "@ + arg)
    } else if looks_like_ref(arg) && is_revision_expression(arg) && !some_pattern_accepts(
        safe_revision_patterns(),
        arg,
    ) {
        Some("Unsafe revision specifier: "@ + arg)
    } else {
        None
    }
}

/// The first argument, from position `k` on, that is rejected.
pub open spec fn first_rejected_argument(args: Seq<&str>, k: int) -> Option<int>
    decreases args.len() - k,
{
    if k < 0 || k >= args.len() {
        None
    } else if argument_problem(k as nat, args[k]@) is Some {
        Some(k)
    } else {
        first_rejected_argument(args, k + 1)
    }
}

/// Why a list of arguments is rejected, if it is.
pub open spec fn arguments_problem(args: Seq<&str>) -> Option<Seq<char>> {
    if args.len() > 100 {
        Some("Too many arguments: "@ + decimal(args.len()) + " > "@ + "100"@)
    } else {
        match first_rejected_argument(args, 0) {
            Some(i) => argument_problem(i as nat, args[i]@),
            None => None,
        }
    }
}

/// The first dangerous environment variable (in the order of the list)
/// that `env` defines.
pub open spec fn first_dangerous_env(env: Seq<(String, String)>, k: int) -> Option<Seq<char>>
    decreases dangerous_env_vars().len() - k,
{
    if k < 0 || k >= dangerous_env_vars().len() {
        None
    } else if exists|j: int| 0 <= j < env.len() && (#[trigger] env[j]).0@ == dangerous_env_vars()[k] {
        Some(dangerous_env_vars()[k])
    } else {
        first_dangerous_env(env, k + 1)
    }
}

/// The current time in nanoseconds since the Unix epoch
/// (`std::time::SystemTime::now`). Nothing is stated about the reading.
#[verifier::external_body]
pub(crate) fn clock_nanos() -> u64 {
    std::time::SystemTime::now()
        .duration_since(std::time::UNIX_EPOCH)
        .map(|d| d.as_nanos() as u64)
        .unwrap_or(0)
}

/// The canonical absolute form of a path (`std::path::Path::canonicalize`).
/// The result depends on the file system; nothing is stated about it.
#[verifier::external_body]
pub(crate) fn canonical_path(path: &str) -> Result<String, String> {
    match std::path::Path::new(path).canonicalize() {
        Ok(p) => Ok(p.to_string_lossy().into_owned()),
        Err(e) => Err(e.to_string()),
    }
}

/// Validates Git commands and their arguments before they run.
pub struct SecurityValidator {
    allowed_commands: Vec<String>,
    dangerous_patterns: Vec<String>,
    max_argument_length: usize,
    max_arguments_count: usize,
}

impl SecurityValidator {
    /// The well-formedness of a validator: the fixed lists, and patterns that compile.
    #[verifier::type_invariant]
    closed spec fn inv(self) -> bool {
        &&& self.allowed_commands@.map_values(|s: String| s@) == allowed_commands()
        &&& self.dangerous_patterns@.map_values(|s: String| s@) == dangerous_patterns()
        &&& forall|i: int|
            0 <= i < dangerous_patterns().len() ==> regex_compile_error(
                #[trigger] dangerous_patterns()[i],
            ) is None
        &&& self.max_argument_length == 4096
        &&& self.max_arguments_count == 100
    }

    /// Creates a validator; this fails when one of the dangerous patterns
    /// does not compile, with the regex error's text.
    pub fn new() -> (r: Result<SecurityValidator, String>)
        ensures
            r is Ok <==> forall|i: int|
                0 <= i < dangerous_patterns().len() ==> regex_compile_error(
                    #[trigger] dangerous_patterns()[i],
                ) is None,
    {
        let allowed = allowed_commands_vec();
        let patterns = dangerous_patterns_vec();
        let mut i: usize = 0;
        while i < patterns.len()
            invariant
                i <= patterns.len(),
                patterns@.map_values(|s: String| s@) == dangerous_patterns(),
                forall|j: int| 0 <= j < i ==> regex_compile_error(#[trigger] dangerous_patterns()[j]) is None,
            decreases patterns.len() - i,
        {
            assert(patterns@.map_values(|s: String| s@)[i as int] == patterns@[i as int]@);
            match regex_check(patterns[i].as_str()) {
                Some(msg) => {
                    return Err(msg);
                },
                None => {},
            }
            i = i + 1;
        }
        Ok(
            SecurityValidator {
                allowed_commands: allowed,
                dangerous_patterns: patterns,
                max_argument_length: 4096,
                max_arguments_count: 100,
            },
        )
    }

    /// Accepts exactly the whitelisted (read-only) Git commands.
    pub fn validate_command(&self, command: &str) -> (r: Result<(), String>)
        ensures
            r is Ok <==> allowed_commands().contains(command@),
            r matches Err(m) ==> m@ == "Command '"@ + command@ + "' is not allowed"@,
    {
        proof {
            use_type_invariant(self);
        }
        let mut i: usize = 0;
        while i < self.allowed_commands.len()
            invariant
                i <= self.allowed_commands.len(),
                self.allowed_commands@.map_values(|s: String| s@) == allowed_commands(),
                forall|j: int| 0 <= j < i ==> allowed_commands()[j] != command@,
            decreases self.allowed_commands.len() - i,
        {
            assert(self.allowed_commands@.map_values(|s: String| s@)[i as int]
                == self.allowed_commands@[i as int]@);
            if crate::text::string_eq(self.allowed_commands[i].as_str(), command) {
                assert(allowed_commands()[i as int] == command@);
                return Ok(());
            }
            i = i + 1;
        }
        Err(concat3("Command '", command, "' is not allowed"))
    }

    /// Validates a list of arguments: their number, and each argument in turn.
    pub fn validate_arguments(&self, args: &[&str]) -> (r: Result<(), String>)
        ensures
            r is Ok <==> arguments_problem(args@) is None,
            r matches Err(m) ==> Some(m@) == arguments_problem(args@),
    {
        proof {
            use_type_invariant(self);
        }
        if args.len() > self.max_arguments_count {
            let n = usize_to_string(args.len());
            let mut m = concat3("Too many arguments: ", n.as_str(), " > ");
            append_str(&mut m, "100");
            return Err(m);
        }
        let mut i: usize = 0;
        while i < args.len()
            invariant
                i <= args.len(),
                args@.len() <= 100,
                forall|j: int| 0 <= j < i ==> argument_problem(j as nat, #[trigger] args@[j]@) is None,
                self.inv(),
            decreases args.len() - i,
        {
            match self.validate_single_argument(i, args[i]) {
                Err(m) => {
                    proof {
                        lemma_first_rejected(args@, 0, i as int);
                    }
                    return Err(m);
                },
                Ok(()) => {},
            }
            i = i + 1;
        }
        proof {
            lemma_none_rejected(args@, 0);
        }
        Ok(())
    }

    /// Validates one argument: its length, the dangerous patterns, absolute
    /// paths, and revision syntax.
    fn validate_single_argument(&self, index: usize, arg: &str) -> (r: Result<(), String>)
        requires
            self.inv(),
        ensures
            r is Ok <==> argument_problem(index as nat, arg@) is None,
            r matches Err(m) ==> Some(m@) == argument_problem(index as nat, arg@),
    {
        if arg.len() > self.max_argument_length {
            let idx = usize_to_string(index);
            let n = usize_to_string(arg.len());
            let mut m = concat3("Argument ", idx.as_str(), " too long: ");
            append_str(&mut m, n.as_str());
            append_str(&mut m, " > ");
            append_str(&mut m, "4096");
            return Err(m);
        }
        let mut k: usize = 0;
        while k < self.dangerous_patterns.len()
            invariant
                k <= self.dangerous_patterns.len(),
                self.inv(),
                byte_len(arg@) <= 4096,
                first_matching_pattern(dangerous_patterns(), arg@, 0) == first_matching_pattern(
                    dangerous_patterns(),
                    arg@,
                    k as int,
                ),
            decreases self.dangerous_patterns.len() - k,
        {
            assert(self.dangerous_patterns@.map_values(|s: String| s@)[k as int]
                == self.dangerous_patterns@[k as int]@);
            assert(regex_compile_error(dangerous_patterns()[k as int]) is None);
            if regex_matches(self.dangerous_patterns[k].as_str(), arg) {
                let idx = usize_to_string(index);
                return Err(concat3("Argument ", idx.as_str(), " contains dangerous pattern"));
            }
            k = k + 1;
        }
        self.validate_path_argument(arg)?;
        self.validate_ref_argument(arg)?;
        Ok(())
    }

    /// Rejects absolute paths, unless the argument is an option; a drive
    /// path such as `C:\Windows` counts as absolute on every platform.
    fn validate_path_argument(&self, arg: &str) -> (r: Result<(), String>)
        ensures
            r is Ok <==> !(!(starts_with(arg@, "-"@) && arg@.len() > 1) && is_absolute_path(arg@, true)),
            r matches Err(m) ==> m@ == "Absolute paths not allowed: "@ + arg@,
    {
        if str_starts_with(arg, "-") && chars_of(arg).len() > 1 {
            return Ok(());
        }
        if is_absolute(arg, true) {
            return Err(concat("Absolute paths not allowed: ", arg));
        }
        Ok(())
    }

    /// Checks revision specifiers with range or ancestry syntax.
    fn validate_ref_argument(&self, arg: &str) -> (r: Result<(), String>)
        ensures
            r is Ok <==> !(looks_like_ref(arg@) && is_revision_expression(arg@)
                && !some_pattern_accepts(safe_revision_patterns(), arg@)),
            r matches Err(m) ==> m@ == "Unsafe revision specifier: "@ + arg@,
    {
        if !str_contains(arg, "refs/") && !str_starts_with(arg, "HEAD") && !str_all_hex(arg) {
            return Ok(());
        }
        if str_contains(arg, "..") || str_contains(arg, "@{") || str_has_char(arg, '~') {
            return self.validate_revision_specifier(arg);
        }
        Ok(())
    }

    /// Accepts the revision specifiers that match one of the safe patterns.
    fn validate_revision_specifier(&self, spec: &str) -> (r: Result<(), String>)
        ensures
            r is Ok <==> some_pattern_accepts(safe_revision_patterns(), spec@),
            r matches Err(m) ==> m@ == "Unsafe revision specifier: "@ + spec@,
    {
        let patterns = safe_revision_patterns_vec();
        let mut k: usize = 0;
        while k < patterns.len()
            invariant
                k <= patterns.len(),
                patterns@.map_values(|s: String| s@) == safe_revision_patterns(),
                forall|j: int|
                    0 <= j < k ==> !(regex_compile_error(#[trigger] safe_revision_patterns()[j])
                        is None && regex_is_match(safe_revision_patterns()[j], spec@)),
            decreases patterns.len() - k,
        {
            assert(patterns@.map_values(|s: String| s@)[k as int] == patterns@[k as int]@);
            if regex_check(patterns[k].as_str()).is_none() {
                if regex_matches(patterns[k].as_str(), spec) {
                    return Ok(());
                }
            }
            k = k + 1;
        }
        Err(concat("Unsafe revision specifier: ", spec))
    }

    /// Resolves a path to its canonical form.
    pub fn sanitize_path(&self, path: &str) -> (r: Result<String, String>)
        ensures
            r matches Err(m) ==> starts_with(m@, "Cannot canonicalize path: "@),
    {
        match canonical_path(path) {
            Ok(p) => Ok(p),
            Err(e) => Err(concat("Cannot canonicalize path: ", e.as_str())),
        }
    }

    /// Rejects environments that define a variable able to change which
    /// programs Git runs; the first such variable (in the list's order) is named.
    pub fn validate_environment(&self, env_vars: &Vec<(String, String)>) -> (r: Result<(), String>)
        ensures
            r is Ok <==> first_dangerous_env(env_vars@, 0) is None,
            r matches Err(m) ==> m@ == "Environment variable '"@ + first_dangerous_env(
                env_vars@,
                0,
            )->0 + "' not allowed"@,
    {
        let names = dangerous_env_vars_vec();
        let mut k: usize = 0;
        while k < names.len()
            invariant
                k <= names.len(),
                names@.map_values(|s: String| s@) == dangerous_env_vars(),
                first_dangerous_env(env_vars@, 0) == first_dangerous_env(env_vars@, k as int),
            decreases names.len() - k,
        {
            assert(names@.map_values(|s: String| s@)[k as int] == names@[k as int]@);
            let mut j: usize = 0;
            while j < env_vars.len()
                invariant
                    j <= env_vars.len(),
                    k < names.len(),
                    first_dangerous_env(env_vars@, 0) == first_dangerous_env(env_vars@, k as int),
                    names@.map_values(|s: String| s@) == dangerous_env_vars(),
                    names@[k as int]@ == dangerous_env_vars()[k as int],
                    forall|t: int| 0 <= t < j ==> (#[trigger] env_vars@[t]).0@ != dangerous_env_vars()[k as int],
                decreases env_vars.len() - j,
            {
                if crate::text::string_eq(env_vars[j].0.as_str(), names[k].as_str()) {
                    assert((env_vars@[j as int]).0@ == dangerous_env_vars()[k as int]);
                    return Err(concat3("Environment variable '", names[k].as_str(), "' not allowed"));
                }
                j = j + 1;
            }
            k = k + 1;
        }
        Ok(())
    }
}

proof fn lemma_first_rejected(args: Seq<&str>, k: int, i: int)
    requires
        0 <= k <= i < args.len(),
        forall|j: int| 0 <= j < i ==> argument_problem(j as nat, #[trigger] args[j]@) is None,
        argument_problem(i as nat, args[i]@) is Some,
    ensures
        first_rejected_argument(args, k) == Some(i),
    decreases i - k,
{
    if k < i {
        lemma_first_rejected(args, k + 1, i);
    }
}

proof fn lemma_none_rejected(args: Seq<&str>, k: int)
    requires
        0 <= k,
        forall|j: int| 0 <= j < args.len() ==> argument_problem(j as nat, #[trigger] args[j]@) is None,
    ensures
        first_rejected_argument(args, k) is None,
    decreases args.len() - k,
{
    if k < args.len() {
        lemma_none_rejected(args, k + 1);
    }
}

// ------------------------------------------------------------------
// Input sanitization
// ------------------------------------------------------------------

/// Characters that a sanitized reference name may not contain, in check order.
pub open spec fn sanitizer_ref_forbidden_chars() -> Seq<char> {
    seq![' ', '~', '^', ':', '?', '*', '[', '\\', '\x7f']
}

/// The result of sanitizing a search query.
pub open spec fn sanitize_search_spec(q: Seq<char>) -> Result<Seq<char>, Seq<char>> {
    if q.len() == 0 {
        Err("Search query cannot be empty"@)
    } else if byte_len(q) > 1000 {
        Err("Search query too long"@)
    } else {
        let s = remove_chars(q, true);
        if (s.contains('|') || contains_seq(s, ".*"@)) && regex_compile_error(s) is Some {
            Err("Invalid regex pattern: "@ + regex_compile_error(s)->0)
        } else {
            Ok(s)
        }
    }
}

/// The result of sanitizing a commit ID.
pub open spec fn sanitize_commit_id_spec(id: Seq<char>) -> Result<Seq<char>, Seq<char>> {
    if !all_hex(id) {
        Err("Invalid commit ID format"@)
    } else if byte_len(id) < 4 || byte_len(id) > 40 {
        Err("Commit ID length must be 4-40 characters"@)
    } else {
        Ok(ascii_lower_seq(id))
    }
}

/// The result of sanitizing a reference name.
pub open spec fn sanitize_ref_name_spec(name: Seq<char>) -> Result<Seq<char>, Seq<char>> {
    if name.len() == 0 || byte_len(name) > 255 {
        Err("Invalid reference name length"@)
    } else if first_listed_from(name, sanitizer_ref_forbidden_chars(), 0) is Some {
        Err(
            "Reference name contains invalid character: "@ + seq![
                first_listed_from(name, sanitizer_ref_forbidden_chars(), 0)->0,
            ],
        )
    } else if ref_name_breaks_rules(name) {
        Err("Reference name violates Git naming rules"@)
    } else {
        Ok(name)
    }
}

/// Backslashes turned into forward slashes.
pub open spec fn forward_slashes(s: Seq<char>) -> Seq<char> {
    Seq::new(s.len(), |i: int| if s[i] == '\\' { '/' } else { s[i] })
}

/// Forward slashes turned into backslashes.
pub open spec fn back_slashes(s: Seq<char>) -> Seq<char> {
    Seq::new(s.len(), |i: int| if s[i] == '/' { '\\' } else { s[i] })
}

/// The result of sanitizing a file path on Windows when `windows` holds,
/// elsewhere otherwise.
pub open spec fn sanitize_file_path_spec(path: Seq<char>, windows: bool) -> Result<Seq<char>, Seq<char>> {
    if byte_len(path) > 4096 {
        Err("File path too long"@)
    } else if contains_seq(path, "../"@) || contains_seq(path, "..\\"@) {
        Err("Path traversal not allowed"@)
    } else if is_absolute_path(path, windows) {
        Err("Absolute paths not allowed"@)
    } else if windows {
        Ok(back_slashes(path))
    } else {
        Ok(forward_slashes(path))
    }
}

/// Whether `s` is the sanitized form of the commit message `message`: the
/// message without control characters but newline and tab, cut to at most
/// 2048 bytes.
pub open spec fn sanitized_commit_text(message: Seq<char>, s: Seq<char>) -> bool {
    let clean = remove_chars(message, true);
    if encode_utf8(clean).len() > 2048 {
        s == clean.take(s.len() as int) && encode_utf8(s).len() == 2048
    } else {
        s == clean
    }
}

/// The longest sanitized commit message, in bytes.
pub open spec fn max_message_bytes() -> nat {
    2048
}

/// Whether cutting a message after `max_message_bytes()` bytes falls on a
/// character boundary (or the message is short enough not to be cut).
pub open spec fn cut_is_on_boundary(s: Seq<char>) -> bool {
    encode_utf8(s).len() > 2048 ==> exists|k: int| 0 <= k <= s.len() && prefix_bytes(s, k) == 2048
}

/// Sanitization of user input.
pub struct InputSanitizer;

impl InputSanitizer {
    /// Sanitizes a search query: bounds its length, removes control
    /// characters but tab and newline, and checks regex syntax where the
    /// query looks like a regex.
    pub fn sanitize_search_query(query: &str) -> (r: Result<String, String>)
        ensures
            result_view(r) == sanitize_search_spec(query@),
    {
        if query.is_empty() {
            return Err(owned("Search query cannot be empty"));
        }
        if query.len() > 1000 {
            return Err(owned("Search query too long"));
        }
        let sanitized = strip_controls(query, true);
        if str_has_char(sanitized.as_str(), '|') || str_contains(sanitized.as_str(), ".*") {
            match regex_check(sanitized.as_str()) {
                Some(e) => {
                    return Err(concat("Invalid regex pattern: ", e.as_str()));
                },
                None => {},
            }
        }
        Ok(sanitized)
    }

    /// Sanitizes a commit ID: hexadecimal, 4 to 40 characters, lower-cased.
    pub fn sanitize_commit_id(id: &str) -> (r: Result<String, String>)
        ensures
            result_view(r) == sanitize_commit_id_spec(id@),
    {
        if !str_all_hex(id) {
            return Err(owned("Invalid commit ID format"));
        }
        if id.len() < 4 || id.len() > 40 {
            return Err(owned("Commit ID length must be 4-40 characters"));
        }
        Ok(ascii_lowercase(id))
    }

    /// Sanitizes a branch or tag name according to Git's naming rules.
    pub fn sanitize_ref_name(name: &str) -> (r: Result<String, String>)
        ensures
            result_view(r) == sanitize_ref_name_spec(name@),
    {
        if name.is_empty() || name.len() > 255 {
            return Err(owned("Invalid reference name length"));
        }
        let v = chars_of(name);
        let forbidden: Vec<char> = vec![' ', '~', '^', ':', '?', '*', '[', '\\', '\x7f'];
        assert(forbidden@ == sanitizer_ref_forbidden_chars());
        match first_listed(&v, &forbidden) {
            Some(c) => {
                let cs = char_string(c);
                return Err(concat("Reference name contains invalid character: ", cs.as_str()));
            },
            None => {},
        }
        if str_starts_with(name, "-") || str_ends_with(name, ".") || str_contains(name, "..")
            || str_contains(name, "@{") {
            return Err(owned("Reference name violates Git naming rules"));
        }
        Ok(owned(name))
    }

    /// Sanitizes a file path on the platform the crate was built for (see
    /// [`target_is_windows`]).
    pub fn sanitize_file_path(path: &str) -> (r: Result<String, String>)
        ensures
            result_view(r) == sanitize_file_path_spec(path@, false) || result_view(r)
                == sanitize_file_path_spec(path@, true),
    {
        Self::sanitize_file_path_on(path, target_is_windows())
    }

    /// Sanitizes a file path: bounded length, no traversal, not absolute,
    /// with the separators made those of the platform (backslashes on
    /// Windows when `windows` holds, forward slashes elsewhere).
    pub fn sanitize_file_path_on(path: &str, windows: bool) -> (r: Result<String, String>)
        ensures
            result_view(r) == sanitize_file_path_spec(path@, windows),
    {
        if path.len() > 4096 {
            return Err(owned("File path too long"));
        }
        if str_contains(path, "../") || str_contains(path, "..\\") {
            return Err(owned("Path traversal not allowed"));
        }
        if is_absolute(path, windows) {
            return Err(owned("Absolute paths not allowed"));
        }
        let v = chars_of(path);
        let mut out: Vec<char> = Vec::new();
        let mut i: usize = 0;
        while i < v.len()
            invariant
                i <= v.len(),
                v@ == path@,
                windows ==> out@ == back_slashes(v@.take(i as int)),
                !windows ==> out@ == forward_slashes(v@.take(i as int)),
            decreases v.len() - i,
        {
            let c = v[i];
            if windows {
                out.push(if c == '/' { '\\' } else { c });
            } else {
                out.push(if c == '\\' { '/' } else { c });
            }
            i = i + 1;
            assert(out@ =~= back_slashes(v@.take(i as int)) || !windows);
            assert(out@ =~= forward_slashes(v@.take(i as int)) || windows);
        }
        assert(v@.take(v.len() as int) == v@);
        Ok(string_of(&out))
    }

    /// Sanitizes a commit message: control characters but newline and tab
    /// are removed, and the result is cut to at most 2048 bytes.
    pub fn sanitize_commit_message(message: &str) -> (r: Result<String, String>)
        requires
            cut_is_on_boundary(remove_chars(message@, true)),
        ensures
            r matches Ok(s) && sanitized_commit_text(message@, s@),
    {
        let sanitized = strip_controls(message, true);
        let v = chars_of(sanitized.as_str());
        let ghost clean = remove_chars(message@, true);
        let mut bytes: usize = 0;
        let mut k: usize = 0;
        while k < v.len() && bytes < 2048
            invariant
                k <= v.len(),
                v@ == clean,
                bytes == prefix_bytes(clean, k as int),
                bytes <= 2048,
                cut_is_on_boundary(clean),
                forall|j: int| 0 <= j < k ==> prefix_bytes(clean, j) < 2048,
            decreases v.len() - k,
        {
            proof {
                lemma_prefix_bytes_step(clean, k as int);
            }
            let w = utf8_width(v[k]);
            if bytes + w > 2048 {
                proof {
                    lemma_no_exact_cut(clean, k as int);
                }
                assert(false);
            }
            bytes = bytes + w;
            k = k + 1;
        }
        if k == v.len() && bytes < 2048 {
            assert(clean.take(k as int) =~= clean);
            return Ok(sanitized);
        }
        if k == v.len() {
            assert(clean.take(k as int) =~= clean);
            return Ok(sanitized);
        }
        // bytes == 2048 and k < v.len(): the message is longer than the limit
        proof {
            lemma_prefix_bytes_monotone(clean, k as int, clean.len() as int);
            lemma_prefix_bytes_step(clean, k as int);
            assert(clean.take(clean.len() as int) =~= clean);
        }
        let mut out: Vec<char> = Vec::new();
        let mut i: usize = 0;
        while i < k
            invariant
                i <= k < v.len(),
                v@ == clean,
                out@ == clean.take(i as int),
            decreases k - i,
        {
            out.push(v[i]);
            i = i + 1;
            assert(out@ =~= clean.take(i as int));
        }
        let s = string_of(&out);
        assert(clean.take(k as int).len() == k);
        assert(s@ =~= clean.take(s@.len() as int));
        Ok(s)
    }
}

proof fn lemma_prefix_bytes_monotone(s: Seq<char>, a: int, b: int)
    requires
        0 <= a <= b <= s.len(),
    ensures
        prefix_bytes(s, a) <= prefix_bytes(s, b),
        a < b ==> prefix_bytes(s, a) < prefix_bytes(s, b),
    decreases b - a,
{
    if a < b {
        lemma_prefix_bytes_monotone(s, a, b - 1);
        lemma_prefix_bytes_step(s, b - 1);
        vstd::utf8::char_is_scalar(s[b - 1]);
    }
}

proof fn lemma_no_exact_cut(s: Seq<char>, k: int)
    requires
        0 <= k < s.len(),
        prefix_bytes(s, k) < 2048,
        prefix_bytes(s, k + 1) > 2048,
        forall|j: int| 0 <= j < k ==> prefix_bytes(s, j) < 2048,
    ensures
        !cut_is_on_boundary(s),
{
    lemma_prefix_bytes_monotone(s, k + 1, s.len() as int);
    assert(s.take(s.len() as int) =~= s);
    assert forall|j: int| 0 <= j <= s.len() implies prefix_bytes(s, j) != 2048 by {
        if j <= k {
            if j < k {
            } else {
            }
        } else {
            lemma_prefix_bytes_monotone(s, k + 1, j);
        }
    }
}

// ------------------------------------------------------------------
// Rate limiting
// ------------------------------------------------------------------

/// How long a command stays in the rate window, in nanoseconds.
pub open spec fn rate_window_ns() -> u64 {
    1_000_000_000
}

/// The timestamps younger than one second at time `now`.
pub open spec fn recent(history: Seq<u64>, now: u64) -> Seq<u64>
    decreases history.len(),
{
    if history.len() == 0 {
        history
    } else {
        let rest = recent(history.drop_last(), now);
        let t = history.last();
        if (if now >= t { now - t } else { 0 }) < rate_window_ns() {
            rest.push(t)
        } else {
            rest
        }
    }
}

/// Keeping only the recent timestamps never lengthens a history.
pub proof fn lemma_recent_len(history: Seq<u64>, now: u64)
    ensures
        recent(history, now).len() <= history.len(),
    decreases history.len(),
{
    if history.len() > 0 {
        lemma_recent_len(history.drop_last(), now);
    }
}

/// The history after one admission check at time `now` with the
/// per-second limit `m`, while fewer commands than the limit run (see
/// [`RateLimiter::check_rate_limit_at`]): the recent timestamps, and `now`
/// when the command is admitted.
pub open spec fn rate_step(h: Seq<u64>, m: nat, now: u64) -> Seq<u64> {
    if recent(h, now).len() < m {
        recent(h, now).push(now)
    } else {
        recent(h, now)
    }
}

/// The history after admission checks at the times `ts`, in turn, from an
/// empty history.
pub open spec fn rate_run(m: nat, ts: Seq<u64>) -> Seq<u64>
    decreases ts.len(),
{
    if ts.len() == 0 {
        Seq::empty()
    } else {
        rate_step(rate_run(m, ts.drop_last()), m, ts.last())
    }
}

/// Whether the check at `ts[k]` admits its command.
pub open spec fn rate_admitted(m: nat, ts: Seq<u64>, k: int) -> bool {
    recent(rate_run(m, ts.take(k)), ts[k]).len() < m
}

/// How many of the checks at positions `i..j` admit their command.
pub open spec fn admitted_between(m: nat, ts: Seq<u64>, i: int, j: int) -> nat
    decreases j - i,
{
    if j <= i {
        0
    } else {
        admitted_between(m, ts, i, j - 1) + if rate_admitted(m, ts, j - 1) {
            1nat
        } else {
            0nat
        }
    }
}

/// How many of the checks before position `k` admitted a command younger
/// than one second at time `c`.
pub open spec fn admitted_recent(m: nat, ts: Seq<u64>, k: int, c: u64) -> nat
    decreases k,
{
    if k <= 0 {
        0
    } else {
        admitted_recent(m, ts, k - 1, c) + if rate_admitted(m, ts, k - 1) && c >= ts[k - 1] && c - ts[k - 1]
            < rate_window_ns() {
            1nat
        } else {
            0nat
        }
    }
}

/// Whether times never go backwards.
pub open spec fn nondecreasing(ts: Seq<u64>) -> bool {
    forall|i: int, j: int| 0 <= i <= j < ts.len() ==> ts[i] <= ts[j]
}

proof fn lemma_recent_bounded(h: Seq<u64>, now: u64, c: u64)
    requires
        forall|i: int| 0 <= i < h.len() ==> h[i] <= c,
    ensures
        forall|i: int| 0 <= i < recent(h, now).len() ==> recent(h, now)[i] <= c,
    decreases h.len(),
{
    if h.len() > 0 {
        let rest = h.drop_last();
        assert forall|i: int| 0 <= i < rest.len() implies rest[i] <= c by {
            assert(rest[i] == h[i]);
        }
        lemma_recent_bounded(rest, now, c);
        let r = recent(rest, now);
        assert forall|i: int| 0 <= i < recent(h, now).len() implies recent(h, now)[i] <= c by {
            if i < r.len() {
                assert(recent(h, now)[i] == r[i]);
            }
        }
    }
}

/// Keeping the timestamps recent at `c1`, then at a later `c2`, keeps those
/// recent at `c2`, when no timestamp is after `c1`.
proof fn lemma_recent_twice(h: Seq<u64>, c1: u64, c2: u64)
    requires
        c1 <= c2,
        forall|i: int| 0 <= i < h.len() ==> h[i] <= c1,
    ensures
        recent(recent(h, c1), c2) == recent(h, c2),
    decreases h.len(),
{
    if h.len() > 0 {
        let rest = h.drop_last();
        assert forall|i: int| 0 <= i < rest.len() implies rest[i] <= c1 by {
            assert(rest[i] == h[i]);
        }
        lemma_recent_twice(rest, c1, c2);
        let t = h.last();
        if c1 - t < rate_window_ns() {
            assert(recent(h, c1) == recent(rest, c1).push(t));
            assert(recent(h, c1).drop_last() =~= recent(rest, c1));
        }
    }
}

proof fn lemma_run_bounded(m: nat, ts: Seq<u64>)
    requires
        nondecreasing(ts),
    ensures
        ts.len() > 0 ==> forall|i: int| 0 <= i < rate_run(m, ts).len() ==> rate_run(m, ts)[i] <= ts.last(),
        rate_run(m, ts).len() <= m,
    decreases ts.len(),
{
    if ts.len() > 0 {
        let p = ts.drop_last();
        assert(nondecreasing(p)) by {
            assert forall|i: int, j: int| 0 <= i <= j < p.len() implies p[i] <= p[j] by {
                assert(p[i] == ts[i] && p[j] == ts[j]);
            }
        }
        lemma_run_bounded(m, p);
        let h = rate_run(m, p);
        if p.len() > 0 {
            assert(p.last() == ts[ts.len() - 2]);
            assert(forall|i: int| 0 <= i < h.len() ==> h[i] <= ts.last());
        }
        lemma_recent_bounded(h, ts.last(), ts.last());
        lemma_recent_len(h, ts.last());
    }
}

/// The timestamps a run from an empty history holds, once kept recent at
/// `c`, are those of the admitted checks younger than one second at `c`.
proof fn lemma_run_counts(m: nat, ts: Seq<u64>, c: u64)
    requires
        nondecreasing(ts),
        ts.len() > 0 ==> ts.last() <= c,
    ensures
        recent(rate_run(m, ts), c).len() == admitted_recent(m, ts, ts.len() as int, c),
    decreases ts.len(),
{
    if ts.len() > 0 {
        let k = ts.len() - 1;
        let p = ts.drop_last();
        assert(nondecreasing(p)) by {
            assert forall|i: int, j: int| 0 <= i <= j < p.len() implies p[i] <= p[j] by {
                assert(p[i] == ts[i] && p[j] == ts[j]);
            }
        }
        assert(p =~= ts.take(k));
        let h = rate_run(m, p);
        let now = ts.last();
        lemma_run_bounded(m, p);
        if p.len() > 0 {
            assert(p.last() == ts[k - 1]);
        }
        lemma_run_counts(m, p, c);
        lemma_recent_twice(h, now, c);
        assert forall|a: int| 0 <= a < k implies admitted_recent(m, p, a, c) == admitted_recent(m, ts, a, c) by {
            lemma_prefix_counts(m, ts, a, c);
        }
        lemma_prefix_counts(m, ts, k, c);
        if recent(h, now).len() < m {
            assert(recent(h, now).push(now).drop_last() =~= recent(h, now));
        }
    }
}

/// Counting over a prefix of the times counts the same checks.
proof fn lemma_prefix_counts(m: nat, ts: Seq<u64>, a: int, c: u64)
    requires
        0 <= a < ts.len(),
    ensures
        admitted_recent(m, ts.drop_last(), a, c) == admitted_recent(m, ts, a, c),
    decreases a,
{
    if a > 0 {
        lemma_prefix_counts(m, ts, a - 1, c);
        assert(ts.drop_last().take(a - 1) =~= ts.take(a - 1));
        assert(ts.drop_last()[a - 1] == ts[a - 1]);
    }
}

/// Counting over the first `n` times counts the same checks.
proof fn lemma_take_counts(m: nat, ts: Seq<u64>, n: int, a: int, c: u64)
    requires
        0 <= a <= n <= ts.len(),
    ensures
        admitted_recent(m, ts.take(n), a, c) == admitted_recent(m, ts, a, c),
    decreases a,
{
    if a > 0 {
        lemma_take_counts(m, ts, n, a - 1, c);
        assert(ts.take(n).take(a - 1) =~= ts.take(a - 1));
        assert(ts.take(n)[a - 1] == ts[a - 1]);
    }
}

proof fn lemma_between_within(m: nat, ts: Seq<u64>, i: int, k: int, c: u64)
    requires
        nondecreasing(ts),
        0 <= i,
        k < ts.len(),
        forall|a: int| i <= a < k ==> c >= ts[a] && c - ts[a] < rate_window_ns(),
    ensures
        admitted_between(m, ts, i, k) <= admitted_recent(m, ts, k, c),
    decreases k - i,
{
    if k > i {
        lemma_between_within(m, ts, i, k - 1, c);
    }
}

/// At most `m` commands are admitted within any stretch of time shorter
/// than one second: of the checks made, in turn and from an empty history,
/// at the nondecreasing times `ts` while fewer commands than the limit run,
/// those from position `i` to position `j` admit at most the per-second
/// limit `m` when `ts[j]` is less than one second after `ts[i]`.
pub proof fn law_rate_window(m: nat, ts: Seq<u64>, i: int, j: int)
    requires
        nondecreasing(ts),
        0 <= i <= j < ts.len(),
        ts[j] - ts[i] < rate_window_ns(),
    ensures
        admitted_between(m, ts, i, j + 1) <= m,
{
    let c = ts[j];
    assert forall|a: int| i <= a < j + 1 implies c >= ts[a] && c - ts[a] < rate_window_ns() by {
        assert(ts[i] <= ts[a]);
    }
    if j + 1 < ts.len() {
        lemma_between_within(m, ts, i, j + 1, c);
    } else {
        lemma_between_within_last(m, ts, i, c);
    }
    let p = ts.take(j + 1);
    assert(nondecreasing(p)) by {
        assert forall|x: int, y: int| 0 <= x <= y < p.len() implies p[x] <= p[y] by {
            assert(p[x] == ts[x] && p[y] == ts[y]);
        }
    }
    assert(p.last() == c);
    lemma_run_counts(m, p, c);
    lemma_take_counts(m, ts, j + 1, j + 1, c);
    lemma_run_bounded(m, p);
    lemma_recent_len(rate_run(m, p), c);
}

proof fn lemma_between_within_last(m: nat, ts: Seq<u64>, i: int, c: u64)
    requires
        nondecreasing(ts),
        0 <= i <= ts.len(),
        forall|a: int| i <= a < ts.len() ==> c >= ts[a] && c - ts[a] < rate_window_ns(),
    ensures
        admitted_between(m, ts, i, ts.len() as int) <= admitted_recent(m, ts, ts.len() as int, c),
{
    let k = ts.len() as int;
    if k > i {
        lemma_between_within(m, ts, i, k - 1, c);
    }
}

/// At most the per-second limit of commands are admitted by a limiter
/// within any stretch of time shorter than one second: of the checks a
/// limiter made while fewer commands than the limit ran (see
/// [`RateLimiter::checks`]), at nondecreasing times, those from position
/// `i` to position `j` admit at most the limit when the `j`-th is less than
/// one second after the `i`-th.
pub proof fn law_limiter_window(l: RateLimiter, i: int, j: int)
    requires
        nondecreasing(l.checks()),
        0 <= i <= j < l.checks().len(),
        l.checks()[j] - l.checks()[i] < rate_window_ns(),
    ensures
        admitted_between(l.per_second() as nat, l.checks(), i, j + 1) <= l.per_second(),
{
    law_rate_window(l.per_second() as nat, l.checks(), i, j);
}

/// Limits how many Git commands run per second and at the same time.
pub struct RateLimiter {
    max_commands_per_second: u32,
    max_concurrent_commands: u32,
    command_history: Vec<u64>,
    active_commands: u32,
    checks: Ghost<Seq<u64>>,
}

impl RateLimiter {
    /// The history never holds more entries than the per-second limit, and
    /// it is what the admission checks made so far leave (see
    /// [`rate_run`]).
    #[verifier::type_invariant]
    closed spec fn inv(self) -> bool {
        &&& self.command_history@.len() <= self.max_commands_per_second
        &&& self.command_history@ == rate_run(self.max_commands_per_second as nat, self.checks@)
    }

    /// The times of the admission checks made while fewer commands than
    /// the limit ran, oldest first.
    pub closed spec fn checks(&self) -> Seq<u64> {
        self.checks@
    }

    /// Commands allowed per second.
    pub closed spec fn per_second(&self) -> u32 {
        self.max_commands_per_second
    }

    /// Commands allowed at the same time.
    pub closed spec fn concurrency(&self) -> u32 {
        self.max_concurrent_commands
    }

    /// The start times of the commands admitted recently.
    pub closed spec fn history(&self) -> Seq<u64> {
        self.command_history@
    }

    /// The number of commands running.
    pub closed spec fn active(&self) -> u32 {
        self.active_commands
    }

    /// A limiter with no history and no running command.
    pub fn new(max_commands_per_second: u32, max_concurrent: u32) -> (r: RateLimiter)
        ensures
            r.per_second() == max_commands_per_second,
            r.concurrency() == max_concurrent,
            r.history() == Seq::<u64>::empty(),
            r.checks() == Seq::<u64>::empty(),
            r.active() == 0,
    {
        RateLimiter {
            max_commands_per_second,
            max_concurrent_commands: max_concurrent,
            command_history: Vec::new(),
            active_commands: 0,
            checks: Ghost(Seq::empty()),
        }
    }

    /// Checks whether a command may start now, and records it when it may.
    pub fn check_rate_limit(&mut self) -> (r: Result<(), String>)
        ensures
            final(self).per_second() == old(self).per_second(),
            final(self).concurrency() == old(self).concurrency(),
            final(self).active() == old(self).active(),
            old(self).active() >= old(self).concurrency() ==> (r matches Err(m) && m@
                == "Too many concurrent commands"@ && final(self).history() == old(self).history()),
            old(self).active() < old(self).concurrency() && old(self).history().len() < old(self).per_second()
                ==> r is Ok,
            r matches Err(m) ==> m@ == "Too many concurrent commands"@ || m@ == "Rate limit exceeded"@,
            r is Ok ==> final(self).history().len() <= final(self).per_second(),
            r is Ok ==> exists|now: u64| final(self).history() == recent(old(self).history(), now).push(now),
            old(self).active() >= old(self).concurrency() ==> final(self).checks() == old(self).checks(),
            old(self).active() < old(self).concurrency() ==> exists|now: u64| {
                &&& final(self).checks() == old(self).checks().push(now)
                &&& (r is Ok <==> rate_admitted(old(self).per_second() as nat, final(self).checks(), old(self).checks().len() as int))
            },
    {
        let now = clock_nanos();
        proof {
            lemma_recent_len(old(self).history(), now);
        }
        let r = self.check_rate_limit_at(now);
        proof {
            if r is Ok {
                assert(final(self).history() == recent(old(self).history(), now).push(now));
            }
        }
        r
    }

    /// Checks whether a command may start at time `now` (nanoseconds):
    /// fewer commands than the limit may be running, and fewer than the
    /// per-second limit may have started within the last second.
    pub fn check_rate_limit_at(&mut self, now: u64) -> (r: Result<(), String>)
        ensures
            final(self).per_second() == old(self).per_second(),
            final(self).concurrency() == old(self).concurrency(),
            final(self).active() == old(self).active(),
            old(self).active() >= old(self).concurrency() ==> (r matches Err(m) && m@
                == "Too many concurrent commands"@ && final(self).history() == old(self).history()),
            old(self).active() < old(self).concurrency() && recent(old(self).history(), now).len()
                >= old(self).per_second() ==> (r matches Err(m) && m@ == "Rate limit exceeded"@
                && final(self).history() == recent(old(self).history(), now)),
            old(self).active() < old(self).concurrency() && recent(old(self).history(), now).len()
                < old(self).per_second() ==> r is Ok && final(self).history() == recent(
                old(self).history(),
                now,
            ).push(now),
            old(self).active() < old(self).concurrency() ==> final(self).history() == rate_step(
                old(self).history(),
                old(self).per_second() as nat,
                now,
            ),
            old(self).active() >= old(self).concurrency() ==> final(self).checks() == old(self).checks(),
            old(self).active() < old(self).concurrency() ==> final(self).checks() == old(self).checks().push(now)
                && (r is Ok <==> rate_admitted(
                old(self).per_second() as nat,
                final(self).checks(),
                old(self).checks().len() as int,
            )),
    {
        proof {
            use_type_invariant(&*self);
        }
        if self.active_commands >= self.max_concurrent_commands {
            return Err(owned("Too many concurrent commands"));
        }
        let mut kept: Vec<u64> = Vec::new();
        let mut i: usize = 0;
        while i < self.command_history.len()
            invariant
                i <= self.command_history.len(),
                kept@ == recent(self.command_history@.take(i as int), now),
                kept@.len() <= i,
            decreases self.command_history.len() - i,
        {
            let t = self.command_history[i];
            let age = if now >= t { now - t } else { 0 };
            assert(self.command_history@.take((i + 1) as int).drop_last() == self.command_history@.take(i as int));
            if age < 1_000_000_000 {
                kept.push(t);
            }
            i = i + 1;
        }
        assert(self.command_history@.take(self.command_history.len() as int) == self.command_history@);
        let ghost before = self.checks@;
        let ghost after = before.push(now);
        proof {
            assert(after.drop_last() =~= before);
            assert(after.take(before.len() as int) =~= before);
        }
        if kept.len() >= self.max_commands_per_second as usize {
            *self = RateLimiter {
                max_commands_per_second: self.max_commands_per_second,
                max_concurrent_commands: self.max_concurrent_commands,
                command_history: kept,
                active_commands: self.active_commands,
                checks: Ghost(after),
            };
            return Err(owned("Rate limit exceeded"));
        }
        kept.push(now);
        *self = RateLimiter {
            max_commands_per_second: self.max_commands_per_second,
            max_concurrent_commands: self.max_concurrent_commands,
            command_history: kept,
            active_commands: self.active_commands,
            checks: Ghost(after),
        };
        Ok(())
    }

    /// Counts one more running command (wrapping, as an atomic add does).
    pub fn start_command(&mut self)
        ensures
            final(self).active() == if old(self).active() == u32::MAX {
                0
            } else {
                (old(self).active() + 1) as u32
            },
            final(self).history() == old(self).history(),
            final(self).per_second() == old(self).per_second(),
            final(self).concurrency() == old(self).concurrency(),
    {
        proof {
            use_type_invariant(&*self);
        }
        self.active_commands = if self.active_commands == u32::MAX {
            0
        } else {
            self.active_commands + 1
        };
    }

    /// Counts one less running command (wrapping, as an atomic subtract does).
    pub fn end_command(&mut self)
        ensures
            final(self).active() == if old(self).active() == 0 {
                u32::MAX
            } else {
                (old(self).active() - 1) as u32
            },
            final(self).history() == old(self).history(),
            final(self).per_second() == old(self).per_second(),
            final(self).concurrency() == old(self).concurrency(),
    {
        proof {
            use_type_invariant(&*self);
        }
        self.active_commands = if self.active_commands == 0 {
            u32::MAX
        } else {
            self.active_commands - 1
        };
    }
}

/// Law: pruning keeps only entries of the history, so a limiter never
/// admits more commands within one second than its per-second limit.
pub proof fn recent_is_bounded(history: Seq<u64>, now: u64)
    ensures
        recent(history, now).len() <= history.len(),
        forall|i: int|
            0 <= i < recent(history, now).len() ==> (if now >= #[trigger] recent(history, now)[i] {
                now - recent(history, now)[i]
            } else {
                0
            }) < rate_window_ns(),
    decreases history.len(),
{
    if history.len() > 0 {
        recent_is_bounded(history.drop_last(), now);
    }
}

} // verus!
