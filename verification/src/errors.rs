//! Error classification, input validation and resource bookkeeping.

use vstd::prelude::*;
use crate::text::{
    all_hex, append_str, byte_len, char_is_control, char_string, chars_of, concat, concat3,
    concat4, contains_seq, control_char_debug, control_debug, decimal, ends_with, first_listed,
    first_listed_from, i64_to_string, is_control, owned, signed_decimal, starts_with, str_all_hex,
    str_contains, str_ends_with, str_has_char, str_starts_with, u64_to_string, usize_to_string,
};
use crate::patterns::{regex_check, regex_compile_error};

verus! {

#[verifier::external_type_specification]
#[verifier::external_body]
pub struct ExGit2Error(git2::Error);

#[verifier::external_type_specification]
#[verifier::external_body]
pub struct ExIoError(std::io::Error);

#[verifier::external_type_specification]
#[verifier::external_body]
pub struct ExJsonError(serde_json::Error);

#[verifier::external_type_specification]
#[verifier::external_body]
pub struct ExFromUtf8Error(std::string::FromUtf8Error);

#[verifier::external_type_specification]
#[verifier::external_body]
pub struct ExRegexError(regex::Error);

/// Errors of Git operations.
#[derive(Debug)]
pub enum GitError {
    Repository { message: String },
    Security { violation: String },
    CommandExecution { command: String, reason: String },
    InvalidInput { input: String, reason: String },
    FileSystem { path: String, reason: String },
    Network { operation: String, reason: String },
    Configuration { setting: String, reason: String },
    PermissionDenied { resource: String, reason: String },
    ResourceLimit { resource: String, limit: String },
    Timeout { operation: String, timeout_ms: u64 },
    RateLimit { operation: String },
    Git2(git2::Error),
    Io(std::io::Error),
    Serialization(serde_json::Error),
    Utf8(std::string::FromUtf8Error),
    Regex(regex::Error),
}

/// Severity of an error, from least to most severe.
#[derive(Debug, Clone, Copy, PartialEq, Eq, PartialOrd, Ord, Structural)]
pub enum ErrorSeverity {
    Low,
    Medium,
    High,
    Critical,
}

impl ErrorSeverity {
    /// The upper-case label of the severity ("LOW", "MEDIUM", "HIGH", "CRITICAL").
    pub open spec fn label_spec(self) -> Seq<char> {
        match self {
            ErrorSeverity::Low => "LOW"@,
            ErrorSeverity::Medium => "MEDIUM"@,
            ErrorSeverity::High => "HIGH"@,
            ErrorSeverity::Critical => "CRITICAL"@,
        }
    }

    /// The text the severity is displayed as.
    pub fn label(&self) -> (r: String)
        ensures
            r@ == self.label_spec(),
    {
        match self {
            ErrorSeverity::Low => owned("LOW"),
            ErrorSeverity::Medium => owned("MEDIUM"),
            ErrorSeverity::High => owned("HIGH"),
            ErrorSeverity::Critical => owned("CRITICAL"),
        }
    }
}

/// Text of an error raised by git2 (its `Display` output).
#[verifier::external_body]
pub(crate) fn git2_error_text(e: &git2::Error) -> String {
    e.to_string()
}

/// Text of an I/O error (its `Display` output).
#[verifier::external_body]
pub(crate) fn io_error_text(e: &std::io::Error) -> String {
    e.to_string()
}

/// Text of a JSON error (its `Display` output).
#[verifier::external_body]
pub(crate) fn json_error_text(e: &serde_json::Error) -> String {
    e.to_string()
}

/// Text of a UTF-8 conversion error (its `Display` output).
#[verifier::external_body]
pub(crate) fn utf8_error_text(e: &std::string::FromUtf8Error) -> String {
    e.to_string()
}

/// Text of a regex error (its `Display` output).
#[verifier::external_body]
pub(crate) fn regex_error_text(e: &regex::Error) -> String {
    e.to_string()
}

impl GitError {
    /// Whether a retry may succeed.
    pub open spec fn recoverable(&self) -> bool {
        match self {
            GitError::Security { .. } => false,
            GitError::PermissionDenied { .. } => false,
            GitError::InvalidInput { .. } => false,
            GitError::Timeout { .. } => true,
            GitError::RateLimit { .. } => true,
            GitError::Network { .. } => true,
            GitError::CommandExecution { .. } => true,
            GitError::Repository { .. } => true,
            GitError::FileSystem { .. } => false,
            GitError::Configuration { .. } => false,
            GitError::ResourceLimit { .. } => true,
            GitError::Git2(_) => true,
            GitError::Io(_) => true,
            GitError::Serialization(_) => false,
            GitError::Utf8(_) => false,
            GitError::Regex(_) => false,
        }
    }

    /// The severity of each kind of error.
    pub open spec fn severity_spec(&self) -> ErrorSeverity {
        match self {
            GitError::Security { .. } => ErrorSeverity::Critical,
            GitError::PermissionDenied { .. } => ErrorSeverity::High,
            GitError::InvalidInput { .. } => ErrorSeverity::Medium,
            GitError::Timeout { .. } => ErrorSeverity::Low,
            GitError::RateLimit { .. } => ErrorSeverity::Low,
            GitError::Network { .. } => ErrorSeverity::Medium,
            GitError::CommandExecution { .. } => ErrorSeverity::Medium,
            GitError::Repository { .. } => ErrorSeverity::Medium,
            GitError::FileSystem { .. } => ErrorSeverity::High,
            GitError::Configuration { .. } => ErrorSeverity::Medium,
            GitError::ResourceLimit { .. } => ErrorSeverity::Medium,
            GitError::Git2(_) => ErrorSeverity::Medium,
            GitError::Io(_) => ErrorSeverity::Medium,
            GitError::Serialization(_) => ErrorSeverity::Low,
            GitError::Utf8(_) => ErrorSeverity::Low,
            GitError::Regex(_) => ErrorSeverity::Low,
        }
    }

    /// The displayed text of the errors that carry no outside error.
    pub open spec fn message_spec(&self) -> Seq<char> {
        match self {
            GitError::Repository { message } => "Repository error: "@ + message@,
            GitError::Security { violation } => "Security violation: "@ + violation@,
            GitError::CommandExecution { command, reason } =>
                "Command execution failed: "@ + command@ + " - "@ + reason@,
            GitError::InvalidInput { input, reason } =>
                "Invalid input: "@ + input@ + " - "@ + reason@,
            GitError::FileSystem { path, reason } =>
                "File system error: "@ + path@ + " - "@ + reason@,
            GitError::Network { operation, reason } =>
                "Network error: "@ + operation@ + " - "@ + reason@,
            GitError::Configuration { setting, reason } =>
                "Configuration error: "@ + setting@ + " - "@ + reason@,
            GitError::PermissionDenied { resource, reason } =>
                "Permission denied: "@ + resource@ + " - "@ + reason@,
            GitError::ResourceLimit { resource, limit } =>
                "Resource limit exceeded: "@ + resource@ + " - "@ + limit@,
            GitError::Timeout { operation, timeout_ms } =>
                "Timeout: "@ + operation@ + " took longer than "@ + decimal(*timeout_ms as nat) + "ms"@,
            GitError::RateLimit { operation } => "Rate limit exceeded: "@ + operation@,
            GitError::Git2(_) => "Git internal error: "@,
            GitError::Io(_) => "IO error: "@,
            GitError::Serialization(_) => "Serialization error: "@,
            GitError::Utf8(_) => "UTF-8 conversion error: "@,
            GitError::Regex(_) => "Regex error: "@,
        }
    }

    /// Whether the error wraps an error of an outside library.
    pub open spec fn wraps_outside(&self) -> bool {
        self is Git2 || self is Io || self is Serialization || self is Utf8 || self is Regex
    }

    /// Creates a security violation error.
    pub fn security(violation: &str) -> (r: GitError)
        ensures
            r matches GitError::Security { violation: v } && v@ == violation@,
    {
        GitError::Security { violation: owned(violation) }
    }

    /// Creates an invalid input error.
    pub fn invalid_input(input: &str, reason: &str) -> (r: GitError)
        ensures
            r matches GitError::InvalidInput { input: i, reason: m } && i@ == input@ && m@ == reason@,
    {
        GitError::InvalidInput { input: owned(input), reason: owned(reason) }
    }

    /// Creates a command execution error.
    pub fn command_failed(command: &str, reason: &str) -> (r: GitError)
        ensures
            r matches GitError::CommandExecution { command: c, reason: m } && c@ == command@ && m@
                == reason@,
    {
        GitError::CommandExecution { command: owned(command), reason: owned(reason) }
    }

    /// Creates a resource limit error.
    pub fn resource_limit(resource: &str, limit: &str) -> (r: GitError)
        ensures
            r matches GitError::ResourceLimit { resource: x, limit: l } && x@ == resource@ && l@
                == limit@,
    {
        GitError::ResourceLimit { resource: owned(resource), limit: owned(limit) }
    }

    /// Creates a timeout error.
    pub fn timeout(operation: &str, timeout_ms: u64) -> (r: GitError)
        ensures
            r matches GitError::Timeout { operation: o, timeout_ms: t } && o@ == operation@ && t
                == timeout_ms,
    {
        GitError::Timeout { operation: owned(operation), timeout_ms }
    }

    /// Whether the error is recoverable.
    pub fn is_recoverable(&self) -> (r: bool)
        ensures
            r == self.recoverable(),
    {
        match self {
            GitError::Security { .. } => false,
            GitError::PermissionDenied { .. } => false,
            GitError::InvalidInput { .. } => false,
            GitError::Timeout { .. } => true,
            GitError::RateLimit { .. } => true,
            GitError::Network { .. } => true,
            GitError::CommandExecution { .. } => true,
            GitError::Repository { .. } => true,
            GitError::FileSystem { .. } => false,
            GitError::Configuration { .. } => false,
            GitError::ResourceLimit { .. } => true,
            GitError::Git2(_) => true,
            GitError::Io(_) => true,
            GitError::Serialization(_) => false,
            GitError::Utf8(_) => false,
            GitError::Regex(_) => false,
        }
    }

    /// The severity level of the error.
    pub fn severity(&self) -> (r: ErrorSeverity)
        ensures
            r == self.severity_spec(),
    {
        match self {
            GitError::Security { .. } => ErrorSeverity::Critical,
            GitError::PermissionDenied { .. } => ErrorSeverity::High,
            GitError::InvalidInput { .. } => ErrorSeverity::Medium,
            GitError::Timeout { .. } => ErrorSeverity::Low,
            GitError::RateLimit { .. } => ErrorSeverity::Low,
            GitError::Network { .. } => ErrorSeverity::Medium,
            GitError::CommandExecution { .. } => ErrorSeverity::Medium,
            GitError::Repository { .. } => ErrorSeverity::Medium,
            GitError::FileSystem { .. } => ErrorSeverity::High,
            GitError::Configuration { .. } => ErrorSeverity::Medium,
            GitError::ResourceLimit { .. } => ErrorSeverity::Medium,
            GitError::Git2(_) => ErrorSeverity::Medium,
            GitError::Io(_) => ErrorSeverity::Medium,
            GitError::Serialization(_) => ErrorSeverity::Low,
            GitError::Utf8(_) => ErrorSeverity::Low,
            GitError::Regex(_) => ErrorSeverity::Low,
        }
    }

    /// The displayed text of the error. For errors that wrap an outside
    /// error, the text is the prefix followed by the outside error's text.
    pub fn message(&self) -> (r: String)
        ensures
            !self.wraps_outside() ==> r@ == self.message_spec(),
            self.wraps_outside() ==> starts_with(r@, self.message_spec()),
    {
        match self {
            GitError::Repository { message } => concat("Repository error: ", message.as_str()),
            GitError::Security { violation } => concat("Security violation: ", violation.as_str()),
            GitError::CommandExecution { command, reason } => concat4(
                "Command execution failed: ",
                command.as_str(),
                " - ",
                reason.as_str(),
            ),
            GitError::InvalidInput { input, reason } => concat4(
                "Invalid input: ",
                input.as_str(),
                " - ",
                reason.as_str(),
            ),
            GitError::FileSystem { path, reason } => concat4(
                "File system error: ",
                path.as_str(),
                " - ",
                reason.as_str(),
            ),
            GitError::Network { operation, reason } => concat4(
                "Network error: ",
                operation.as_str(),
                " - ",
                reason.as_str(),
            ),
            GitError::Configuration { setting, reason } => concat4(
                "Configuration error: ",
                setting.as_str(),
                " - ",
                reason.as_str(),
            ),
            GitError::PermissionDenied { resource, reason } => concat4(
                "Permission denied: ",
                resource.as_str(),
                " - ",
                reason.as_str(),
            ),
            GitError::ResourceLimit { resource, limit } => concat4(
                "Resource limit exceeded: ",
                resource.as_str(),
                " - ",
                limit.as_str(),
            ),
            GitError::Timeout { operation, timeout_ms } => {
                let ms = u64_to_string(*timeout_ms);
                let mut r = concat3("Timeout: ", operation.as_str(), " took longer than ");
                append_str(&mut r, ms.as_str());
                append_str(&mut r, "ms");
                r
            },
            GitError::RateLimit { operation } => concat("Rate limit exceeded: ", operation.as_str()),
            GitError::Git2(e) => {
                let t = git2_error_text(e);
                let r = concat("Git internal error: ", t.as_str());
                assert(r@.subrange(0, "Git internal error: "@.len() as int) =~= "Git internal error: "@);
                r
            },
            GitError::Io(e) => {
                let t = io_error_text(e);
                let r = concat("IO error: ", t.as_str());
                assert(r@.subrange(0, "IO error: "@.len() as int) =~= "IO error: "@);
                r
            },
            GitError::Serialization(e) => {
                let t = json_error_text(e);
                let r = concat("Serialization error: ", t.as_str());
                assert(r@.subrange(0, "Serialization error: "@.len() as int) =~= "Serialization error: "@);
                r
            },
            GitError::Utf8(e) => {
                let t = utf8_error_text(e);
                let r = concat("UTF-8 conversion error: ", t.as_str());
                assert(r@.subrange(0, "UTF-8 conversion error: "@.len() as int) =~= "UTF-8 conversion error: "@);
                r
            },
            GitError::Regex(e) => {
                let t = regex_error_text(e);
                let r = concat("Regex error: ", t.as_str());
                assert(r@.subrange(0, "Regex error: "@.len() as int) =~= "Regex error: "@);
                r
            },
        }
    }
}

// ------------------------------------------------------------------
// Input validation
// ------------------------------------------------------------------

/// Characters that a reference name may not contain, in the order they are checked.
pub open spec fn ref_forbidden_chars() -> Seq<char> {
    seq![' ', '~', '^', ':', '?', '*', '[', '\\', '\x7f', '\n', '\r', '\t']
}

/// Characters that a command argument may not contain, in the order they are checked.
pub open spec fn arg_forbidden_chars() -> Seq<char> {
    seq!['|', '&', ';', '`', '$', '<', '>', '\n', '\r', '\0']
}

/// Whether a path is absolute: starts with `/`, or, on Windows, names a
/// drive (`C:...`).
pub open spec fn is_absolute_path(s: Seq<char>, windows: bool) -> bool {
    starts_with(s, "/"@) || (windows && byte_len(s) > 2 && s.len() > 1 && s[1] == ':')
}

/// Why a commit ID is rejected, if it is.
pub open spec fn commit_id_problem(id: Seq<char>) -> Option<Seq<char>> {
    if id == "HEAD"@ {
        None
    } else if id.len() == 0 {
        Some("Commit ID cannot be empty"@)
    } else if byte_len(id) < 4 {
        Some("Commit ID too short (minimum 4 characters)"@)
    } else if byte_len(id) > 40 {
        Some("Commit ID too long (maximum 40 characters)"@)
    } else if !all_hex(id) {
        Some("Commit ID contains non-hexadecimal characters"@)
    } else {
        None
    }
}

/// Whether a reference name breaks the structural naming rules of Git.
pub open spec fn ref_name_breaks_rules(name: Seq<char>) -> bool {
    starts_with(name, "-"@) || ends_with(name, "."@) || contains_seq(name, ".."@)
        || contains_seq(name, "@{"@)
}

/// Why a reference name is rejected, if it is.
pub open spec fn ref_name_problem(name: Seq<char>) -> Option<Seq<char>> {
    if name.len() == 0 {
        Some("Reference name cannot be empty"@)
    } else if byte_len(name) > 255 {
        Some("Reference name too long (maximum 255 characters)"@)
    } else if first_listed_from(name, ref_forbidden_chars(), 0) is Some {
        Some(
            "Reference name contains invalid character: "@ + seq![
                first_listed_from(name, ref_forbidden_chars(), 0)->0,
            ],
        )
    } else if ref_name_breaks_rules(name) {
        Some("Reference name violates Git naming rules"@)
    } else {
        None
    }
}

/// Why a commit message is rejected, if it is.
pub open spec fn commit_message_problem(message: Seq<char>) -> Option<Seq<char>> {
    if message.len() == 0 {
        Some("Commit message cannot be empty"@)
    } else if byte_len(message) > 8192 {
        Some("Commit message too long (maximum 8192 characters)"@)
    } else if message.contains('\0') {
        Some("Commit message contains null bytes"@)
    } else {
        None
    }
}

/// A control character other than tab and newline.
pub open spec fn is_forbidden_query_char(c: char) -> bool {
    is_control(c) && c != '\t' && c != '\n'
}

/// The first character of `s` from position `k` on that a search query may not contain.
pub open spec fn first_forbidden_query_char(s: Seq<char>, k: int) -> Option<char>
    decreases s.len() - k,
{
    if k < 0 || k >= s.len() {
        None
    } else if is_forbidden_query_char(s[k]) {
        Some(s[k])
    } else {
        first_forbidden_query_char(s, k + 1)
    }
}

/// Whether a query is treated as a regular expression.
pub open spec fn query_looks_like_regex(q: Seq<char>) -> bool {
    q.contains('|') || contains_seq(q, ".*"@) || q.contains('\\')
}

/// Why a search query is rejected, if it is.
pub open spec fn search_query_problem(q: Seq<char>) -> Option<Seq<char>> {
    if q.len() == 0 {
        Some("Search query cannot be empty"@)
    } else if byte_len(q) > 1000 {
        Some("Search query too long (maximum 1000 characters)"@)
    } else if first_forbidden_query_char(q, 0) is Some {
        Some(
            "Search query contains control character: "@ + control_debug(
                first_forbidden_query_char(q, 0)->0,
            ),
        )
    } else if query_looks_like_regex(q) && regex_compile_error(q) is Some {
        Some("Invalid regex pattern: "@ + regex_compile_error(q)->0)
    } else {
        None
    }
}

/// How a file path is rejected, if it is.
pub enum PathVerdict {
    Fine,
    Invalid(Seq<char>),
    Insecure(Seq<char>),
}

/// The verdict on a file path.
pub open spec fn file_path_verdict(path: Seq<char>, windows: bool) -> PathVerdict {
    if path.len() == 0 {
        PathVerdict::Invalid("File path cannot be empty"@)
    } else if byte_len(path) > 4096 {
        PathVerdict::Invalid("File path too long (maximum 4096 characters)"@)
    } else if contains_seq(path, "../"@) || contains_seq(path, "..\\"@) {
        PathVerdict::Insecure("Path traversal detected in file path"@)
    } else if is_absolute_path(path, windows) {
        PathVerdict::Insecure("Absolute paths not allowed"@)
    } else if path.contains('\0') {
        PathVerdict::Invalid("File path contains null byte"@)
    } else {
        PathVerdict::Fine
    }
}

/// Whether `r` is what validating the file path `path` gives on a platform
/// that is Windows when `windows` holds.
pub open spec fn file_path_checked(r: Result<(), GitError>, path: Seq<char>, windows: bool) -> bool {
    &&& (r is Ok <==> file_path_verdict(path, windows) is Fine)
    &&& (file_path_verdict(path, windows) matches PathVerdict::Invalid(m) ==> r matches Err(e)
        && is_invalid_input(e, path, m))
    &&& (file_path_verdict(path, windows) matches PathVerdict::Insecure(m) ==> r matches Err(e)
        && is_security(e, m))
}

/// Whether a path's second character is `:`, as in `C:...`: the only paths
/// whose checks differ between Windows and other platforms.
pub open spec fn has_drive_colon(s: Seq<char>) -> bool {
    s.len() > 1 && s[1] == ':'
}

/// Whether `e` is exactly the invalid-input error for `input` with `reason`.
pub open spec fn is_invalid_input(e: GitError, input: Seq<char>, reason: Seq<char>) -> bool {
    e matches GitError::InvalidInput { input: i, reason: m } && i@ == input && m@ == reason
}

/// Whether `e` is exactly the security error with `violation`.
pub open spec fn is_security(e: GitError, violation: Seq<char>) -> bool {
    e matches GitError::Security { violation: v } && v@ == violation
}

/// Checks of user input.
pub struct InputValidator;

impl InputValidator {
    /// Validates the format and length of a commit ID.
    pub fn validate_commit_id(id: &str) -> (r: Result<(), GitError>)
        ensures
            r is Ok <==> commit_id_problem(id@) is None,
            r matches Err(e) ==> is_invalid_input(e, id@, commit_id_problem(id@)->0),
    {
        if crate::text::string_eq(id, "HEAD") {
            return Ok(());
        }
        if id.is_empty() {
            return Err(GitError::invalid_input(id, "Commit ID cannot be empty"));
        }
        if id.len() < 4 {
            return Err(GitError::invalid_input(id, "Commit ID too short (minimum 4 characters)"));
        }
        if id.len() > 40 {
            return Err(GitError::invalid_input(id, "Commit ID too long (maximum 40 characters)"));
        }
        if !str_all_hex(id) {
            return Err(
                GitError::invalid_input(id, "Commit ID contains non-hexadecimal characters"),
            );
        }
        Ok(())
    }

    /// Validates a reference (branch or tag) name.
    pub fn validate_ref_name(name: &str) -> (r: Result<(), GitError>)
        ensures
            r is Ok <==> ref_name_problem(name@) is None,
            r matches Err(e) ==> is_invalid_input(e, name@, ref_name_problem(name@)->0),
    {
        if name.is_empty() {
            return Err(GitError::invalid_input(name, "Reference name cannot be empty"));
        }
        if name.len() > 255 {
            return Err(
                GitError::invalid_input(name, "Reference name too long (maximum 255 characters)"),
            );
        }
        let v = chars_of(name);
        let forbidden: Vec<char> = vec![' ', '~', '^', ':', '?', '*', '[', '\\', '\x7f', '\n', '\r', '\t'];
        assert(forbidden@ == ref_forbidden_chars());
        match first_listed(&v, &forbidden) {
            Some(c) => {
                let cs = char_string(c);
                let reason = concat("Reference name contains invalid character: ", cs.as_str());
                return Err(GitError::invalid_input(name, reason.as_str()));
            },
            None => {},
        }
        if str_starts_with(name, "-") || str_ends_with(name, ".") || str_contains(name, "..")
            || str_contains(name, "@{") {
            return Err(GitError::invalid_input(name, "Reference name violates Git naming rules"));
        }
        Ok(())
    }

    /// Validates a commit message.
    pub fn validate_commit_message(message: &str) -> (r: Result<(), GitError>)
        ensures
            r is Ok <==> commit_message_problem(message@) is None,
            r matches Err(e) ==> is_invalid_input(e, message@, commit_message_problem(message@)->0),
    {
        if message.is_empty() {
            return Err(GitError::invalid_input(message, "Commit message cannot be empty"));
        }
        if message.len() > 8192 {
            return Err(
                GitError::invalid_input(
                    message,
                    "Commit message too long (maximum 8192 characters)",
                ),
            );
        }
        if str_has_char(message, '\0') {
            return Err(GitError::invalid_input(message, "Commit message contains null bytes"));
        }
        Ok(())
    }

    /// Validates a search query.
    pub fn validate_search_query(query: &str) -> (r: Result<(), GitError>)
        ensures
            r is Ok <==> search_query_problem(query@) is None,
            r matches Err(e) ==> is_invalid_input(e, query@, search_query_problem(query@)->0),
    {
        if query.is_empty() {
            return Err(GitError::invalid_input(query, "Search query cannot be empty"));
        }
        if query.len() > 1000 {
            return Err(
                GitError::invalid_input(query, "Search query too long (maximum 1000 characters)"),
            );
        }
        let v = chars_of(query);
        let mut k: usize = 0;
        while k < v.len()
            invariant
                k <= v.len(),
                v@ == query@,
                query@.len() != 0,
                byte_len(query@) <= 1000,
                first_forbidden_query_char(v@, 0) == first_forbidden_query_char(v@, k as int),
            decreases v.len() - k,
        {
            let c = v[k];
            if char_is_control(c) && c != '\t' && c != '\n' {
                let d = control_char_debug(c);
                let reason = concat("Search query contains control character: ", d.as_str());
                assert(first_forbidden_query_char(v@, k as int) == Some(c));
                return Err(GitError::invalid_input(query, reason.as_str()));
            }
            k = k + 1;
        }
        if str_has_char(query, '|') || str_contains(query, ".*") || str_has_char(query, '\\') {
            match regex_check(query) {
                Some(msg) => {
                    let reason = concat("Invalid regex pattern: ", msg.as_str());
                    return Err(GitError::invalid_input(query, reason.as_str()));
                },
                None => {},
            }
        }
        Ok(())
    }

    /// Validates a file path given by the user, on the platform the crate
    /// was built for (see [`target_is_windows`]).
    pub fn validate_file_path(path: &str) -> (r: Result<(), GitError>)
        ensures
            file_path_checked(r, path@, false) || file_path_checked(r, path@, true),
            !has_drive_colon(path@) ==> file_path_checked(r, path@, false),
    {
        Self::validate_file_path_on(path, target_is_windows())
    }

    /// Validates a file path given by the user, on Windows when `windows`
    /// holds: not empty, at most 4096 bytes, no traversal, not absolute, no
    /// NUL character.
    pub fn validate_file_path_on(path: &str, windows: bool) -> (r: Result<(), GitError>)
        ensures
            file_path_checked(r, path@, windows),
    {
        if path.is_empty() {
            return Err(GitError::invalid_input(path, "File path cannot be empty"));
        }
        if path.len() > 4096 {
            return Err(
                GitError::invalid_input(path, "File path too long (maximum 4096 characters)"),
            );
        }
        if str_contains(path, "../") || str_contains(path, "..\\") {
            return Err(GitError::security("Path traversal detected in file path"));
        }
        if is_absolute(path, windows) {
            return Err(GitError::security("Absolute paths not allowed"));
        }
        if str_has_char(path, '\0') {
            return Err(GitError::invalid_input(path, "File path contains null byte"));
        }
        Ok(())
    }

    /// Validates the arguments of a command.
    pub fn validate_command_args(args: &[&str]) -> (r: Result<(), GitError>)
        ensures
            r is Ok <==> command_args_problem(args@) is None,
            r matches Err(e) ==> command_args_problem(args@) matches Some(p) && p.matches(e),
    {
        if args.len() > 100 {
            return Err(GitError::resource_limit("command arguments", "100"));
        }
        let mut i: usize = 0;
        while i < args.len()
            invariant
                i <= args.len(),
                args@.len() <= 100,
                forall|j: int| 0 <= j < i ==> arg_problem(#[trigger] args@[j]@) is None,
            decreases args.len() - i,
        {
            let arg: &str = args[i];
            if arg.len() > 4096 {
                let idx = usize_to_string(i);
                let label = concat3("arg[", idx.as_str(), "]");
                proof {
                    lemma_first_arg_problem(args@, i as int);
                }
                return Err(
                    GitError::invalid_input(
                        label.as_str(),
                        "Argument too long (maximum 4096 characters)",
                    ),
                );
            }
            let v = chars_of(arg);
            let forbidden: Vec<char> = vec!['|', '&', ';', '`', '$', '<', '>', '\n', '\r', '\0'];
            assert(forbidden@ == arg_forbidden_chars());
            match first_listed(&v, &forbidden) {
                Some(c) => {
                    let cs = char_string(c);
                    let violation = concat3("Dangerous character '", cs.as_str(), "' in argument");
                    proof {
                        lemma_first_arg_problem(args@, i as int);
                    }
                    return Err(GitError::security(violation.as_str()));
                },
                None => {},
            }
            i = i + 1;
        }
        proof {
            lemma_no_arg_problem(args@);
        }
        Ok(())
    }

    /// Validates that a number lies within bounds.
    pub fn validate_numeric_input(value: i64, min: i64, max: i64, name: &str) -> (r: Result<
        (),
        GitError,
    >)
        ensures
            r is Ok <==> min <= value <= max,
            r matches Err(e) ==> is_invalid_input(
                e,
                signed_decimal(value as int),
                name@ + " must be between "@ + signed_decimal(min as int) + " and "@
                    + signed_decimal(max as int),
            ),
    {
        if value < min || value > max {
            let v = i64_to_string(value);
            let lo = i64_to_string(min);
            let hi = i64_to_string(max);
            let mut reason = concat3(name, " must be between ", lo.as_str());
            append_str(&mut reason, " and ");
            append_str(&mut reason, hi.as_str());
            return Err(GitError::invalid_input(v.as_str(), reason.as_str()));
        }
        Ok(())
    }
}

/// The separator of path components on the platform the crate was built
/// for (`std::path::MAIN_SEPARATOR`): `\` on Windows, `/` elsewhere. Which
/// one depends on the build target.
#[verifier::external_body]
pub(crate) fn main_separator() -> (r: char)
    ensures
        r == '/' || r == '\\',
{
    std::path::MAIN_SEPARATOR
}

/// Whether the crate was built for Windows, whose paths are separated by `\`.
pub fn target_is_windows() -> bool {
    main_separator() == '\\'
}

/// Whether a path is absolute, in the sense of [`is_absolute_path`].
pub fn is_absolute(path: &str, windows: bool) -> (r: bool)
    ensures
        r == is_absolute_path(path@, windows),
{
    if str_starts_with(path, "/") {
        return true;
    }
    if windows && path.len() > 2 {
        let v = chars_of(path);
        if v.len() > 1 && v[1] == ':' {
            return true;
        }
    }
    false
}


/// A problem found with one command argument.
pub enum ArgProblem {
    TooLong,
    Dangerous(char),
}

/// The problem with one argument, if any.
pub open spec fn arg_problem(arg: Seq<char>) -> Option<ArgProblem> {
    if byte_len(arg) > 4096 {
        Some(ArgProblem::TooLong)
    } else if first_listed_from(arg, arg_forbidden_chars(), 0) is Some {
        Some(ArgProblem::Dangerous(first_listed_from(arg, arg_forbidden_chars(), 0)->0))
    } else {
        None
    }
}

/// The first argument, from position `k` on, that has a problem.
pub open spec fn first_bad_arg(args: Seq<&str>, k: int) -> Option<int>
    decreases args.len() - k,
{
    if k < 0 || k >= args.len() {
        None
    } else if arg_problem(args[k]@) is Some {
        Some(k)
    } else {
        first_bad_arg(args, k + 1)
    }
}

/// The problem with a list of command arguments, if any.
pub enum ArgsProblem {
    TooMany,
    TooLong(int),
    Dangerous(char),
}

impl ArgsProblem {
    /// Whether `e` is the error reported for this problem.
    pub open spec fn matches(self, e: GitError) -> bool {
        match self {
            ArgsProblem::TooMany => e matches GitError::ResourceLimit { resource, limit } && resource@
                == "command arguments"@ && limit@ == "100"@,
            ArgsProblem::TooLong(i) => is_invalid_input(
                e,
                "arg["@ + decimal(i as nat) + "]"@,
                "Argument too long (maximum 4096 characters)"@,
            ),
            ArgsProblem::Dangerous(c) => is_security(
                e,
                "Dangerous character '"@ + seq![c] + "' in argument"@,
            ),
        }
    }
}

/// The problem with a list of command arguments, if any.
pub open spec fn command_args_problem(args: Seq<&str>) -> Option<ArgsProblem> {
    if args.len() > 100 {
        Some(ArgsProblem::TooMany)
    } else {
        match first_bad_arg(args, 0) {
            None => None,
            Some(i) => match arg_problem(args[i]@) {
                Some(ArgProblem::TooLong) => Some(ArgsProblem::TooLong(i)),
                Some(ArgProblem::Dangerous(c)) => Some(ArgsProblem::Dangerous(c)),
                None => None,
            },
        }
    }
}

proof fn lemma_first_bad_arg_skip(args: Seq<&str>, k: int, i: int)
    requires
        0 <= k <= i < args.len(),
        forall|j: int| 0 <= j < i ==> arg_problem(#[trigger] args[j]@) is None,
        arg_problem(args[i]@) is Some,
    ensures
        first_bad_arg(args, k) == Some(i),
    decreases i - k,
{
    if k < i {
        lemma_first_bad_arg_skip(args, k + 1, i);
    }
}

proof fn lemma_first_arg_problem(args: Seq<&str>, i: int)
    requires
        0 <= i < args.len(),
        forall|j: int| 0 <= j < i ==> arg_problem(#[trigger] args[j]@) is None,
        arg_problem(args[i]@) is Some,
    ensures
        first_bad_arg(args, 0) == Some(i),
{
    lemma_first_bad_arg_skip(args, 0, i);
}

proof fn lemma_no_bad_arg_from(args: Seq<&str>, k: int)
    requires
        0 <= k,
        forall|j: int| 0 <= j < args.len() ==> arg_problem(#[trigger] args[j]@) is None,
    ensures
        first_bad_arg(args, k) is None,
    decreases args.len() - k,
{
    if k < args.len() {
        lemma_no_bad_arg_from(args, k + 1);
    }
}

proof fn lemma_no_arg_problem(args: Seq<&str>)
    requires
        forall|j: int| 0 <= j < args.len() ==> arg_problem(#[trigger] args[j]@) is None,
    ensures
        first_bad_arg(args, 0) is None,
{
    lemma_no_bad_arg_from(args, 0);
}

// ------------------------------------------------------------------
// Recovery and reporting
// ------------------------------------------------------------------

/// The message shown to users for each kind of error. For errors that wrap
/// an outside error, this is the prefix that precedes the outside error's text.
pub open spec fn friendly_message_spec(e: GitError) -> Seq<char> {
    match e {
        GitError::Security { .. } => "Security error: This operation is not allowed for safety reasons."@,
        GitError::PermissionDenied { resource, .. } => "Permission denied: Cannot access "@ + resource@
            + ". Please check file permissions."@,
        GitError::InvalidInput { .. } => "Invalid input: Please check your input and try again."@,
        GitError::Timeout { operation, .. } => "Operation '"@ + operation@ + "' timed out. Please try again."@,
        GitError::RateLimit { .. } => "Too many requests. Please wait a moment and try again."@,
        GitError::Network { .. } => "Network error: Please check your connection and try again."@,
        GitError::CommandExecution { command, .. } => "Command '"@ + command@
            + "' failed. Please check the repository state."@,
        GitError::Repository { .. } => "Repository error: The Git repository may be corrupted or inaccessible."@,
        GitError::FileSystem { .. } => "File system error: Please check file permissions and disk space."@,
        GitError::Configuration { .. } => "Configuration error: Please check your Git configuration."@,
        GitError::ResourceLimit { resource, .. } => "Resource limit exceeded for "@ + resource@
            + ". Please reduce the operation scope."@,
        GitError::Git2(_) => "Git error: "@,
        GitError::Io(_) => "File operation failed: "@,
        _ => "An unexpected error occurred. Please try again."@,
    }
}

/// A decision taken after a failed attempt.
#[derive(Debug, PartialEq, Eq, Structural)]
pub enum RetryDecision {
    /// Wait `delay_ms` milliseconds, then try again.
    Retry { delay_ms: u64 },
    /// Stop and report the last error.
    GiveUp,
}

/// The state of a retry loop with exponential backoff.
pub struct RetrySchedule {
    pub max_attempts: u32,
    pub attempts_made: u32,
    pub next_delay_ms: u64,
}

/// The longest wait between two attempts after the first retry.
pub open spec fn max_backoff_ms() -> u64 {
    5000
}

impl RetrySchedule {
    /// A schedule that has made no attempt yet.
    pub fn new(max_attempts: u32, base_delay_ms: u64) -> (s: RetrySchedule)
        ensures
            s.max_attempts == max_attempts,
            s.attempts_made == 0,
            s.next_delay_ms == base_delay_ms,
    {
        RetrySchedule { max_attempts, attempts_made: 0, next_delay_ms: base_delay_ms }
    }

    /// Counts one more attempt.
    pub fn record_attempt(&mut self)
        requires
            old(self).attempts_made < u32::MAX,
        ensures
            final(self).attempts_made == old(self).attempts_made + 1,
            final(self).max_attempts == old(self).max_attempts,
            final(self).next_delay_ms == old(self).next_delay_ms,
    {
        self.attempts_made = self.attempts_made + 1;
    }

    /// Decides what follows a failed attempt: give up once the attempts are
    /// used up or the error cannot be recovered from, otherwise wait and
    /// double the next wait, capped at five seconds.
    pub fn after_failure(&mut self, recoverable: bool) -> (d: RetryDecision)
        requires
            old(self).next_delay_ms <= u64::MAX / 2,
        ensures
            final(self).max_attempts == old(self).max_attempts,
            final(self).attempts_made == old(self).attempts_made,
            (old(self).attempts_made >= old(self).max_attempts || !recoverable) ==> (d
                == RetryDecision::GiveUp && final(self).next_delay_ms == old(self).next_delay_ms),
            (old(self).attempts_made < old(self).max_attempts && recoverable) ==> (d
                == RetryDecision::Retry { delay_ms: old(self).next_delay_ms }
                && final(self).next_delay_ms == if old(self).next_delay_ms * 2 < 5000 {
                old(self).next_delay_ms * 2
            } else {
                5000
            }),
    {
        if self.attempts_made >= self.max_attempts || !recoverable {
            return RetryDecision::GiveUp;
        }
        let delay = self.next_delay_ms;
        let doubled = delay * 2;
        self.next_delay_ms = if doubled < 5000 { doubled } else { 5000 };
        RetryDecision::Retry { delay_ms: delay }
    }
}

/// Law: a schedule retries only while attempts remain, and every wait
/// after the first retry is at most five seconds.
pub proof fn retry_waits_are_bounded(before: RetrySchedule, after: RetrySchedule, d: RetryDecision)
    requires
        before.next_delay_ms <= u64::MAX / 2,
        after.max_attempts == before.max_attempts,
        after.attempts_made == before.attempts_made,
        d is Retry ==> before.attempts_made < before.max_attempts,
        d is Retry ==> after.next_delay_ms == if before.next_delay_ms * 2 < 5000 {
            before.next_delay_ms * 2
        } else {
            5000
        },
    ensures
        d is Retry ==> after.next_delay_ms <= max_backoff_ms(),
        d is Retry ==> after.attempts_made < after.max_attempts,
{
}

/// Recovery helpers.
pub struct ErrorRecovery;

impl ErrorRecovery {
    /// Whether an error requires an immediate abort (high or critical severity).
    pub fn should_abort(error: &GitError) -> (r: bool)
        ensures
            r == (error.severity_spec() == ErrorSeverity::Critical || error.severity_spec()
                == ErrorSeverity::High),
    {
        match error.severity() {
            ErrorSeverity::Critical => true,
            ErrorSeverity::High => true,
            _ => false,
        }
    }

    /// A message for users that explains the error.
    pub fn user_friendly_message(error: &GitError) -> (r: String)
        ensures
            !(error is Git2 || error is Io) ==> r@ == friendly_message_spec(*error),
            (error is Git2 || error is Io) ==> starts_with(r@, friendly_message_spec(*error)),
    {
        match error {
            GitError::Security { .. } => owned(
                "Security error: This operation is not allowed for safety reasons.",
            ),
            GitError::PermissionDenied { resource, .. } => concat3(
                "Permission denied: Cannot access ",
                resource.as_str(),
                ". Please check file permissions.",
            ),
            GitError::InvalidInput { .. } => owned("Invalid input: Please check your input and try again."),
            GitError::Timeout { operation, .. } => concat3(
                "Operation '",
                operation.as_str(),
                "' timed out. Please try again.",
            ),
            GitError::RateLimit { .. } => owned("Too many requests. Please wait a moment and try again."),
            GitError::Network { .. } => owned("Network error: Please check your connection and try again."),
            GitError::CommandExecution { command, .. } => concat3(
                "Command '",
                command.as_str(),
                "' failed. Please check the repository state.",
            ),
            GitError::Repository { .. } => owned(
                "Repository error: The Git repository may be corrupted or inaccessible.",
            ),
            GitError::FileSystem { .. } => owned(
                "File system error: Please check file permissions and disk space.",
            ),
            GitError::Configuration { .. } => owned(
                "Configuration error: Please check your Git configuration.",
            ),
            GitError::ResourceLimit { resource, .. } => concat3(
                "Resource limit exceeded for ",
                resource.as_str(),
                ". Please reduce the operation scope.",
            ),
            GitError::Git2(e) => {
                let t = git2_error_text(e);
                let r = concat("Git error: ", t.as_str());
                assert(r@.subrange(0, "Git error: "@.len() as int) =~= "Git error: "@);
                r
            },
            GitError::Io(e) => {
                let t = io_error_text(e);
                let r = concat("File operation failed: ", t.as_str());
                assert(r@.subrange(0, "File operation failed: "@.len() as int)
                    =~= "File operation failed: "@);
                r
            },
            _ => owned("An unexpected error occurred. Please try again."),
        }
    }
}

/// `true` or `false` as text.
pub open spec fn bool_text(b: bool) -> Seq<char> {
    if b { "true"@ } else { "false"@ }
}

/// The debugging report for an error shown as `error_text`.
pub open spec fn error_report_spec(
    context: Seq<char>,
    error_text: Seq<char>,
    severity: ErrorSeverity,
    recoverable: bool,
    timestamp: Seq<char>,
) -> Seq<char> {
    "Error Report\nContext: "@ + context + "\nError: "@ + error_text + "\nSeverity: "@
        + severity.label_spec() + "\nRecoverable: "@ + bool_text(recoverable) + "\nTimestamp: "@
        + timestamp + "\n"@
}

/// The current UTC time as `YYYY-MM-DD HH:MM:SS UTC` (`chrono::Utc::now`).
/// The result depends on the clock; nothing is stated about it.
#[verifier::external_body]
pub(crate) fn utc_timestamp_text() -> String {
    chrono::Utc::now().format("%Y-%m-%d %H:%M:%S UTC").to_string()
}

/// Reporting helpers.
pub struct ErrorReporter;

impl ErrorReporter {
    /// Builds an error report for debugging, stamped with the current time.
    pub fn create_error_report(error: &GitError, context: &str) -> (r: String)
        ensures
            !error.wraps_outside() ==> exists|ts: Seq<char>|
                r@ == error_report_spec(
                    context@,
                    error.message_spec(),
                    error.severity_spec(),
                    error.recoverable(),
                    ts,
                ),
    {
        let ts = utc_timestamp_text();
        Self::format_error_report(error, context, ts.as_str())
    }

    /// Builds an error report with the given timestamp text.
    pub fn format_error_report(error: &GitError, context: &str, timestamp: &str) -> (r: String)
        ensures
            !error.wraps_outside() ==> r@ == error_report_spec(
                context@,
                error.message_spec(),
                error.severity_spec(),
                error.recoverable(),
                timestamp@,
            ),
    {
        let text = error.message();
        let sev = error.severity().label();
        let rec = if error.is_recoverable() { owned("true") } else { owned("false") };
        let mut r = concat3("Error Report\nContext: ", context, "\nError: ");
        append_str(&mut r, text.as_str());
        append_str(&mut r, "\nSeverity: ");
        append_str(&mut r, sev.as_str());
        append_str(&mut r, "\nRecoverable: ");
        append_str(&mut r, rec.as_str());
        append_str(&mut r, "\nTimestamp: ");
        append_str(&mut r, timestamp);
        append_str(&mut r, "\n");
        r
    }
}

// ------------------------------------------------------------------
// Resource monitoring
// ------------------------------------------------------------------

/// Limits on concurrent operations and memory use.
pub struct ResourceMonitor {
    max_memory_mb: u64,
    max_open_files: u32,
    max_concurrent_operations: u32,
    current_operations: u32,
}

/// The token of one tracked operation; hand it back to
/// [`ResourceMonitor::end_operation`] when the operation is over.
pub struct OperationGuard {
    started_with: u32,
}

/// Physical memory of the machine in KiB, as `(total, available)`
/// (`sys_info::mem_info`). The reading depends on the machine; nothing is
/// stated about it.
#[verifier::external_body]
pub(crate) fn memory_info_kb() -> Option<(u64, u64)> {
    sys_info::mem_info().ok().map(|m| (m.total, m.avail))
}

/// Why an operation may not start, given a memory reading, if it may not.
pub enum LimitProblem {
    Concurrency,
    Memory,
}

impl ResourceMonitor {
    /// The memory ceiling in MiB.
    pub closed spec fn memory_limit_mb(&self) -> u64 {
        self.max_memory_mb
    }

    /// The limit on concurrent operations.
    pub closed spec fn concurrency_limit(&self) -> u32 {
        self.max_concurrent_operations
    }

    /// The open-files limit.
    pub closed spec fn open_files_limit(&self) -> u32 {
        self.max_open_files
    }

    /// The number of operations being tracked.
    pub closed spec fn active(&self) -> u32 {
        self.current_operations
    }

    /// The problem, if any, with starting an operation now.
    pub open spec fn limit_problem(&self, memory: Option<(u64, u64)>) -> Option<LimitProblem> {
        if self.active() >= self.concurrency_limit() {
            Some(LimitProblem::Concurrency)
        } else if memory matches Some((total, avail)) && avail <= total && (total - avail) / 1024
            > self.memory_limit_mb() as int {
            Some(LimitProblem::Memory)
        } else {
            None
        }
    }

    /// A monitor with a 512 MiB memory ceiling, 100 open files and 10
    /// concurrent operations, tracking none.
    pub fn new() -> (m: ResourceMonitor)
        ensures
            m.memory_limit_mb() == 512,
            m.open_files_limit() == 100,
            m.concurrency_limit() == 10,
            m.active() == 0,
    {
        ResourceMonitor {
            max_memory_mb: 512,
            max_open_files: 100,
            max_concurrent_operations: 10,
            current_operations: 0,
        }
    }

    /// Checks whether an operation can proceed without exceeding the limits,
    /// reading the machine's memory. A reading that claims more available
    /// than total memory is ignored.
    pub fn check_resource_limits(&self) -> (r: Result<(), GitError>)
        ensures
            self.active() >= self.concurrency_limit() ==> r is Err,
            r matches Err(e) ==> e is ResourceLimit,
    {
        let memory = memory_info_kb();
        self.check_limits_with(memory)
    }

    /// Checks the limits against a given memory reading `(total, available)` in KiB.
    pub fn check_limits_with(&self, memory: Option<(u64, u64)>) -> (r: Result<(), GitError>)
        ensures
            r is Ok <==> self.limit_problem(memory) is None,
            self.limit_problem(memory) matches Some(LimitProblem::Concurrency) ==> r matches Err(
                GitError::ResourceLimit { resource, limit },
            ) && resource@ == "concurrent operations"@ && limit@ == decimal(
                self.concurrency_limit() as nat,
            ),
            self.limit_problem(memory) matches Some(LimitProblem::Memory) ==> r matches Err(
                GitError::ResourceLimit { resource, limit },
            ) && resource@ == "memory usage"@ && limit@ == decimal(self.memory_limit_mb() as nat)
                + "MB"@,
    {
        if self.current_operations >= self.max_concurrent_operations {
            let lim = u64_to_string(self.max_concurrent_operations as u64);
            return Err(GitError::resource_limit("concurrent operations", lim.as_str()));
        }
        match memory {
            Some((total, avail)) => {
                if avail <= total {
                    let used_mb = (total - avail) / 1024;
                    if used_mb > self.max_memory_mb {
                        let lim = concat(u64_to_string(self.max_memory_mb).as_str(), "MB");
                        return Err(GitError::resource_limit("memory usage", lim.as_str()));
                    }
                }
            },
            None => {},
        }
        Ok(())
    }

    /// Starts tracking an operation.
    pub fn start_operation(&mut self) -> (g: OperationGuard)
        ensures
            final(self).active() == count_after_start(old(self).active()),
            final(self).concurrency_limit() == old(self).concurrency_limit(),
            final(self).memory_limit_mb() == old(self).memory_limit_mb(),
            final(self).open_files_limit() == old(self).open_files_limit(),
    {
        let before = self.current_operations;
        self.current_operations = if before == u32::MAX { 0 } else { before + 1 };
        OperationGuard { started_with: before }
    }

    /// Stops tracking the operation of `guard`.
    pub fn end_operation(&mut self, guard: OperationGuard)
        ensures
            final(self).active() == count_after_end(old(self).active()),
            final(self).concurrency_limit() == old(self).concurrency_limit(),
            final(self).memory_limit_mb() == old(self).memory_limit_mb(),
            final(self).open_files_limit() == old(self).open_files_limit(),
    {
        let _ = guard.started_with;
        let before = self.current_operations;
        self.current_operations = if before == 0 { u32::MAX } else { before - 1 };
    }
}

/// The count of tracked operations after one more starts (wrapping, as an atomic add does).
pub open spec fn count_after_start(n: u32) -> u32 {
    if n == u32::MAX { 0 } else { (n + 1) as u32 }
}

/// The count of tracked operations after one ends (wrapping, as an atomic subtract does).
pub open spec fn count_after_end(n: u32) -> u32 {
    if n == 0 { u32::MAX } else { (n - 1) as u32 }
}

/// Law: ending an operation undoes starting it, so a monitor returns to its
/// earlier count once every started operation has ended.
pub proof fn start_then_end_restores(n: u32)
    ensures
        count_after_end(count_after_start(n)) == n,
        count_after_start(count_after_end(n)) == n,
{
}

} // verus!
