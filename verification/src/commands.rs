//! Checks and bookkeeping around running the Git command-line tool: the
//! environment it runs in, where it is found, and which invocations are
//! admitted. Running the process is left to the caller.

use vstd::prelude::*;
use crate::platform::{account_chars, safe_unix_directory, FileSystemSecurity, PlatformSecurity};
use crate::security::{RateLimiter, SecurityValidator};
use crate::text::{
    append_str, char_string, chars_of, concat, owned, str_has_char, str_starts_with, string_eq,
    string_of, starts_with, trim, trim_ws,
};

verus! {

/// The map an environment list stands for: later entries win.
pub open spec fn env_map(env: Seq<(String, String)>) -> Map<Seq<char>, Seq<char>>
    decreases env.len(),
{
    if env.len() == 0 {
        Map::empty()
    } else {
        env_map(env.drop_last()).insert(env.last().0@, env.last().1@)
    }
}

/// The entries of `env` whose name is not `k`, in order.
pub open spec fn without_key(env: Seq<(String, String)>, k: Seq<char>) -> Seq<(String, String)>
    decreases env.len(),
{
    if env.len() == 0 {
        env
    } else if env.last().0@ == k {
        without_key(env.drop_last(), k)
    } else {
        without_key(env.drop_last(), k).push(env.last())
    }
}

/// Leaving out the entries named `k` removes `k` from the map.
pub proof fn lemma_without_key(env: Seq<(String, String)>, k: Seq<char>)
    ensures
        env_map(without_key(env, k)) == env_map(env).remove(k),
    decreases env.len(),
{
    if env.len() > 0 {
        lemma_without_key(env.drop_last(), k);
        let w = without_key(env.drop_last(), k);
        if env.last().0@ != k {
            assert(w.push(env.last()).drop_last() == w);
        }
        assert(env_map(without_key(env, k)) =~= env_map(env).remove(k));
    }
}

/// Every name an environment list holds is in the domain of its map.
pub proof fn lemma_env_names_in_map(env: Seq<(String, String)>, i: int)
    requires
        0 <= i < env.len(),
    ensures
        env_map(env).dom().contains(env[i].0@),
    decreases env.len(),
{
    if i < env.len() - 1 {
        lemma_env_names_in_map(env.drop_last(), i);
    }
}

/// The names the host's environment may hand down.
pub open spec fn host_names() -> Set<Seq<char>> {
    set!["HOME"@, "USER"@, "SHELL"@, "TMPDIR"@]
}

/// Law: an environment whose names are all among those the host hands
/// down holds no dangerous variable, so the security validator never
/// refuses it.
pub proof fn lemma_host_names_not_dangerous(env: Seq<(String, String)>)
    requires
        forall|i: int| 0 <= i < env.len() ==> host_names().contains(#[trigger] env[i].0@),
    ensures
        crate::security::first_dangerous_env(env, 0) is None,
{
    reveal_strlit("HOME");
    reveal_strlit("USER");
    reveal_strlit("SHELL");
    reveal_strlit("TMPDIR");
    reveal_strlit("LD_PRELOAD");
    reveal_strlit("LD_LIBRARY_PATH");
    reveal_strlit("DYLD_INSERT_LIBRARIES");
    reveal_strlit("PATH");
    reveal_strlit("GIT_EXEC_PATH");
    reveal_strlit("GIT_SSH");
    reveal_strlit("GIT_SSH_COMMAND");
    reveal_strlit("GIT_PROXY_COMMAND");
    reveal_strlit("GIT_CONNECT_TIMEOUT");
    let d = crate::security::dangerous_env_vars();
    assert("HOME"@.len() == 4 && "USER"@.len() == 4 && "SHELL"@.len() == 5 && "TMPDIR"@.len() == 6);
    assert("HOME"@[0] == 'H' && "USER"@[0] == 'U' && "PATH"@[0] == 'P');
    assert forall|k: int| 0 <= k < d.len() implies !host_names().contains(#[trigger] d[k]) by {
        if k == 3 {
            assert(d[k] == "PATH"@);
            assert(d[k][0] == 'P');
        } else {
            assert(d[k].len() > 6) by {
                if k == 0 {
                    assert(d[k] == "LD_PRELOAD"@);
                } else if k == 1 {
                    assert(d[k] == "LD_LIBRARY_PATH"@);
                } else if k == 2 {
                    assert(d[k] == "DYLD_INSERT_LIBRARIES"@);
                } else if k == 4 {
                    assert(d[k] == "GIT_EXEC_PATH"@);
                } else if k == 5 {
                    assert(d[k] == "GIT_SSH"@);
                } else if k == 6 {
                    assert(d[k] == "GIT_SSH_COMMAND"@);
                } else if k == 7 {
                    assert(d[k] == "GIT_PROXY_COMMAND"@);
                } else {
                    assert(d[k] == "GIT_CONNECT_TIMEOUT"@);
                }
            }
        }
    }
    lemma_no_dangerous_from(env, 0);
}

/// From the `k`-th dangerous name on, none is in `env` when no dangerous
/// name is among the host's names and every name of `env` is.
proof fn lemma_no_dangerous_from(env: Seq<(String, String)>, k: int)
    requires
        0 <= k,
        forall|j: int| 0 <= j < crate::security::dangerous_env_vars().len()
            ==> !host_names().contains(#[trigger] crate::security::dangerous_env_vars()[j]),
        forall|i: int| 0 <= i < env.len() ==> host_names().contains(#[trigger] env[i].0@),
    ensures
        crate::security::first_dangerous_env(env, k) is None,
    decreases crate::security::dangerous_env_vars().len() - k,
{
    let d = crate::security::dangerous_env_vars();
    if k < d.len() {
        if exists|j: int| 0 <= j < env.len() && (#[trigger] env[j]).0@ == d[k] {
            let j = choose|j: int| 0 <= j < env.len() && (#[trigger] env[j]).0@ == d[k];
            assert(host_names().contains(env[j].0@));
        }
        lemma_no_dangerous_from(env, k + 1);
    }
}

/// Sets `k` to `v` in an environment list: entries named `k` are dropped
/// and the new entry is put last.
pub fn env_set(env: &mut Vec<(String, String)>, k: &str, v: &str)
    ensures
        env_map(final(env)@) == env_map(old(env)@).insert(k@, v@),
{
    let ghost orig = env@;
    let mut rest: Vec<(String, String)> = Vec::new();
    std::mem::swap(&mut rest, env);
    let total: usize = rest.len();
    let mut kept: Vec<(String, String)> = Vec::new();
    let mut n: usize = 0;
    while rest.len() > 0
        invariant
            n + rest@.len() == orig.len(),
            orig.len() == total,
            rest@ == orig.skip(n as int),
            kept@ == without_key(orig.take(n as int), k@),
        decreases rest@.len(),
    {
        let e = rest.remove(0);
        assert(orig.take(n as int + 1).drop_last() == orig.take(n as int));
        if !string_eq(e.0.as_str(), k) {
            kept.push(e);
        }
        n = n + 1;
    }
    assert(orig.take(n as int) == orig);
    proof {
        lemma_without_key(orig, k@);
    }
    let ghost before = kept@;
    kept.push((owned(k), owned(v)));
    assert(kept@.drop_last() == before);
    assert(env_map(kept@) =~= env_map(orig).remove(k@).insert(k@, v@));
    assert(env_map(kept@) =~= env_map(orig).insert(k@, v@));
    *env = kept;
}

/// What the host tells of its environment: the values of `HOME`, `USER`,
/// `SHELL` and `PATH`, whether the shell exists, the Git found through the
/// configured proxy, and the Git found on `PATH`.
#[derive(Debug, Clone)]
pub struct HostEnvironment {
    pub home: Option<String>,
    pub user: Option<String>,
    pub shell: Option<String>,
    pub shell_exists: bool,
    pub path: Option<String>,
    pub git_proxy: Option<String>,
    pub path_git: Option<String>,
}

/// The environment handed down from the host: `HOME` when it is a safe
/// directory, `USER` with only letters, digits, `-` and `_` kept (when
/// something is left), `SHELL` when it exists, and `TMPDIR` set to `/tmp`.
pub open spec fn secure_environment_map(host: HostEnvironment) -> Map<Seq<char>, Seq<char>> {
    let m0 = Map::<Seq<char>, Seq<char>>::empty();
    let m1 = match host.home {
        Some(h) => if safe_unix_directory(h@) { m0.insert("HOME"@, h@) } else { m0 },
        None => m0,
    };
    let m2 = match host.user {
        Some(u) => if account_chars(u@, true).len() > 0 { m1.insert("USER"@, account_chars(u@, true)) } else { m1 },
        None => m1,
    };
    let m3 = match host.shell {
        Some(s) => if host.shell_exists { m2.insert("SHELL"@, s@) } else { m2 },
        None => m2,
    };
    m3.insert("TMPDIR"@, "/tmp"@)
}

/// The environment handed down from the host (see
/// [`secure_environment_map`]).
pub fn get_secure_environment(host: &HostEnvironment) -> (r: Vec<(String, String)>)
    ensures
        env_map(r@) == secure_environment_map(*host),
{
    let mut env: Vec<(String, String)> = Vec::new();
    match &host.home {
        Some(h) => {
            if PlatformSecurity::is_safe_directory_unix(h.as_str()) {
                env_set(&mut env, "HOME", h.as_str());
            }
        },
        None => {},
    }
    match &host.user {
        Some(u) => {
            let safe = FileSystemSecurity::sanitize_account_name(u.as_str(), true);
            if safe.as_str().unicode_len() > 0 {
                env_set(&mut env, "USER", safe.as_str());
            }
        },
        None => {},
    }
    match &host.shell {
        Some(s) => {
            if host.shell_exists {
                env_set(&mut env, "SHELL", s.as_str());
            }
        },
        None => {},
    }
    env_set(&mut env, "TMPDIR", "/tmp");
    assert(env_map(env@) =~= secure_environment_map(*host));
    env
}

/// The environment Git runs in: `base`, `PATH` set to the secure path
/// when there is one, and the settings that keep Git from prompting,
/// paging, running editors, SSH or proxy commands, reading system and
/// global configuration, or searching above `/`.
pub open spec fn safe_environment_map(
    base: Map<Seq<char>, Seq<char>>,
    secure_path: Result<Seq<char>, Seq<char>>,
) -> Map<Seq<char>, Seq<char>> {
    let m = match secure_path {
        Ok(p) => base.insert("PATH"@, p),
        Err(_) => base,
    };
    m.insert("GIT_PAGER"@, "cat"@)
        .insert("GIT_EDITOR"@, "true"@)
        .insert("GIT_ASKPASS"@, "true"@)
        .insert("GIT_SSH_COMMAND"@, "false"@)
        .insert("GIT_PROXY_COMMAND"@, "false"@)
        .insert("GIT_CONFIG_NOSYSTEM"@, "1"@)
        .insert("GIT_CEILING_DIRECTORIES"@, "/"@)
        .insert("GIT_CONFIG_GLOBAL"@, "false"@)
        .insert("GIT_TERMINAL_PROMPT"@, "0"@)
        .insert("GIT_OPTIONAL_LOCKS"@, "0"@)
}

/// The environment Git runs in (see [`safe_environment_map`]).
pub fn create_safe_environment(base: Vec<(String, String)>, secure_path: Result<String, String>) -> (r: Vec<(
    String,
    String,
)>)
    ensures
        env_map(r@) == safe_environment_map(
            env_map(base@),
            match secure_path {
                Ok(p) => Ok(p@),
                Err(e) => Err(e@),
            },
        ),
{
    let mut env = base;
    match &secure_path {
        Ok(p) => env_set(&mut env, "PATH", p.as_str()),
        Err(_) => {},
    }
    env_set(&mut env, "GIT_PAGER", "cat");
    env_set(&mut env, "GIT_EDITOR", "true");
    env_set(&mut env, "GIT_ASKPASS", "true");
    env_set(&mut env, "GIT_SSH_COMMAND", "false");
    env_set(&mut env, "GIT_PROXY_COMMAND", "false");
    env_set(&mut env, "GIT_CONFIG_NOSYSTEM", "1");
    env_set(&mut env, "GIT_CEILING_DIRECTORIES", "/");
    env_set(&mut env, "GIT_CONFIG_GLOBAL", "false");
    env_set(&mut env, "GIT_TERMINAL_PROMPT", "0");
    env_set(&mut env, "GIT_OPTIONAL_LOCKS", "0");
    env
}

/// Splits `s` at each `sep`: the pieces before the last separator, and
/// the piece being read.
pub open spec fn split_state(s: Seq<char>, sep: char) -> (Seq<Seq<char>>, Seq<char>)
    decreases s.len(),
{
    if s.len() == 0 {
        (Seq::empty(), Seq::empty())
    } else {
        let (done, cur) = split_state(s.drop_last(), sep);
        if s.last() == sep {
            (done.push(cur), Seq::empty())
        } else {
            (done, cur.push(s.last()))
        }
    }
}

/// The pieces of `s` between the separators `sep` (`str::split`).
pub open spec fn split_on(s: Seq<char>, sep: char) -> Seq<Seq<char>> {
    split_state(s, sep).0.push(split_state(s, sep).1)
}

/// `dir` joined with a relative `name` (`Path::join`).
pub open spec fn path_join(dir: Seq<char>, name: Seq<char>) -> Seq<char> {
    if dir.len() > 0 && dir.last() == '/' { dir + name } else { dir + "/"@ + name }
}

/// The places a program named `name` is looked for along a `PATH` value:
/// each non-empty directory of it, in order, joined with the name.
pub open spec fn path_candidates(path_env: Seq<char>, name: Seq<char>) -> Seq<Seq<char>> {
    split_on(path_env, ':').filter(|d: Seq<char>| d.len() > 0).map_values(|d: Seq<char>| path_join(d, name))
}

/// The places a program named `name` is looked for along a `PATH` value
/// (see [`path_candidates`]); `name` is relative.
pub fn unix_path_candidates(path_env: &str, name: &str) -> (r: Vec<String>)
    ensures
        r@.map_values(|s: String| s@) == path_candidates(path_env@, name@),
{
    let v = chars_of(path_env);
    let mut pieces: Vec<String> = Vec::new();
    let mut cur: Vec<char> = Vec::new();
    let mut i: usize = 0;
    while i < v.len()
        invariant
            i <= v.len(),
            v@ == path_env@,
            pieces@.map_values(|s: String| s@) == split_state(v@.take(i as int), ':').0,
            cur@ == split_state(v@.take(i as int), ':').1,
        decreases v.len() - i,
    {
        assert(v@.take(i as int + 1).drop_last() == v@.take(i as int));
        if v[i] == ':' {
            let ghost before = pieces@;
            pieces.push(string_of(&cur));
            assert(pieces@.map_values(|s: String| s@) =~= before.map_values(|s: String| s@).push(cur@));
            cur = Vec::new();
        } else {
            cur.push(v[i]);
        }
        i = i + 1;
    }
    assert(v@.take(v@.len() as int) == v@);
    let ghost done = pieces@;
    pieces.push(string_of(&cur));
    assert(pieces@.map_values(|s: String| s@) =~= split_on(path_env@, ':'));
    let ghost all = pieces@.map_values(|s: String| s@);
    let mut out: Vec<String> = Vec::new();
    let mut j: usize = 0;
    while j < pieces.len()
        invariant
            j <= pieces@.len(),
            all == pieces@.map_values(|s: String| s@),
            out@.map_values(|s: String| s@) == all.take(j as int).filter(|d: Seq<char>| d.len() > 0).map_values(
                |d: Seq<char>| path_join(d, name@),
            ),
        decreases pieces@.len() - j,
    {
        reveal(Seq::filter);
        assert(all.take(j as int + 1).drop_last() == all.take(j as int));
        let d = pieces[j].as_str();
        let dv = chars_of(d);
        if dv.len() > 0 {
            let ghost before = out@;
            let full = if dv[dv.len() - 1] == '/' {
                concat(d, name)
            } else {
                let mut f = concat(d, "/");
                append_str(&mut f, name);
                f
            };
            out.push(full);
            assert(out@.map_values(|s: String| s@) =~= before.map_values(|s: String| s@).push(path_join(all[j as int], name@)));
        }
        j = j + 1;
    }
    assert(all.take(pieces@.len() as int) == all);
    out
}

/// Where the Git executable is taken from: the secure locations first,
/// then the configured proxy, then the `PATH` lookup.
pub open spec fn git_executable_choice(secure: Result<Seq<char>, Seq<char>>, host: HostEnvironment) -> Result<
    Seq<char>,
    Seq<char>,
> {
    match secure {
        Ok(p) => Ok(p),
        Err(_) => match host.git_proxy {
            Some(p) => Ok(p@),
            None => match host.path_git {
                Some(p) => Ok(p@),
                None => Err("Git executable not found in PATH"@),
            },
        },
    }
}

/// Picks the Git executable (see [`git_executable_choice`]) given the
/// outcome of the secure lookup.
pub fn choose_git_executable(secure: Result<String, String>, host: &HostEnvironment) -> (r: Result<String, String>)
    ensures
        crate::text::result_view(r) == git_executable_choice(crate::text::result_view(secure), *host),
{
    match secure {
        Ok(p) => Ok(p),
        Err(_) => match &host.git_proxy {
            Some(p) => Ok(owned(p.as_str())),
            None => match &host.path_git {
                Some(p) => Ok(owned(p.as_str())),
                None => Err(owned("Git executable not found in PATH")),
            },
        },
    }
}

/// The characters an argument may not hold, in the order they are checked.
pub open spec fn dangerous_arg_chars() -> Seq<char> {
    seq!['|', '&', ';', '`', '$', '<', '>', '\n', '\r']
}

/// The prefixes an argument may not start with, in the order they are
/// checked.
pub open spec fn dangerous_arg_prefixes() -> Seq<Seq<char>> {
    seq!["--upload-pack"@, "--receive-pack"@, "--exec"@]
}

/// The first of `dangerous_arg_chars()[k..]` that `arg` holds.
pub open spec fn first_dangerous_char(arg: Seq<char>, k: int) -> Option<char>
    decreases dangerous_arg_chars().len() - k,
{
    if k < 0 || k >= dangerous_arg_chars().len() {
        None
    } else if arg.contains(dangerous_arg_chars()[k]) {
        Some(dangerous_arg_chars()[k])
    } else {
        first_dangerous_char(arg, k + 1)
    }
}

/// The first of `dangerous_arg_prefixes()[k..]` that `arg` starts with.
pub open spec fn first_dangerous_prefix(arg: Seq<char>, k: int) -> Option<Seq<char>>
    decreases dangerous_arg_prefixes().len() - k,
{
    if k < 0 || k >= dangerous_arg_prefixes().len() {
        None
    } else if starts_with(arg, dangerous_arg_prefixes()[k]) {
        Some(dangerous_arg_prefixes()[k])
    } else {
        first_dangerous_prefix(arg, k + 1)
    }
}

/// Why an argument is refused, if it is: the first dangerous character it
/// holds, else the first dangerous prefix it starts with.
pub open spec fn argument_refusal(arg: Seq<char>) -> Option<Seq<char>> {
    match first_dangerous_char(arg, 0) {
        Some(c) => Some("Argument contains dangerous character: "@ + seq![c]),
        None => match first_dangerous_prefix(arg, 0) {
            Some(p) => Some("Argument contains dangerous pattern: "@ + p),
            None => None,
        },
    }
}

/// Checks one argument against shell metacharacters and the options that
/// make Git run other programs.
pub fn validate_argument(arg: &str) -> (r: Result<(), String>)
    ensures
        r is Ok <==> argument_refusal(arg@) is None,
        r matches Err(m) ==> Some(m@) == argument_refusal(arg@),
{
    let chars: [char; 9] = ['|', '&', ';', '`', '$', '<', '>', '\n', '\r'];
    let mut k: usize = 0;
    while k < 9
        invariant
            k <= 9,
            chars@ == dangerous_arg_chars(),
            first_dangerous_char(arg@, 0) == first_dangerous_char(arg@, k as int),
        decreases 9 - k,
    {
        let ch = chars[k];
        if str_has_char(arg, ch) {
            let mut m = owned("Argument contains dangerous character: ");
            append_str(&mut m, char_string(ch).as_str());
            return Err(m);
        }
        k = k + 1;
    }
    let prefixes: [&str; 3] = ["--upload-pack", "--receive-pack", "--exec"];
    let mut j: usize = 0;
    while j < 3
        invariant
            j <= 3,
            first_dangerous_char(arg@, 0) is None,
            prefixes@.map_values(|p: &str| p@) == dangerous_arg_prefixes(),
            first_dangerous_prefix(arg@, 0) == first_dangerous_prefix(arg@, j as int),
        decreases 3 - j,
    {
        let p = prefixes[j];
        assert(prefixes@.map_values(|p: &str| p@)[j as int] == p@);
        if str_starts_with(arg, p) {
            return Err(concat("Argument contains dangerous pattern: ", p));
        }
        j = j + 1;
    }
    Ok(())
}

/// The first of `args[k..]` that is refused, with the reason.
pub open spec fn first_refused_argument(args: Seq<&str>, k: int) -> Option<Seq<char>>
    decreases args.len() - k,
{
    if k < 0 || k >= args.len() {
        None
    } else if argument_refusal(args[k]@) is Some {
        argument_refusal(args[k]@)
    } else {
        first_refused_argument(args, k + 1)
    }
}

/// Why a command with arguments `args` may not run in environment `env`,
/// if it may not: the checks are, in order, that the command (the first
/// argument) is allowed, that the arguments pass the security validator,
/// that the environment holds no dangerous variable, and that no argument
/// is refused (see [`argument_refusal`]).
pub open spec fn admission_refusal(args: Seq<&str>, env: Seq<(String, String)>) -> Option<Seq<char>> {
    if args.len() > 0 && !crate::security::allowed_commands().contains(args[0]@) {
        Some("Command '"@ + args[0]@ + "' is not allowed"@)
    } else if crate::security::arguments_problem(args) is Some {
        crate::security::arguments_problem(args)
    } else if crate::security::first_dangerous_env(env, 0) is Some {
        Some("Environment variable '"@ + crate::security::first_dangerous_env(env, 0)->0 + "' not allowed"@)
    } else {
        first_refused_argument(args, 0)
    }
}

/// Checks each argument in turn (see [`validate_argument`]).
pub fn validate_each_argument(args: &[&str]) -> (r: Result<(), String>)
    ensures
        r is Ok <==> first_refused_argument(args@, 0) is None,
        r matches Err(m) ==> Some(m@) == first_refused_argument(args@, 0),
{
    let mut i: usize = 0;
    while i < args.len()
        invariant
            i <= args@.len(),
            first_refused_argument(args@, 0) == first_refused_argument(args@, i as int),
        decreases args@.len() - i,
    {
        match validate_argument(args[i]) {
            Ok(()) => {},
            Err(e) => {
                return Err(e);
            },
        }
        i = i + 1;
    }
    Ok(())
}

/// Runs the Git command-line tool safely: a checked executable, a cleaned
/// environment, validated arguments and a limit on how many commands run.
pub struct GitCommandRunner {
    repo_path: String,
    git_executable: String,
    environment: Vec<(String, String)>,
    inherited: Vec<(String, String)>,
    security_validator: SecurityValidator,
    rate_limiter: RateLimiter,
}

impl GitCommandRunner {
    /// The repository directory commands run in.
    pub closed spec fn repo_path_spec(&self) -> Seq<char> {
        self.repo_path@
    }

    /// The Git executable.
    pub closed spec fn git_executable_spec(&self) -> Seq<char> {
        self.git_executable@
    }

    /// The environment commands run in.
    pub closed spec fn environment_spec(&self) -> Seq<(String, String)> {
        self.environment@
    }

    /// The part of the environment taken from the host.
    pub closed spec fn inherited_spec(&self) -> Seq<(String, String)> {
        self.inherited@
    }

    /// The runner's rate limiter.
    pub closed spec fn limiter(&self) -> RateLimiter {
        self.rate_limiter
    }

    /// The runner's security validator.
    pub closed spec fn validator(&self) -> SecurityValidator {
        self.security_validator
    }

    /// A runner for the repository at `repo_path`: the Git executable is
    /// looked up (see [`choose_git_executable`]), the environment is the
    /// host's secure environment made safe for Git (with `PATH` set to the
    /// secure path when one is found), and at most 10 commands a second and
    /// 5 at a time are admitted.
    pub fn new(repo_path: &str, host: &HostEnvironment) -> (r: Result<GitCommandRunner, String>)
        ensures
            (host.git_proxy is Some || host.path_git is Some) && (forall|i: int|
                0 <= i < crate::security::dangerous_patterns().len() ==> crate::patterns::regex_compile_error(
                    #[trigger] crate::security::dangerous_patterns()[i],
                ) is None) ==> r is Ok,
            r matches Ok(g) ==> {
                &&& g.repo_path_spec() == repo_path@
                &&& exists|sec: Result<Seq<char>, Seq<char>>| git_executable_choice(sec, *host) == Ok::<Seq<char>, Seq<char>>(g.git_executable_spec())
                &&& exists|sp: Result<Seq<char>, Seq<char>>| env_map(g.environment_spec()) == safe_environment_map(secure_environment_map(*host), sp)
                &&& env_map(g.inherited_spec()) == secure_environment_map(*host)
                &&& crate::security::first_dangerous_env(g.inherited_spec(), 0) is None
                &&& g.limiter().per_second() == 10
                &&& g.limiter().concurrency() == 5
                &&& g.limiter().active() == 0
                &&& g.limiter().history().len() == 0
            },
    {
        let secure = PlatformSecurity::find_git_executable_secure();
        let ghost sec = crate::text::result_view(secure);
        let git_executable = match choose_git_executable(secure, host) {
            Ok(p) => p,
            Err(e) => {
                return Err(e);
            },
        };
        let sp = PlatformSecurity::secure_path();
        let ghost spv = crate::text::result_view(sp);
        let environment = create_safe_environment(get_secure_environment(host), sp);
        let inherited = get_secure_environment(host);
        let security_validator = match SecurityValidator::new() {
            Ok(v) => v,
            Err(e) => {
                return Err(e);
            },
        };
        let rate_limiter = RateLimiter::new(10, 5);
        let g = GitCommandRunner {
            repo_path: owned(repo_path),
            git_executable,
            environment,
            inherited,
            security_validator,
            rate_limiter,
        };
        assert(git_executable_choice(sec, *host) == Ok::<Seq<char>, Seq<char>>(g.git_executable_spec()));
        assert(env_map(g.environment_spec()) == safe_environment_map(secure_environment_map(*host), spv));
        proof {
            assert forall|i: int| 0 <= i < g.inherited_spec().len() implies host_names().contains(
                #[trigger] g.inherited_spec()[i].0@,
            ) by {
                lemma_env_names_in_map(g.inherited_spec(), i);
                assert(secure_environment_map(*host).dom().contains(g.inherited_spec()[i].0@));
            }
            lemma_host_names_not_dangerous(g.inherited_spec());
        }
        Ok(g)
    }

    /// The repository directory commands run in.
    pub fn repo_path(&self) -> (r: &str)
        ensures
            r@ == self.repo_path_spec(),
    {
        self.repo_path.as_str()
    }

    /// The Git executable.
    pub fn git_executable(&self) -> (r: &str)
        ensures
            r@ == self.git_executable_spec(),
    {
        self.git_executable.as_str()
    }

    /// The environment commands run in.
    pub fn environment(&self) -> (r: &Vec<(String, String)>)
        ensures
            r@ == self.environment_spec(),
    {
        &self.environment
    }

    /// Admits a command before it runs: the rate limiter must admit it,
    /// the command (the first argument) must be allowed, the arguments and
    /// the environment taken from the host must pass the security
    /// validator (the settings the runner adds itself, such as `PATH`, are
    /// not held against it), and no argument may be refused (see
    /// [`validate_argument`]). An admitted command is
    /// counted as running until [`Self::finish_command`].
    pub fn admit_command(&mut self, args: &[&str]) -> (r: Result<(), String>)
        ensures
            final(self).repo_path_spec() == old(self).repo_path_spec(),
            final(self).git_executable_spec() == old(self).git_executable_spec(),
            final(self).environment_spec() == old(self).environment_spec(),
            final(self).inherited_spec() == old(self).inherited_spec(),
            final(self).limiter().per_second() == old(self).limiter().per_second(),
            final(self).limiter().concurrency() == old(self).limiter().concurrency(),
            old(self).limiter().active() >= old(self).limiter().concurrency() ==> r is Err,
            admission_refusal(args@, old(self).inherited_spec()) is Some ==> r is Err,
            r is Ok ==> admission_refusal(args@, old(self).inherited_spec()) is None
                && final(self).limiter().active() == if old(self).limiter().active() == u32::MAX { 0 } else { (old(self).limiter().active() + 1) as u32 },
            r matches Err(m) ==> m@ == "Too many concurrent commands"@ || m@ == "Rate limit exceeded"@
                || Some(m@) == admission_refusal(args@, old(self).inherited_spec()),
            r is Err ==> final(self).limiter().active() == old(self).limiter().active(),
    {
        let now = crate::security::clock_nanos();
        match self.rate_limiter.check_rate_limit_at(now) {
            Ok(()) => {},
            Err(e) => {
                return Err(e);
            },
        }
        if args.len() > 0 {
            match self.security_validator.validate_command(args[0]) {
                Ok(()) => {},
                Err(e) => {
                    return Err(e);
                },
            }
        }
        match self.security_validator.validate_arguments(args) {
            Ok(()) => {},
            Err(e) => {
                return Err(e);
            },
        }
        match self.security_validator.validate_environment(&self.inherited) {
            Ok(()) => {},
            Err(e) => {
                return Err(e);
            },
        }
        match validate_each_argument(args) {
            Ok(()) => {},
            Err(e) => {
                return Err(e);
            },
        }
        self.rate_limiter.start_command();
        Ok(())
    }

    /// Counts an admitted command as finished.
    pub fn finish_command(&mut self)
        ensures
            final(self).repo_path_spec() == old(self).repo_path_spec(),
            final(self).git_executable_spec() == old(self).git_executable_spec(),
            final(self).environment_spec() == old(self).environment_spec(),
            final(self).inherited_spec() == old(self).inherited_spec(),
            final(self).limiter().per_second() == old(self).limiter().per_second(),
            final(self).limiter().concurrency() == old(self).limiter().concurrency(),
            final(self).limiter().history() == old(self).limiter().history(),
            final(self).limiter().active() == if old(self).limiter().active() == 0 { u32::MAX } else { (old(self).limiter().active() - 1) as u32 },
    {
        self.rate_limiter.end_command();
    }
}

/// The Git subcommands run through [`GitCommandRunner`], with the
/// arguments put before the caller's.
#[derive(Debug, Clone, Copy, PartialEq, Eq, Structural)]
pub enum GitSubcommand {
    RevList,
    Log,
    ShowRef,
    CatFile,
    Diff,
    LsFiles,
    RevParse,
    ForEachRef,
}

/// The arguments a subcommand starts with.
pub open spec fn subcommand_prefix(c: GitSubcommand) -> Seq<Seq<char>> {
    match c {
        GitSubcommand::RevList => seq!["rev-list"@],
        GitSubcommand::Log => seq!["log"@, "--no-color"@],
        GitSubcommand::ShowRef => seq!["show-ref"@],
        GitSubcommand::CatFile => seq!["cat-file"@],
        GitSubcommand::Diff => seq!["diff"@, "--no-color"@],
        GitSubcommand::LsFiles => seq!["ls-files"@],
        GitSubcommand::RevParse => seq!["rev-parse"@],
        GitSubcommand::ForEachRef => seq!["for-each-ref"@],
    }
}

/// The full argument list of a subcommand: its own arguments, then the
/// caller's.
pub fn full_args<'a>(c: GitSubcommand, args: &[&'a str]) -> (r: Vec<&'a str>)
    ensures
        r@.map_values(|a: &str| a@) == subcommand_prefix(c) + args@.map_values(|a: &str| a@),
{
    let mut out: Vec<&'a str> = match c {
        GitSubcommand::RevList => vec!["rev-list"],
        GitSubcommand::Log => vec!["log", "--no-color"],
        GitSubcommand::ShowRef => vec!["show-ref"],
        GitSubcommand::CatFile => vec!["cat-file"],
        GitSubcommand::Diff => vec!["diff", "--no-color"],
        GitSubcommand::LsFiles => vec!["ls-files"],
        GitSubcommand::RevParse => vec!["rev-parse"],
        GitSubcommand::ForEachRef => vec!["for-each-ref"],
    };
    let ghost pre = out@.map_values(|a: &str| a@);
    assert(pre =~= subcommand_prefix(c));
    let mut i: usize = 0;
    while i < args.len()
        invariant
            i <= args@.len(),
            out@.map_values(|a: &str| a@) == pre + args@.take(i as int).map_values(|a: &str| a@),
        decreases args@.len() - i,
    {
        let ghost before = out@;
        out.push(args[i]);
        assert(args@.take(i as int + 1) =~= args@.take(i as int).push(args@[i as int]));
        assert(args@.take(i as int + 1).map_values(|a: &str| a@) =~= args@.take(i as int).map_values(|a: &str| a@).push(args@[i as int]@));
        assert(out@.map_values(|a: &str| a@) =~= before.map_values(|a: &str| a@).push(args@[i as int]@));
        assert(out@.map_values(|a: &str| a@) =~= pre + args@.take(i as int + 1).map_values(|a: &str| a@));
        i = i + 1;
    }
    assert(args@.take(args@.len() as int) == args@);
    out
}

/// Whether `rev-parse --is-inside-work-tree` said so: its output, trimmed,
/// is `true`; a failed command says no.
pub fn has_work_tree_from(output: &Result<String, String>) -> (r: bool)
    ensures
        r == (output matches Ok(o) && trim(o@) == "true"@),
{
    match output {
        Ok(o) => string_eq(trim_ws(o.as_str()).as_str(), "true"),
        Err(_) => false,
    }
}

/// The Git directory `rev-parse --git-dir` printed, trimmed.
pub fn git_dir_from(output: Result<String, String>) -> (r: Result<String, String>)
    ensures
        output matches Ok(o) ==> (r matches Ok(d) && d@ == trim(o@)),
        output matches Err(e) ==> (r matches Err(f) && f@ == e@),
{
    match output {
        Ok(o) => Ok(trim_ws(o.as_str())),
        Err(e) => Err(e),
    }
}

/// The working tree `rev-parse --show-toplevel` printed, trimmed; none
/// when the command failed.
pub fn work_tree_from(output: Result<String, String>) -> (r: Option<String>)
    ensures
        output matches Ok(o) ==> (r matches Some(d) && d@ == trim(o@)),
        output is Err ==> r is None,
{
    match output {
        Ok(o) => Some(trim_ws(o.as_str())),
        Err(_) => None,
    }
}

/// The branch `rev-parse --abbrev-ref HEAD` printed, trimmed; none for a
/// detached HEAD (it prints `HEAD`) or when the command failed.
pub fn current_branch_from(output: &Result<String, String>) -> (r: Option<String>)
    ensures
        match output {
            Ok(o) => if trim(o@) == "HEAD"@ { r is None } else { r matches Some(b) && b@ == trim(o@) },
            Err(_) => r is None,
        },
{
    match output {
        Ok(o) => {
            let b = trim_ws(o.as_str());
            if string_eq(b.as_str(), "HEAD") {
                None
            } else {
                Some(b)
            }
        },
        Err(_) => None,
    }
}

/// The non-empty lines of `for-each-ref` output, in order.
pub fn names_from_output(output: &str) -> (r: Vec<String>)
    ensures
        r@.map_values(|s: String| s@) == crate::text::lines(output@).filter(|l: Seq<char>| l.len() > 0),
{
    let lines = crate::text::split_lines(output);
    let ghost all = lines@.map_values(|s: String| s@);
    assert(all == crate::text::lines(output@));
    let mut out: Vec<String> = Vec::new();
    let mut i: usize = 0;
    while i < lines.len()
        invariant
            i <= lines@.len(),
            all == lines@.map_values(|s: String| s@),
            out@.map_values(|s: String| s@) == all.take(i as int).filter(|l: Seq<char>| l.len() > 0),
        decreases lines@.len() - i,
    {
        reveal(Seq::filter);
        assert(all.take(i as int + 1).drop_last() == all.take(i as int));
        let ghost before = out@;
        if lines[i].as_str().unicode_len() > 0 {
            out.push(owned(lines[i].as_str()));
            assert(out@.map_values(|s: String| s@) =~= before.map_values(|s: String| s@).push(all[i as int]));
        }
        i = i + 1;
    }
    assert(all.take(lines@.len() as int) == all);
    out
}

/// Parts of (lower-cased) Windows `PATH` entries that are never searched.
pub open spec fn windows_unsafe_path_parts() -> Seq<Seq<char>> {
    seq![
        "temp"@, "tmp"@, "windows\\temp"@, "appdata\\local\\temp"@, "programdata"@,
        "users\\public"@, "system32"@, "syswow64"@, "windows\\system32"@,
        "windows\\syswow64"@, "$recycle.bin"@, "recovery"@, "documents and settings"@,
    ]
}

/// Whether a Windows `PATH` entry may be searched for Git: it names no
/// temporary, system or public directory, is no UNC path, holds no `..`
/// or `~`, and is absolute on a drive (`X:` with a letter).
pub open spec fn safe_windows_path_entry(path: Seq<char>) -> bool {
    &&& !crate::text::contains_any(crate::text::lowercase(path), windows_unsafe_path_parts())
    &&& !starts_with(path, "\\\\"@)
    &&& !crate::text::contains_seq(path, ".."@)
    &&& !path.contains('~')
    &&& path.len() >= 3
    &&& path[1] == ':'
    &&& crate::text::is_ascii_alpha(path[0])
}

/// Whether a Windows `PATH` entry may be searched for Git (see
/// [`safe_windows_path_entry`]).
pub fn is_safe_path_windows(path: &str) -> (r: bool)
    ensures
        r == safe_windows_path_entry(path@),
{
    let parts = crate::text::strings(
        &[
            "temp", "tmp", "windows\\temp", "appdata\\local\\temp", "programdata", "users\\public",
            "system32", "syswow64", "windows\\system32", "windows\\syswow64", "$recycle.bin", "recovery",
            "documents and settings",
        ],
    );
    assert(crate::text::views(parts@) =~= windows_unsafe_path_parts());
    let lower = crate::text::to_lowercase(path);
    if crate::text::str_contains_any(lower.as_str(), &parts) {
        return false;
    }
    if str_starts_with(path, "\\\\") {
        return false;
    }
    if crate::text::str_contains(path, "..") || str_has_char(path, '~') {
        return false;
    }
    let v = chars_of(path);
    if v.len() < 3 || v[1] != ':' {
        return false;
    }
    let c = v[0];
    ('a' <= c && c <= 'z') || ('A' <= c && c <= 'Z')
}

} // verus!
