//! Tag management: creating, deleting, inspecting and listing tags.

use vstd::prelude::*;
use crate::libgit::{
    create_reference, create_tag_object, delete_reference, object_kind, oid_text, parse_oid,
    reference_target, repo_signature, reopen, signature_facts, signature_now, tag_object,
    tag_references, ObjKind, SigFacts,
};
use crate::operations::{
    appended, check_commit_id, check_ref_name, checked_commit_id, checked_ref_name, now_seconds,
    record_capped, OperationRecord, OperationType, HISTORY_LIMIT,
};
use crate::repository::{error_text, or_empty, GitRepository};
use crate::text::{
    concat, concat3, ends_with, owned, prefix_chars, starts_with, str_ends_with, str_starts_with,
    string_eq,
};
use crate::views::{opt_chars, string_views};
use crate::lexorder::{
    char_keys, extract_version, lemma_lex_total, lemma_not_less_trans, lex_less, str_less,
    u32_keys, u32s_less, version_parts,
};

verus! {

/// Kind of a tag.
#[derive(Debug, Clone, Copy, PartialEq, Eq, Structural)]
pub enum TagType {
    /// A reference straight to a commit.
    Lightweight,
    /// A tag object with a tagger and a message.
    Annotated,
}

/// Who made a tag, and when (seconds since the epoch).
#[derive(Debug, Clone)]
pub struct TagSignature {
    pub name: String,
    pub email: String,
    pub when: i64,
}

/// What is known of a tag.
#[derive(Debug, Clone)]
pub struct TagInfo {
    pub name: String,
    pub target_oid: String,
    pub target_type: ObjKind,
    pub tag_type: TagType,
    pub message: Option<String>,
    pub tagger: Option<TagSignature>,
    pub created_date: Option<i64>,
}

/// Whether the tag `t` names an object whose id is that of `commit`, or is
/// an annotated tag (whose tag object may point at it).
pub open spec fn points_at_or_annotated(t: TagInfo, commit: Seq<char>) -> bool {
    ||| (1 <= t.target_oid@.len() <= 40 && crate::text::all_hex(t.target_oid@) && oid_text(t.target_oid@) == oid_text(commit))
    ||| t.tag_type == TagType::Annotated
}

/// How a tag is created.
#[derive(Debug, Clone)]
pub struct TagCreateConfig {
    pub tag_type: TagType,
    pub message: Option<String>,
    pub force_overwrite: bool,
    pub sign_tag: bool,
    pub tagger: Option<TagSignature>,
}

impl Default for TagCreateConfig {
    fn default() -> (r: TagCreateConfig)
        ensures
            r.tag_type == TagType::Lightweight,
            r.message is None,
            !r.force_overwrite,
            !r.sign_tag,
            r.tagger is None,
    {
        TagCreateConfig {
            tag_type: TagType::Lightweight,
            message: None,
            force_overwrite: false,
            sign_tag: false,
            tagger: None,
        }
    }
}

/// Order tags are listed in.
#[derive(Debug, Clone, Copy, PartialEq, Eq, Structural)]
pub enum TagSortBy {
    Name,
    CreationDate,
    CommitDate,
    /// Semantic-version order of the names.
    Version,
}

/// Direction of an order.
#[derive(Debug, Clone, Copy, PartialEq, Eq, Structural)]
pub enum SortOrder {
    Ascending,
    Descending,
}

/// Which tags are listed, and how.
#[derive(Debug, Clone)]
pub struct TagFilterOptions {
    /// Name pattern with at most one `*` wildcard.
    pub pattern: Option<String>,
    pub include_lightweight: bool,
    pub include_annotated: bool,
    pub limit: Option<usize>,
    pub sort_by: TagSortBy,
    pub sort_order: SortOrder,
}

impl Default for TagFilterOptions {
    fn default() -> (r: TagFilterOptions)
        ensures
            r.pattern is None,
            r.include_lightweight,
            r.include_annotated,
            r.limit is None,
            r.sort_by == TagSortBy::Name,
            r.sort_order == SortOrder::Ascending,
    {
        TagFilterOptions {
            pattern: None,
            include_lightweight: true,
            include_annotated: true,
            limit: None,
            sort_by: TagSortBy::Name,
            sort_order: SortOrder::Ascending,
        }
    }
}

/// Outcome of a tag operation.
#[derive(Debug)]
pub struct TagOperationResult {
    pub success: bool,
    pub operation: OperationType,
    pub tag_name: String,
    pub target_commit: Option<String>,
    pub message: String,
    pub tag_type: TagType,
    pub signature: Option<TagSignature>,
}

/// The word a description uses for a tag kind.
pub open spec fn kind_word(t: TagType) -> Seq<char> {
    if t == TagType::Annotated {
        "annotated"@
    } else {
        "lightweight"@
    }
}

/// The first eight characters of a commit id (all of a shorter one).
pub open spec fn short8(c: Seq<char>) -> Seq<char> {
    c.take(if c.len() < 8 { c.len() as int } else { 8 })
}

/// Whether `m` reports a failure that creating the tag `n` can meet once
/// its name and commit are valid.
pub open spec fn tag_create_failure(m: Seq<char>, n: Seq<char>, force: bool, t: TagType) -> bool {
    ||| (!force && m == "Tag '"@ + n + "' already exists. Use force to overwrite."@)
    ||| starts_with(m, "Invalid commit OID: "@)
    ||| starts_with(m, "Target object not found: "@)
    ||| starts_with(m, "Failed to create signature: "@)
    ||| (t == TagType::Lightweight && starts_with(m, "Failed to create lightweight tag: "@))
    ||| (t == TagType::Annotated && starts_with(m, "Failed to create annotated tag: "@))
}

/// The message of an annotated tag: the configured one, else "Tag created".
pub open spec fn annotated_message_text(message: Option<String>) -> Seq<char> {
    match message {
        Some(m) => m@,
        None => "Tag created"@,
    }
}

/// The message of an annotated tag created with `config` (see
/// [`annotated_message_text`]).
pub fn annotated_message(config: &TagCreateConfig) -> (r: String)
    ensures
        r@ == annotated_message_text(config.message),
{
    match &config.message {
        Some(m) => copy_str(m),
        None => owned("Tag created"),
    }
}

/// The name and e-mail of the configured tagger, if there is one.
pub fn tagger_identity(config: &TagCreateConfig) -> (r: Option<(String, String)>)
    ensures
        match config.tagger {
            Some(t) => r matches Some((n, e)) && n@ == t.name@ && e@ == t.email@,
            None => r is None,
        },
{
    match &config.tagger {
        Some(t) => Some((copy_str(&t.name), copy_str(&t.email))),
        None => None,
    }
}

/// The identity used when neither a tagger is configured nor the
/// repository has a signature.
pub fn fallback_identity() -> (r: (String, String))
    ensures
        r.0@ == "Git User"@,
        r.1@ == "user@example.com"@,
{
    (owned("Git User"), owned("user@example.com"))
}

/// Version tags (`v...`), release tags (`release-...`) and `latest` are
/// protected; any other name is not.
pub proof fn law_protected_names(n: Seq<char>, rest: Seq<char>)
    ensures
        is_protected("v"@ + rest),
        is_protected("release-"@ + rest),
        is_protected("latest"@),
        (n.len() > 0 && n[0] != 'v' && n[0] != 'r' && n[0] != 'l') ==> !is_protected(n),
{
    reveal_strlit("v");
    reveal_strlit("release-");
    reveal_strlit("latest");
    assert(("v"@ + rest).subrange(0, 1) =~= "v"@);
    assert(("release-"@ + rest).subrange(0, 8) =~= "release-"@);
    if n.len() > 0 && n[0] != 'v' && n[0] != 'r' && n[0] != 'l' {
        assert(!starts_with(n, "v"@)) by {
            if starts_with(n, "v"@) {
                assert(n.subrange(0, 1)[0] == n[0]);
            }
        }
        assert(!starts_with(n, "release-"@)) by {
            if starts_with(n, "release-"@) {
                assert(n.subrange(0, 8)[0] == n[0]);
            }
        }
        assert(n != "latest"@) by {
            if n == "latest"@ {
                assert(n[0] == 'l');
            }
        }
    }
}

/// Deleting a protected tag without force never succeeds, and a successful
/// deletion of any tag without force was of an unprotected one.
pub proof fn law_protected_needs_force(n: Seq<char>, force: bool, success: bool)
    requires
        success ==> (force || !is_protected(n)),
    ensures
        (!force && starts_with(n, "release-"@)) ==> !success,
        (!force && starts_with(n, "v"@)) ==> !success,
        (!force && n == "latest"@) ==> !success,
{
}

/// Why creating the tag `name` is refused when a tag of that name was
/// `found` or not: an existing tag is kept unless overwriting is forced.
pub fn existing_tag_refusal(name: &str, found: bool, force: bool) -> (r: Option<String>)
    ensures
        (found && !force) ==> (r matches Some(m) && m@ == "Tag '"@ + name@ + "' already exists. Use force to overwrite."@),
        !(found && !force) ==> r is None,
{
    if found && !force {
        Some(concat3("Tag '", name, "' already exists. Use force to overwrite."))
    } else {
        None
    }
}

/// The record of creating the tag `n` at commit `c`.
pub open spec fn tag_create_record(r: OperationRecord, n: Seq<char>, c: Seq<char>, t: TagType) -> bool {
    &&& r.operation_type == OperationType::TagCreate
    &&& r.description@ == "Created "@ + kind_word(t) + " tag '"@ + n + "' at commit "@ + short8(c)
    &&& r.original_state is None
    &&& opt_chars(r.new_state) == Some(oid_text(c))
    &&& string_views(r.affected_refs@) == seq!["refs/tags/"@ + n]
}

/// The record of deleting the tag `n`, which pointed at `target`.
pub open spec fn tag_delete_record(r: OperationRecord, n: Seq<char>, target: Seq<char>) -> bool {
    &&& r.operation_type == OperationType::TagDelete
    &&& r.description@ == "Deleted tag '"@ + n + "'"@
    &&& opt_chars(r.original_state) == Some(target)
    &&& r.new_state is None
    &&& string_views(r.affected_refs@) == seq!["refs/tags/"@ + n]
}

/// Tags protected from deletion: version and release tags, and "latest".
pub open spec fn is_protected(name: Seq<char>) -> bool {
    starts_with(name, "v"@) || starts_with(name, "release-"@) || name == "latest"@
}

/// Number of `*` characters.
pub open spec fn star_count(p: Seq<char>) -> nat
    decreases p.len(),
{
    if p.len() == 0 {
        0
    } else {
        star_count(p.drop_last()) + if p.last() == '*' { 1nat } else { 0nat }
    }
}

/// Whether a tag name matches a pattern: with exactly one `*`, the name
/// starts with the text before it and ends with the text after it;
/// otherwise the name equals the pattern.
pub open spec fn pattern_matches(name: Seq<char>, p: Seq<char>) -> bool {
    if star_count(p) == 1 {
        let k = choose|k: int| 0 <= k < p.len() && p[k] == '*';
        starts_with(name, p.take(k)) && ends_with(name, p.skip(k + 1))
    } else {
        name == p
    }
}

/// A tag's signature read from the repository, with defaults for names
/// that are not UTF-8.
pub open spec fn tag_signature_of(s: TagSignature, f: SigFacts) -> bool {
    &&& s.name@ == (match f.name {
        Some(n) => n@,
        None => "Unknown"@,
    })
    &&& s.email@ == (match f.email {
        Some(e) => e@,
        None => "unknown@example.com"@,
    })
    &&& s.when == f.when
}

fn tag_signature_from(f: SigFacts) -> (s: TagSignature)
    ensures
        tag_signature_of(s, f),
{
    let name = match f.name {
        Some(n) => n,
        None => owned("Unknown"),
    };
    let email = match f.email {
        Some(e) => e,
        None => owned("unknown@example.com"),
    };
    TagSignature { name, email, when: f.when }
}

fn copy_str(s: &String) -> (r: String)
    ensures
        r@ == s@,
{
    owned(s.as_str())
}

/// Whether a tag is protected from deletion.
pub fn is_protected_tag(tag_name: &str) -> (r: bool)
    ensures
        r == is_protected(tag_name@),
{
    str_starts_with(tag_name, "v") || str_starts_with(tag_name, "release-") || string_eq(
        tag_name,
        "latest",
    )
}

/// Whether a tag name matches a pattern with at most one `*` wildcard.
pub fn matches_pattern(tag_name: &str, pattern: &str) -> (r: bool)
    ensures
        r == pattern_matches(tag_name@, pattern@),
{
    let p = crate::text::chars_of(pattern);
    let mut stars: usize = 0;
    let mut first: usize = 0;
    let mut i: usize = 0;
    while i < p.len()
        invariant
            i <= p.len(),
            p@ == pattern@,
            stars == star_count(p@.take(i as int)),
            stars <= i,
            stars >= 1 ==> first < i && p@[first as int] == '*' && star_count(p@.take(first as int)) == 0,
        decreases p.len() - i,
    {
        assert(p@.take(i as int + 1).drop_last() =~= p@.take(i as int));
        if p[i] == '*' {
            if stars == 0 {
                first = i;
            }
            stars = stars + 1;
        }
        i = i + 1;
    }
    assert(p@.take(p.len() as int) =~= p@);
    if stars == 1 {
        proof {
            let k = choose|k: int| 0 <= k < p@.len() && p@[k] == '*';
            lemma_single_star(p@, first as int, k);
        }
        let mut pre: Vec<char> = Vec::new();
        let mut j: usize = 0;
        while j < first
            invariant
                j <= first,
                first < p.len(),
                pre@ == p@.take(j as int),
            decreases first - j,
        {
            pre.push(p[j]);
            j = j + 1;
            assert(pre@ =~= p@.take(j as int));
        }
        let mut post: Vec<char> = Vec::new();
        let mut j: usize = first + 1;
        while j < p.len()
            invariant
                first + 1 <= j <= p.len(),
                post@ == p@.subrange(first as int + 1, j as int),
            decreases p.len() - j,
        {
            post.push(p[j]);
            j = j + 1;
            assert(post@ =~= p@.subrange(first as int + 1, j as int));
        }
        assert(post@ =~= p@.skip(first as int + 1));
        let pre_s = crate::text::string_of(&pre);
        let post_s = crate::text::string_of(&post);
        str_starts_with(tag_name, pre_s.as_str()) && str_ends_with(tag_name, post_s.as_str())
    } else {
        string_eq(tag_name, pattern)
    }
}

proof fn lemma_star_mono(p: Seq<char>, i: int, j: int)
    requires
        0 <= i <= j <= p.len(),
    ensures
        star_count(p.take(i)) <= star_count(p.take(j)),
    decreases j - i,
{
    if i < j {
        lemma_star_mono(p, i, j - 1);
        assert(p.take(j).drop_last() =~= p.take(j - 1));
    }
}

proof fn lemma_star_step(p: Seq<char>, k: int)
    requires
        0 <= k < p.len(),
        p[k] == '*',
    ensures
        star_count(p.take(k + 1)) == star_count(p.take(k)) + 1,
{
    assert(p.take(k + 1).drop_last() =~= p.take(k));
}

proof fn lemma_single_star(p: Seq<char>, first: int, k: int)
    requires
        0 <= first < p.len(),
        p[first] == '*',
        star_count(p.take(first)) == 0,
        star_count(p) == 1,
        0 <= k < p.len(),
        p[k] == '*',
    ensures
        k == first,
{
    assert(p.take(p.len() as int) =~= p);
    if k < first {
        lemma_star_step(p, k);
        lemma_star_mono(p, k + 1, first);
    } else if k > first {
        lemma_star_step(p, first);
        lemma_star_mono(p, first + 1, k);
        lemma_star_step(p, k);
        lemma_star_mono(p, k + 1, p.len() as int);
    }
}

/// Tags of a repository, with a history of the tag operations performed.
pub struct TagManager {
    repo: git2::Repository,
    operation_history: Vec<OperationRecord>,
}

impl TagManager {
    /// The operations performed, oldest first.
    pub closed spec fn history(&self) -> Seq<OperationRecord> {
        self.operation_history@
    }

    /// A manager on the repository of `git_repo`, with an empty history.
    pub fn new(git_repo: &GitRepository) -> (r: Result<TagManager, String>)
        ensures
            r matches Ok(m) ==> m.history().len() == 0,
    {
        match reopen(git_repo.get_repository()) {
            Ok(repo) => Ok(TagManager { repo, operation_history: Vec::new() }),
            Err(e) => Err(error_text(&e)),
        }
    }

    /// The operations performed, oldest first.
    pub fn get_operation_history(&self) -> (r: &[OperationRecord])
        ensures
            r@ == self.history(),
    {
        self.operation_history.as_slice()
    }

    fn fail(
        name: String,
        target: Option<String>,
        message: String,
        tag_type: TagType,
        operation: OperationType,
        signature: Option<TagSignature>,
    ) -> (r: Result<TagOperationResult, String>)
        ensures
            r matches Ok(x) && !x.success && x.operation == operation && x.tag_name == name
                && x.target_commit == target && x.message == message && x.tag_type == tag_type
                && x.signature == signature,
    {
        Ok(TagOperationResult {
            success: false,
            operation,
            tag_name: name,
            target_commit: target,
            message,
            tag_type,
            signature,
        })
    }

    /// The tagger: the configured one (see [`tagger_identity`]), else the
    /// repository's signature, else the fallback identity (see
    /// [`fallback_identity`]), each stamped with the current time.
    fn create_signature(&self, config: &TagCreateConfig) -> Result<git2::Signature<'static>, git2::Error> {
        match tagger_identity(config) {
            Some((name, email)) => signature_now(name.as_str(), email.as_str()),
            None => match repo_signature(&self.repo) {
                Ok(s) => Ok(s),
                Err(_) => {
                    let (name, email) = fallback_identity();
                    signature_now(name.as_str(), email.as_str())
                },
            },
        }
    }

    /// Creates the tag `tag_name` at `target_commit`. The name and commit
    /// are validated and sanitized first; a failure is reported in the
    /// result, and only a success is recorded in the history.
    pub fn create_tag(&mut self, tag_name: &str, target_commit: &str, config: TagCreateConfig) -> (r:
        Result<TagOperationResult, String>)
        ensures
            r is Ok,
            r->Ok_0.operation == OperationType::TagCreate,
            r->Ok_0.tag_type == config.tag_type,
            checked_ref_name(tag_name@, "tag"@) matches Err(m) ==> !r->Ok_0.success
                && r->Ok_0.message@ == m && r->Ok_0.tag_name@ == tag_name@
                && r->Ok_0.target_commit is None && final(self).history() == old(self).history(),
            checked_ref_name(tag_name@, "tag"@) is Ok ==> (checked_commit_id(target_commit@) matches Err(m)
                ==> !r->Ok_0.success && r->Ok_0.message@ == m && r->Ok_0.tag_name@ == tag_name@
                && r->Ok_0.target_commit is None && final(self).history() == old(self).history()),
            (checked_ref_name(tag_name@, "tag"@), checked_commit_id(target_commit@)) matches (Ok(n), Ok(c))
                ==> r->Ok_0.tag_name@ == n && opt_chars(r->Ok_0.target_commit) == Some(c) && (if r->Ok_0.success {
                &&& r->Ok_0.message@ == "Successfully created tag"@
                &&& final(self).history() == appended(old(self).history(), final(self).history().last(), HISTORY_LIMIT as nat)
                &&& tag_create_record(final(self).history().last(), n, c, config.tag_type)
                &&& config.tag_type == TagType::Lightweight ==> r->Ok_0.signature is None
            } else {
                &&& tag_create_failure(r->Ok_0.message@, n, config.force_overwrite, config.tag_type)
                &&& final(self).history() == old(self).history()
            }),
    {
        let tag_type = config.tag_type;
        let name = match check_ref_name(tag_name, "tag") {
            Ok(n) => n,
            Err(m) => {
                return Self::fail(owned(tag_name), None, m, tag_type, OperationType::TagCreate, None);
            },
        };
        let commit = match check_commit_id(target_commit) {
            Ok(c) => c,
            Err(m) => {
                return Self::fail(owned(tag_name), None, m, tag_type, OperationType::TagCreate, None);
            },
        };
        let full = concat("refs/tags/", name.as_str());
        if !config.force_overwrite {
            let found = reference_target(&self.repo, full.as_str()).is_ok();
            match existing_tag_refusal(name.as_str(), found, config.force_overwrite) {
                Some(m) => {
                    return Self::fail(name, Some(commit), m, tag_type, OperationType::TagCreate, None);
                },
                None => {},
            }
        }
        let oid = match parse_oid(commit.as_str()) {
            Ok(o) => o,
            Err(e) => {
                let m = concat("Invalid commit OID: ", error_text(&e).as_str());
                return Self::fail(name, Some(commit), m, tag_type, OperationType::TagCreate, None);
            },
        };
        match object_kind(&self.repo, oid.as_str()) {
            Ok(_) => {},
            Err(e) => {
                let m = concat("Target object not found: ", error_text(&e).as_str());
                return Self::fail(name, Some(commit), m, tag_type, OperationType::TagCreate, None);
            },
        }
        let sig = match self.create_signature(&config) {
            Ok(s) => s,
            Err(e) => {
                let m = concat("Failed to create signature: ", error_text(&e).as_str());
                return Self::fail(name, Some(commit), m, tag_type, OperationType::TagCreate, None);
            },
        };
        let signature = match tag_type {
            TagType::Lightweight => {
                match create_reference(&self.repo, full.as_str(), oid.as_str(), config.force_overwrite, "Create lightweight tag") {
                    Ok(()) => None,
                    Err(e) => {
                        let m = concat("Failed to create lightweight tag: ", error_text(&e).as_str());
                        return Self::fail(name, Some(commit), m, tag_type, OperationType::TagCreate, None);
                    },
                }
            },
            TagType::Annotated => {
                let message = annotated_message(&config);
                match create_tag_object(&self.repo, name.as_str(), oid.as_str(), &sig, message.as_str(), config.force_overwrite) {
                    Ok(()) => Some(tag_signature_from(signature_facts(&sig))),
                    Err(e) => {
                        let m = concat("Failed to create annotated tag: ", error_text(&e).as_str());
                        return Self::fail(name, Some(commit), m, tag_type, OperationType::TagCreate, None);
                    },
                }
            },
        };
        let kind = if tag_type == TagType::Annotated {
            "annotated"
        } else {
            "lightweight"
        };
        let mut description = concat3("Created ", kind, " tag '");
        crate::text::append_str(&mut description, name.as_str());
        crate::text::append_str(&mut description, "' at commit ");
        let short = prefix_chars(commit.as_str(), 8);
        crate::text::append_str(&mut description, short.as_str());
        let mut refs: Vec<String> = Vec::new();
        refs.push(copy_str(&full));
        assert(string_views(refs@) =~= seq!["refs/tags/"@ + name@]);
        let record = OperationRecord {
            operation_type: OperationType::TagCreate,
            timestamp: now_seconds(),
            description,
            original_state: None,
            new_state: Some(oid),
            affected_refs: refs,
        };
        record_capped(&mut self.operation_history, record, HISTORY_LIMIT);
        Ok(TagOperationResult {
            success: true,
            operation: OperationType::TagCreate,
            tag_name: name,
            target_commit: Some(commit),
            message: owned("Successfully created tag"),
            tag_type,
            signature,
        })
    }

    /// What is known of the tag `tag_name`: an annotated tag's target,
    /// message and tagger, or a lightweight tag's target.
    pub fn get_tag_info(&self, tag_name: &str) -> (r: Result<TagInfo, String>)
        ensures
            r matches Ok(i) ==> i.name@ == tag_name@,
    {
        let full = concat("refs/tags/", tag_name);
        let target = match reference_target(&self.repo, full.as_str()) {
            Ok(Some(t)) => t,
            Ok(None) => {
                return Err(owned("Tag has no target"));
            },
            Err(e) => {
                return Err(error_text(&e));
            },
        };
        match tag_object(&self.repo, target.as_str()) {
            Ok(t) => {
                let tagger = match t.tagger {
                    Some(f) => Some(tag_signature_from(f)),
                    None => None,
                };
                let created_date = match &tagger {
                    Some(s) => Some(s.when),
                    None => None,
                };
                let message = match t.message {
                    Some(m) => m,
                    None => String::new(),
                };
                let target_type = match t.target_kind {
                    Some(k) => k,
                    None => ObjKind::Any,
                };
                Ok(TagInfo {
                    name: owned(tag_name),
                    target_oid: t.target_id,
                    target_type,
                    tag_type: TagType::Annotated,
                    message: Some(message),
                    tagger,
                    created_date,
                })
            },
            Err(_) => {
                let kind = match object_kind(&self.repo, target.as_str()) {
                    Ok(k) => k,
                    Err(e) => {
                        return Err(error_text(&e));
                    },
                };
                let target_type = match kind {
                    Some(k) => k,
                    None => ObjKind::Any,
                };
                Ok(TagInfo {
                    name: owned(tag_name),
                    target_oid: target,
                    target_type,
                    tag_type: TagType::Lightweight,
                    message: None,
                    tagger: None,
                    created_date: None,
                })
            },
        }
    }

    /// Deletes the tag `tag_name`; version and release tags and "latest"
    /// are kept unless `force` is set. Only a success is recorded.
    pub fn delete_tag(&mut self, tag_name: &str, force: bool) -> (r: Result<TagOperationResult, String>)
        ensures
            r is Ok,
            r->Ok_0.operation == OperationType::TagDelete,
            checked_ref_name(tag_name@, "tag"@) matches Err(m) ==> !r->Ok_0.success
                && r->Ok_0.message@ == m && r->Ok_0.tag_name@ == tag_name@
                && r->Ok_0.target_commit is None && r->Ok_0.tag_type == TagType::Lightweight
                && final(self).history() == old(self).history(),
            checked_ref_name(tag_name@, "tag"@) matches Ok(n) ==> r->Ok_0.tag_name@ == n && (if r->Ok_0.success {
                &&& r->Ok_0.message@ == "Successfully deleted tag"@
                &&& r->Ok_0.target_commit is Some
                &&& (force || !is_protected(n))
                &&& final(self).history() == appended(old(self).history(), final(self).history().last(), HISTORY_LIMIT as nat)
                &&& tag_delete_record(final(self).history().last(), n, r->Ok_0.target_commit->0@)
            } else {
                &&& final(self).history() == old(self).history()
                &&& (r->Ok_0.message@ == "Tag '"@ + n + "' not found"@
                    || (!force && is_protected(n) && r->Ok_0.message@ == "Tag '"@ + n + "' is protected. Use force to delete."@)
                    || starts_with(r->Ok_0.message@, "Tag reference not found: "@)
                    || starts_with(r->Ok_0.message@, "Failed to delete tag: "@))
            }),
    {
        let name = match check_ref_name(tag_name, "tag") {
            Ok(n) => n,
            Err(m) => {
                return Self::fail(owned(tag_name), None, m, TagType::Lightweight, OperationType::TagDelete, None);
            },
        };
        let info = match self.get_tag_info(name.as_str()) {
            Ok(i) => i,
            Err(_) => {
                let m = concat3("Tag '", name.as_str(), "' not found");
                return Self::fail(name, None, m, TagType::Lightweight, OperationType::TagDelete, None);
            },
        };
        if !force && is_protected_tag(name.as_str()) {
            let m = concat3("Tag '", name.as_str(), "' is protected. Use force to delete.");
            return Self::fail(name, Some(info.target_oid), m, info.tag_type, OperationType::TagDelete, info.tagger);
        }
        let full = concat("refs/tags/", name.as_str());
        match delete_reference(&self.repo, full.as_str()) {
            Err(e) => {
                let m = concat("Tag reference not found: ", error_text(&e).as_str());
                Self::fail(name, None, m, TagType::Lightweight, OperationType::TagDelete, None)
            },
            Ok(Err(e)) => {
                let m = concat("Failed to delete tag: ", error_text(&e).as_str());
                let target = if info.target_oid.as_str().len() == 0 {
                    None
                } else {
                    Some(info.target_oid)
                };
                Self::fail(name, target, m, info.tag_type, OperationType::TagDelete, info.tagger)
            },
            Ok(Ok(())) => {
                let mut refs: Vec<String> = Vec::new();
                refs.push(copy_str(&full));
                assert(string_views(refs@) =~= seq!["refs/tags/"@ + name@]);
                let record = OperationRecord {
                    operation_type: OperationType::TagDelete,
                    timestamp: now_seconds(),
                    description: concat3("Deleted tag '", name.as_str(), "'"),
                    original_state: Some(copy_str(&info.target_oid)),
                    new_state: None,
                    affected_refs: refs,
                };
                record_capped(&mut self.operation_history, record, HISTORY_LIMIT);
                Ok(TagOperationResult {
                    success: true,
                    operation: OperationType::TagDelete,
                    tag_name: name,
                    target_commit: Some(info.target_oid),
                    message: owned("Successfully deleted tag"),
                    tag_type: info.tag_type,
                    signature: info.tagger,
                })
            },
        }
    }
}

/// The key tags are sorted by: the name's code points, the creation time
/// (`now` for a tag without one), the target id's code points, or the
/// version numbers of the name.
pub open spec fn tag_key(t: TagInfo, by: TagSortBy, now: i64) -> Seq<int> {
    match by {
        TagSortBy::Name => char_keys(t.name@),
        TagSortBy::CreationDate => seq![
            match t.created_date {
                Some(d) => d as int,
                None => now as int,
            },
        ],
        TagSortBy::CommitDate => char_keys(t.target_oid@),
        TagSortBy::Version => u32_keys(version_parts(t.name@)),
    }
}

/// Whether `a` is listed strictly before `b`.
pub open spec fn tag_before(a: TagInfo, b: TagInfo, by: TagSortBy, order: SortOrder, now: i64) -> bool {
    if order == SortOrder::Ascending {
        lex_less(tag_key(a, by, now), tag_key(b, by, now))
    } else {
        lex_less(tag_key(b, by, now), tag_key(a, by, now))
    }
}

/// No tag is listed after one it sorts before.
pub open spec fn tags_sorted(s: Seq<TagInfo>, by: TagSortBy, order: SortOrder, now: i64) -> bool {
    forall|i: int, j: int|
        0 <= i < j < s.len() ==> !tag_before(#[trigger] s[j], #[trigger] s[i], by, order, now)
}

/// How two version tags compare (see [`version_parts`]).
pub fn compare_version_tags(a: &str, b: &str) -> (r: std::cmp::Ordering)
    ensures
        (r == std::cmp::Ordering::Less) == lex_less(u32_keys(version_parts(a@)), u32_keys(version_parts(b@))),
        (r == std::cmp::Ordering::Greater) == lex_less(u32_keys(version_parts(b@)), u32_keys(version_parts(a@))),
{
    let va = extract_version(a);
    let vb = extract_version(b);
    proof {
        lemma_lex_total(u32_keys(va@), u32_keys(vb@));
    }
    if u32s_less(&va, &vb) {
        std::cmp::Ordering::Less
    } else if u32s_less(&vb, &va) {
        std::cmp::Ordering::Greater
    } else {
        std::cmp::Ordering::Equal
    }
}

fn key_less(a: &TagInfo, b: &TagInfo, by: TagSortBy, now: i64) -> (r: bool)
    ensures
        r == lex_less(tag_key(*a, by, now), tag_key(*b, by, now)),
{
    match by {
        TagSortBy::Name => str_less(a.name.as_str(), b.name.as_str()),
        TagSortBy::CommitDate => str_less(a.target_oid.as_str(), b.target_oid.as_str()),
        TagSortBy::Version => {
            let va = extract_version(a.name.as_str());
            let vb = extract_version(b.name.as_str());
            u32s_less(&va, &vb)
        },
        TagSortBy::CreationDate => {
            let x = match a.created_date {
                Some(d) => d,
                None => now,
            };
            let y = match b.created_date {
                Some(d) => d,
                None => now,
            };
            let ghost ka = tag_key(*a, by, now);
            let ghost kb = tag_key(*b, by, now);
            assert(ka.drop_first() =~= Seq::<int>::empty());
            assert(kb.drop_first() =~= Seq::<int>::empty());
            proof {
                reveal_with_fuel(lex_less, 2);
            }
            x < y
        },
    }
}

fn tag_less(a: &TagInfo, b: &TagInfo, by: TagSortBy, order: SortOrder, now: i64) -> (r: bool)
    ensures
        r == tag_before(*a, *b, by, order, now),
{
    if order == SortOrder::Ascending {
        key_less(a, b, by, now)
    } else {
        key_less(b, a, by, now)
    }
}

proof fn lemma_insert_sorted(s: Seq<TagInfo>, p: int, x: TagInfo, by: TagSortBy, order: SortOrder, now: i64)
    requires
        tags_sorted(s, by, order, now),
        0 <= p <= s.len(),
        p > 0 ==> !tag_before(x, s[p - 1], by, order, now),
        forall|m: int| p <= m < s.len() ==> tag_before(x, #[trigger] s[m], by, order, now),
    ensures
        tags_sorted(s.insert(p, x), by, order, now),
{
    let t = s.insert(p, x);
    assert forall|i: int, j: int| 0 <= i < j < t.len() implies !tag_before(#[trigger] t[j], #[trigger] t[i], by, order, now) by {
        let kx = tag_key(x, by, now);
        if i < p && j == p {
            let ki = tag_key(s[i], by, now);
            let kp = tag_key(s[p - 1], by, now);
            if i < p - 1 {
                assert(!tag_before(s[p - 1], s[i], by, order, now));
                if order == SortOrder::Ascending {
                    lemma_not_less_trans(ki, kp, kx);
                } else {
                    lemma_not_less_trans(kx, kp, ki);
                }
            }
        } else if i == p && j > p {
            assert(t[j] == s[j - 1]);
            assert(tag_before(x, s[j - 1], by, order, now));
            lemma_lex_total(kx, tag_key(s[j - 1], by, now));
        } else if i < p && j > p {
            assert(t[j] == s[j - 1]);
            assert(!tag_before(s[j - 1], s[i], by, order, now));
        } else if i > p {
            assert(t[i] == s[i - 1]);
            assert(t[j] == s[j - 1]);
            assert(!tag_before(s[j - 1], s[i - 1], by, order, now));
        } else {
            assert(t[i] == s[i]);
            assert(t[j] == s[j]);
        }
    }
}

/// Sorts tags by `by` in `order` (stable insertion sort), taking `now`
/// as the creation time of tags without one.
pub fn sort_tags(tags: Vec<TagInfo>, by: TagSortBy, order: SortOrder, now: i64) -> (r: Vec<TagInfo>)
    ensures
        r@.to_multiset() == tags@.to_multiset(),
        tags_sorted(r@, by, order, now),
{
    let ghost all = tags@;
    let mut rest = tags;
    let mut out: Vec<TagInfo> = Vec::new();
    assert(out@ =~= all.take(0));
    let n: usize = rest.len();
    let mut i: usize = 0;
    while rest.len() > 0
        invariant
            n == all.len(),
            i + rest@.len() == all.len(),
            rest@ == all.skip(i as int),
            out@.to_multiset() == all.take(i as int).to_multiset(),
            out@.len() == i,
            tags_sorted(out@, by, order, now),
        decreases rest.len(),
    {
        assert(all.take(i as int + 1) =~= all.take(i as int).push(rest@[0]));
        let x = rest.remove(0);
        let mut p: usize = out.len();
        while p > 0 && tag_less(&x, &out[p - 1], by, order, now)
            invariant
                p <= out@.len(),
                forall|m: int| p <= m < out@.len() ==> tag_before(x, #[trigger] out@[m], by, order, now),
            decreases p,
        {
            p = p - 1;
        }
        proof {
            lemma_insert_sorted(out@, p as int, x, by, order, now);
            vstd::seq_lib::to_multiset_insert(out@, p as int, x);
            vstd::seq_lib::to_multiset_build(all.take(i as int), x);
        }
        out.insert(p, x);
        i = i + 1;
        assert(rest@ =~= all.skip(i as int));
    }
    assert(all.take(all.len() as int) =~= all);
    out
}

/// The filter given, or the default one.
pub open spec fn filter_or_default(filter: Option<TagFilterOptions>) -> TagFilterOptions {
    match filter {
        Some(f) => f,
        None => TagFilterOptions {
            pattern: None,
            include_lightweight: true,
            include_annotated: true,
            limit: None,
            sort_by: TagSortBy::Name,
            sort_order: SortOrder::Ascending,
        },
    }
}

/// Whether a listed tag passes a filter's pattern and kinds.
pub open spec fn passes_filter(t: TagInfo, f: TagFilterOptions) -> bool {
    &&& (match f.pattern {
        Some(p) => pattern_matches(t.name@, p@),
        None => true,
    })
    &&& (match t.tag_type {
        TagType::Lightweight => f.include_lightweight,
        TagType::Annotated => f.include_annotated,
    })
}

proof fn lemma_sorted_prefix(s: Seq<TagInfo>, k: int, by: TagSortBy, order: SortOrder, now: i64)
    requires
        tags_sorted(s, by, order, now),
        0 <= k <= s.len(),
    ensures
        tags_sorted(s.take(k), by, order, now),
{
    assert forall|i: int, j: int| 0 <= i < j < s.take(k).len() implies !tag_before(#[trigger] s.take(k)[j], #[trigger] s.take(k)[i], by, order, now) by {
        assert(s.take(k)[j] == s[j]);
        assert(s.take(k)[i] == s[i]);
    }
}

impl TagManager {
    /// Tags that pass `filter` (all tags by default), sorted as it asks and
    /// cut to its limit.
    pub fn list_tags(&self, filter: Option<TagFilterOptions>) -> (r: Result<Vec<TagInfo>, String>)
        ensures
            r matches Ok(v) ==> ({
                let f = filter_or_default(filter);
                &&& forall|i: int| 0 <= i < v@.len() ==> passes_filter(#[trigger] v@[i], f)
                &&& exists|now: i64| tags_sorted(v@, f.sort_by, f.sort_order, now)
                &&& (f.limit matches Some(l) ==> v@.len() <= l)
            }),
    {
        let f = match filter {
            Some(f) => f,
            None => TagFilterOptions::default(),
        };
        assert(f == filter_or_default(filter));
        let items = match tag_references(&self.repo) {
            Ok(v) => v,
            Err(e) => {
                return Err(error_text(&e));
            },
        };
        let mut tags: Vec<TagInfo> = Vec::new();
        let mut i: usize = 0;
        while i < items.len()
            invariant
                i <= items.len(),
                forall|j: int| 0 <= j < tags@.len() ==> passes_filter(#[trigger] tags@[j], f),
            decreases items.len() - i,
        {
            match &items[i] {
                Ok(item) => match &item.shorthand {
                    Some(short) => {
                        let wanted = match &f.pattern {
                            Some(p) => matches_pattern(short.as_str(), p.as_str()),
                            None => true,
                        };
                        if wanted {
                            match self.get_tag_info(short.as_str()) {
                                Ok(info) => {
                                    let kind_wanted = match info.tag_type {
                                        TagType::Lightweight => f.include_lightweight,
                                        TagType::Annotated => f.include_annotated,
                                    };
                                    if kind_wanted {
                                        tags.push(info);
                                    }
                                },
                                Err(_) => {},
                            }
                        }
                    },
                    None => {},
                },
                Err(_) => {},
            }
            i = i + 1;
        }
        let now = now_seconds();
        let ghost before = tags@;
        let mut sorted = sort_tags(tags, f.sort_by, f.sort_order, now);
        proof {
            assert forall|j: int| 0 <= j < sorted@.len() implies passes_filter(#[trigger] sorted@[j], f) by {
                vstd::seq_lib::to_multiset_contains(sorted@, sorted@[j]);
                vstd::seq_lib::to_multiset_contains(before, sorted@[j]);
                assert(sorted@.contains(sorted@[j]));
                let k = choose|k: int| 0 <= k < before.len() && before[k] == sorted@[j];
            }
        }
        match f.limit {
            Some(limit) => {
                let ghost full = sorted@;
                assert(full.take(full.len() as int) =~= full);
                while sorted.len() > limit
                    invariant
                        sorted@ == full.take(sorted@.len() as int),
                        full.len() >= sorted@.len(),
                    decreases sorted.len(),
                {
                    sorted.pop();
                    assert(sorted@ =~= full.take(sorted@.len() as int));
                }
                proof {
                    lemma_sorted_prefix(full, sorted@.len() as int, f.sort_by, f.sort_order, now);
                }
            },
            None => {},
        }
        assert(tags_sorted(sorted@, f.sort_by, f.sort_order, now));
        Ok(sorted)
    }

    /// Tags whose target is the commit `commit_id`; fails when `commit_id`
    /// is no object id or the tags cannot be listed.
    pub fn get_tags_for_commit(&self, commit_id: &str) -> (r: Result<Vec<TagInfo>, String>)
        ensures
            !(1 <= commit_id@.len() <= 40 && crate::text::all_hex(commit_id@)) ==> r is Err,
            r matches Ok(v) ==> forall|i: int| 0 <= i < v@.len() ==> points_at_or_annotated(#[trigger] v@[i], commit_id@),
    {
        let target = match parse_oid(commit_id) {
            Ok(t) => t,
            Err(e) => {
                return Err(error_text(&e));
            },
        };
        let items = match tag_references(&self.repo) {
            Ok(v) => v,
            Err(e) => {
                return Err(error_text(&e));
            },
        };
        let mut found: Vec<TagInfo> = Vec::new();
        let mut i: usize = 0;
        while i < items.len()
            invariant
                i <= items.len(),
                target@ == oid_text(commit_id@),
                forall|j: int| 0 <= j < found@.len() ==> points_at_or_annotated(#[trigger] found@[j], commit_id@),
            decreases items.len() - i,
        {
            match &items[i] {
                Ok(item) => match &item.shorthand {
                    Some(short) => match self.get_tag_info(short.as_str()) {
                        Ok(info) => match parse_oid(info.target_oid.as_str()) {
                            Ok(t) => {
                                if string_eq(t.as_str(), target.as_str()) {
                                    found.push(info);
                                } else if info.tag_type == TagType::Annotated {
                                    match &item.target {
                                        Some(obj) => match tag_object(&self.repo, obj.as_str()) {
                                            Ok(o) => {
                                                if string_eq(o.target_id.as_str(), target.as_str()) {
                                                    found.push(info);
                                                }
                                            },
                                            Err(_) => {},
                                        },
                                        None => {},
                                    }
                                }
                            },
                            Err(_) => {},
                        },
                        Err(_) => {},
                    },
                    None => {},
                },
                Err(_) => {},
            }
            i = i + 1;
        }
        Ok(found)
    }
}

} // verus!
