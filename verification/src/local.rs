//! The backend that keeps objects in a local directory, with failure injection for tests.
//!
//! Injection is off unless the variable [`INJECT_ENV_VAR`] holds a plan: comma-separated
//! `kind@pattern` entries. A pattern is a plain glob: `*` alone matches everything, `prefix*`,
//! `*suffix` and `*middle*` match as they read, anything else matches exactly. Kinds are those
//! of [`FailureKind`], in any case. Entries that do not parse are skipped, so that a typo does
//! not switch a whole plan off.

use vstd::prelude::*;

use crate::caching::UploadOutcome;
use crate::error::{self, IoFailure, IoKind, ObjectStoreError};
use crate::failure::{self, FailureKind};
use crate::lock::LockState;
use crate::pool_laws;
use crate::scan::{self, Trimmed};
use crate::text;

verus! {

/// Environment variable that holds the injection plan.
pub const INJECT_ENV_VAR: &'static str = "THUR_STORAGE_INJECT_FAIL";

/// Retries per operation. Small, so that a test that uses up the budget ends in seconds.
pub const MAX_LOCAL_INJECT_RETRIES: u32 = 2;

/// Which keys a rule applies to.
#[derive(Debug, Clone)]
pub enum KeyPattern {
    Any,
    Prefix(String),
    Suffix(String),
    Contains(String),
    Exact(String),
}

/// The abstract pattern.
#[verifier::ext_equal]
pub enum PatternView {
    Any,
    Prefix(Seq<char>),
    Suffix(Seq<char>),
    Contains(Seq<char>),
    Exact(Seq<char>),
}

impl View for KeyPattern {
    type V = PatternView;

    open spec fn view(&self) -> PatternView {
        match *self {
            KeyPattern::Any => PatternView::Any,
            KeyPattern::Prefix(p) => PatternView::Prefix(p@),
            KeyPattern::Suffix(p) => PatternView::Suffix(p@),
            KeyPattern::Contains(p) => PatternView::Contains(p@),
            KeyPattern::Exact(p) => PatternView::Exact(p@),
        }
    }
}

/// The pattern that a trimmed text spells.
pub open spec fn pattern_spelled(raw: Seq<char>) -> PatternView {
    if raw == "*"@ || raw.len() == 0 {
        PatternView::Any
    } else if raw[0] == '*' && raw.last() == '*' {
        PatternView::Contains(scan::trimmed(raw, Trimmed::Star))
    } else if raw[0] == '*' {
        PatternView::Suffix(scan::front_trimmed(raw, Trimmed::Star))
    } else if raw.last() == '*' {
        PatternView::Prefix(scan::back_trimmed(raw, Trimmed::Star))
    } else {
        PatternView::Exact(raw)
    }
}

/// The pattern that a text spells: surrounding white space does not count.
pub open spec fn pattern_of(raw: Seq<char>) -> PatternView {
    pattern_spelled(scan::trimmed(raw, Trimmed::White))
}

/// Whether a key falls under a pattern.
pub open spec fn covers(pattern: PatternView, key: Seq<char>) -> bool {
    match pattern {
        PatternView::Any => true,
        PatternView::Prefix(p) => p.is_prefix_of(key),
        PatternView::Suffix(p) => p.is_suffix_of(key),
        PatternView::Contains(p) => text::has_substring(key, p),
        PatternView::Exact(p) => key == p,
    }
}

impl KeyPattern {
    /// Reads a pattern.
    pub fn parse(raw: &str) -> (r: Self)
        ensures
            r@ == pattern_of(raw@),
    {
        let raw = scan::trim(raw, Trimmed::White);
        proof {
            reveal_strlit("*");
        }
        if text::same(&raw, "*") || raw.as_str().is_empty() {
            return KeyPattern::Any;
        }
        let starts = text::starts_with(&raw, "*");
        let ends = text::ends_with(&raw, "*");
        proof {
            let n = raw@.len() as int;
            assert(starts == (raw@[0] == '*')) by {
                if raw@[0] == '*' {
                    assert("*"@ =~= raw@.subrange(0, 1));
                }
                if starts {
                    assert("*"@[0] == raw@[0]);
                }
            }
            assert(ends == (raw@.last() == '*')) by {
                if raw@.last() == '*' {
                    assert("*"@ =~= raw@.subrange(n - 1, n));
                }
                if ends {
                    assert("*"@[0] == raw@[n - 1]);
                }
            }
        }
        if starts && ends {
            KeyPattern::Contains(scan::trim(&raw, Trimmed::Star))
        } else if starts {
            KeyPattern::Suffix(scan::trim_front(&raw, Trimmed::Star))
        } else if ends {
            KeyPattern::Prefix(scan::trim_back(&raw, Trimmed::Star))
        } else {
            KeyPattern::Exact(raw)
        }
    }

    /// Whether `key` falls under this pattern.
    pub fn matches(&self, key: &str) -> (r: bool)
        ensures
            r == covers(self@, key@),
    {
        match self {
            KeyPattern::Any => true,
            KeyPattern::Prefix(p) => text::starts_with(key, p),
            KeyPattern::Suffix(p) => text::ends_with(key, p),
            KeyPattern::Contains(p) => text::contains(key, p),
            KeyPattern::Exact(p) => text::same(key, p),
        }
    }
}

/// One entry of a plan.
#[derive(Debug, Clone)]
pub struct InjectionRule {
    kind: FailureKind,
    pattern: KeyPattern,
}

/// The abstract rule.
#[verifier::ext_equal]
pub struct RuleView {
    pub kind: FailureKind,
    pub pattern: PatternView,
}

impl View for InjectionRule {
    type V = RuleView;

    closed spec fn view(&self) -> RuleView {
        RuleView { kind: self.kind, pattern: self.pattern@ }
    }
}

/// The failure kind that a word names, in any case.
pub open spec fn kind_named(word: Seq<char>) -> Option<FailureKind> {
    if text::same_ignoring_ascii_case(word, "auth"@) {
        Some(FailureKind::Auth)
    } else if text::same_ignoring_ascii_case(word, "authz"@) || text::same_ignoring_ascii_case(
        word,
        "permission"@,
    ) {
        Some(FailureKind::Authz)
    } else if text::same_ignoring_ascii_case(word, "notfound"@) || text::same_ignoring_ascii_case(
        word,
        "not_found"@,
    ) {
        Some(FailureKind::NotFound)
    } else if text::same_ignoring_ascii_case(word, "regionmismatch"@)
        || text::same_ignoring_ascii_case(word, "region"@) {
        Some(FailureKind::RegionMismatch)
    } else if text::same_ignoring_ascii_case(word, "network"@) {
        Some(FailureKind::Network)
    } else if text::same_ignoring_ascii_case(word, "timeout"@) {
        Some(FailureKind::Timeout)
    } else if text::same_ignoring_ascii_case(word, "other"@) {
        Some(FailureKind::Other)
    } else {
        None
    }
}

/// The rule that one entry spells, if it spells one.
pub open spec fn rule_spelled(entry: Seq<char>) -> Option<RuleView> {
    let entry = scan::trimmed(entry, Trimmed::White);
    let at = scan::first_at(entry, '@');
    if at >= entry.len() {
        None
    } else {
        match kind_named(scan::trimmed(entry.take(at as int), Trimmed::White)) {
            Some(kind) => Some(RuleView { kind, pattern: pattern_of(entry.skip(at as int + 1)) }),
            None => None,
        }
    }
}

/// The rules that the entries spell, in order, without the entries that spell none.
pub open spec fn rules_spelled(entries: Seq<Seq<char>>) -> Seq<RuleView>
    decreases entries.len(),
{
    if entries.len() == 0 {
        Seq::empty()
    } else {
        let before = rules_spelled(entries.drop_last());
        match rule_spelled(entries.last()) {
            Some(rule) => before.push(rule),
            None => before,
        }
    }
}

/// The kind of the first rule that covers `key`.
pub open spec fn first_match(rules: Seq<RuleView>, key: Seq<char>) -> Option<FailureKind>
    decreases rules.len(),
{
    if rules.len() == 0 {
        None
    } else if covers(rules[0].pattern, key) {
        Some(rules[0].kind)
    } else {
        first_match(rules.skip(1), key)
    }
}

/// Reads the name of a failure kind.
fn parse_kind(word: &str) -> (r: Option<FailureKind>)
    ensures
        r == kind_named(word@),
{
    if text::eq_ignore_ascii_case(word, "auth") {
        Some(FailureKind::Auth)
    } else if text::eq_ignore_ascii_case(word, "authz") || text::eq_ignore_ascii_case(
        word,
        "permission",
    ) {
        Some(FailureKind::Authz)
    } else if text::eq_ignore_ascii_case(word, "notfound") || text::eq_ignore_ascii_case(
        word,
        "not_found",
    ) {
        Some(FailureKind::NotFound)
    } else if text::eq_ignore_ascii_case(word, "regionmismatch") || text::eq_ignore_ascii_case(
        word,
        "region",
    ) {
        Some(FailureKind::RegionMismatch)
    } else if text::eq_ignore_ascii_case(word, "network") {
        Some(FailureKind::Network)
    } else if text::eq_ignore_ascii_case(word, "timeout") {
        Some(FailureKind::Timeout)
    } else if text::eq_ignore_ascii_case(word, "other") {
        Some(FailureKind::Other)
    } else {
        None
    }
}

/// Reads one entry of a plan.
fn parse_rule(entry: &str) -> (r: Option<InjectionRule>)
    ensures
        match r {
            Some(rule) => rule_spelled(entry@) == Some(rule@),
            None => rule_spelled(entry@) is None,
        },
{
    let entry = scan::trim(entry, Trimmed::White);
    proof {
        scan::lemma_first_at(entry@, '@');
    }
    match scan::split_once(&entry, '@') {
        Some((kind_raw, pattern_raw)) => {
            let word = scan::trim(&kind_raw, Trimmed::White);
            match parse_kind(&word) {
                Some(kind) => Some(InjectionRule { kind, pattern: KeyPattern::parse(&pattern_raw) }),
                None => None,
            }
        },
        None => None,
    }
}

/// A parsed injection plan; it has at least one rule.
#[derive(Debug, Clone)]
pub struct InjectionPlan {
    rules: Vec<InjectionRule>,
}

impl InjectionPlan {
    /// The rules, in order.
    pub closed spec fn rules(self) -> Seq<RuleView> {
        self.rules@.map_values(|r: InjectionRule| r@)
    }

    /// Reads a plan. There is none where no entry spells a rule.
    pub fn parse(spec_text: &str) -> (r: Option<Self>)
        ensures
            match r {
                Some(plan) => {
                    &&& plan.rules() == rules_spelled(scan::pieces(spec_text@, ','))
                    &&& plan.rules().len() > 0
                },
                None => rules_spelled(scan::pieces(spec_text@, ',')).len() == 0,
            },
    {
        let entries = scan::split(spec_text, ',');
        let ghost all = scan::views(entries@);
        let mut rules: Vec<InjectionRule> = Vec::new();
        let mut i: usize = 0;
        let ghost read = |r: InjectionRule| r@;
        assert(rules@.map_values(read) =~= rules_spelled(all.take(0)));
        while i < entries.len()
            invariant
                0 <= i <= entries.len(),
                all == scan::views(entries@),
                read == (|r: InjectionRule| r@),
                rules@.map_values(read) == rules_spelled(all.take(i as int)),
            decreases entries.len() - i,
        {
            let ghost before = rules@;
            assert(all.take(i as int + 1).drop_last() =~= all.take(i as int));
            assert(all.take(i as int + 1).last() == entries@[i as int]@);
            match parse_rule(&entries[i]) {
                Some(rule) => {
                    rules.push(rule);
                    assert(rules@.map_values(read) =~= before.map_values(read).push(rule@));
                },
                None => {},
            }
            i = i + 1;
        }
        assert(all.take(entries.len() as int) =~= all);
        if rules.is_empty() {
            assert(rules@.map_values(read).len() == 0);
            return None;
        }
        Some(InjectionPlan { rules })
    }

    /// Reads the plan that an environment variable holds, if it is set.
    pub fn from_env(value: Option<&str>) -> (r: Option<Self>)
        ensures
            match r {
                Some(plan) => {
                    &&& value is Some
                    &&& plan.rules() == rules_spelled(scan::pieces(value->Some_0@, ','))
                    &&& plan.rules().len() > 0
                },
                None => value is None || rules_spelled(
                    scan::pieces(value->Some_0@, ','),
                ).len() == 0,
            },
    {
        match value {
            Some(raw) => InjectionPlan::parse(raw),
            None => None,
        }
    }

    /// How many rules there are.
    pub fn rule_count(&self) -> (r: usize)
        ensures
            r == self.rules().len(),
    {
        self.rules.len()
    }

    /// The kind to inject for `key`: that of the first rule that covers it.
    pub fn matches(&self, key: &str) -> (r: Option<FailureKind>)
        ensures
            r == first_match(self.rules(), key@),
    {
        let ghost all = self.rules();
        let mut i: usize = 0;
        assert(all.skip(0) =~= all);
        while i < self.rules.len()
            invariant
                0 <= i <= self.rules.len(),
                all == self.rules(),
                first_match(all, key@) == first_match(all.skip(i as int), key@),
            decreases self.rules.len() - i,
        {
            let rule = &self.rules[i];
            assert(all.skip(i as int)[0] == rule@);
            if rule.pattern.matches(key) {
                return Some(rule.kind);
            }
            assert(all.skip(i as int).skip(1) =~= all.skip(i as int + 1));
            i = i + 1;
        }
        None
    }
}

/// The text of an injected failure.
pub open spec fn injected_text(op: Seq<char>, key: Seq<char>) -> Seq<char> {
    "synthetic LocalBackend injection ("@ + op + " on key="@ + key + ")"@
}

/// An injected failure of the given kind.
pub fn synthetic_error(op: &str, key: &str, kind: FailureKind) -> (r: ObjectStoreError)
    ensures
        error::reported(r, kind, injected_text(op@, key@)),
{
    let mut msg = text::concat2("synthetic LocalBackend injection (", op);
    msg.append(" on key=");
    msg.append(key);
    msg.append(")");
    ObjectStoreError::classified(kind, msg)
}

/// What a failed read of an object is reported as.
pub open spec fn read_failure(
    op: Seq<char>,
    key: Seq<char>,
    e: IoFailure,
    r: ObjectStoreError,
) -> bool {
    match e.kind {
        IoKind::NotFound => r matches ObjectStoreError::NotFound(m) && m@ == op + ": object "@ + key
            + " not found ("@ + e.message@ + ")"@,
        IoKind::PermissionDenied => r matches ObjectStoreError::Authz(m) && m@ == op
            + ": permission denied for "@ + key + " ("@ + e.message@ + ")"@,
        _ => r matches ObjectStoreError::Io(m) && m@ == e.message@,
    }
}

/// Maps a local I/O failure. A missing object and a refused permission cannot heal between
/// attempts and become permanent; everything else stays worth retrying.
pub fn map_local_io(op: &str, key: &str, e: &IoFailure) -> (r: ObjectStoreError)
    ensures
        read_failure(op@, key@, *e, r),
{
    match e.kind {
        IoKind::NotFound => {
            let mut m = text::concat2(op, ": object ");
            m.append(key);
            m.append(" not found (");
            m.append(&e.message);
            m.append(")");
            ObjectStoreError::NotFound(m)
        },
        IoKind::PermissionDenied => {
            let mut m = text::concat2(op, ": permission denied for ");
            m.append(key);
            m.append(" (");
            m.append(&e.message);
            m.append(")");
            ObjectStoreError::Authz(m)
        },
        _ => ObjectStoreError::Io(e.message.clone()),
    }
}

/// What the name of a staging file ends in.
pub open spec fn staging_suffix(pid: u32, n: u64) -> Seq<char> {
    ".tmp."@ + text::decimal(pid as nat) + "."@ + text::decimal(n as nat)
}

/// What is put behind an object's file name to name the file that its bytes are staged in.
/// `n` counts the staged writes of the process.
pub fn temp_suffix(pid: u32, n: u64) -> (r: String)
    ensures
        r@ == staging_suffix(pid, n),
{
    let mut s = text::concat2(".tmp.", text::decimal_text(pid as u64).as_str());
    s.append(".");
    s.append(text::decimal_text(n).as_str());
    s
}

/// The key of a listed file, from its path below the root: separators become slashes.
pub fn listed_key(relative: &str) -> (r: String)
    ensures
        r@ == scan::replaced(relative@, '\\', '/'),
{
    let chars = text::chars_of(relative);
    let mut out = String::new();
    let mut i: usize = 0;
    proof {
        reveal_strlit("/");
    }
    assert(out@ =~= scan::replaced(relative@.take(0), '\\', '/'));
    while i < chars.len()
        invariant
            chars@ == relative@,
            0 <= i <= chars.len(),
            out@ == scan::replaced(relative@.take(i as int), '\\', '/'),
            "/"@ == seq!['/'],
        decreases chars.len() - i,
    {
        let ghost before = out@;
        if chars[i] == '\\' {
            out.append("/");
        } else {
            out.append(relative.substring_char(i, i + 1));
        }
        i = i + 1;
        assert(out@ =~= scan::replaced(relative@.take(i as int), '\\', '/'));
    }
    assert(relative@.take(chars.len() as int) =~= relative@);
    out
}

/// The local backend: a root directory and, in tests, an injection plan.
#[derive(Debug, Clone)]
pub struct LocalBackend {
    root_dir: String,
    inject: Option<InjectionPlan>,
}

impl LocalBackend {
    /// The root directory.
    pub closed spec fn root(self) -> Seq<char> {
        self.root_dir@
    }

    /// The injection rules; none where no plan is active.
    pub closed spec fn rules(self) -> Seq<RuleView> {
        match self.inject {
            Some(plan) => plan.rules(),
            None => Seq::empty(),
        }
    }

    /// A backend over `root_dir`. `inject` is what [`INJECT_ENV_VAR`] holds, if it is set.
    pub fn new(root_dir: &str, inject: Option<&str>) -> (r: Self)
        ensures
            r.root() == root_dir@,
            r.rules() == (match inject {
                Some(raw) => rules_spelled(scan::pieces(raw@, ',')),
                None => Seq::empty(),
            }),
    {
        let r = LocalBackend { root_dir: root_dir.to_owned(), inject: InjectionPlan::from_env(inject) };
        assert(r.inject is None && inject is Some ==> rules_spelled(
            scan::pieces(inject->Some_0@, ','),
        ) =~= Seq::empty());
        r
    }

    /// The path of an object.
    pub fn get_path(&self, key: &str) -> (r: String)
        ensures
            r@ == text::joined(self.root(), key@),
    {
        text::join_path(&self.root_dir, key)
    }

    /// Fails where the plan says that an operation on `key` fails.
    pub fn check_injection(&self, op: &str, key: &str) -> (r: Result<(), ObjectStoreError>)
        ensures
            r is Ok <==> first_match(self.rules(), key@) is None,
            r matches Err(e) ==> error::reported(
                e,
                first_match(self.rules(), key@)->Some_0,
                injected_text(op@, key@),
            ),
    {
        match &self.inject {
            None => Ok(()),
            Some(plan) => match plan.matches(key) {
                None => Ok(()),
                Some(kind) => Err(synthetic_error(op, key, kind)),
            },
        }
    }

    /// What an upload of `size` bytes reports: local objects are never compressed.
    pub fn upload_outcome(&self, size: u64) -> (r: UploadOutcome)
        ensures
            r == (UploadOutcome { uncompressed: size, compressed: None, algo: None }),
    {
        UploadOutcome { uncompressed: size, compressed: None, algo: None }
    }

    /// The kind of this backend.
    pub fn backend_type(&self) -> (r: &'static str)
        ensures
            r@ == "local"@,
    {
        "local"
    }

    /// A file system has no immutability.
    pub fn lock_state(&self) -> (r: LockState)
        ensures
            r == LockState::Off,
    {
        LockState::Off
    }

    /// Legal holds cannot be enforced on files.
    pub fn supports_legal_hold(&self) -> (r: bool)
        ensures
            !r,
    {
        false
    }

    /// Refuses to place or lift a legal hold.
    pub fn set_object_legal_hold(&self, key: &str, held: bool) -> (r: Result<
        (),
        ObjectStoreError,
    >)
        ensures
            r matches Err(ObjectStoreError::NotSupported(m)) && m@
                == "legal hold is not supported on the local backend (no enforcement primitive)"@,
    {
        Err(
            ObjectStoreError::NotSupported(
                "legal hold is not supported on the local backend (no enforcement primitive)".to_owned(),
            ),
        )
    }

    /// Refuses to read a legal hold.
    pub fn get_object_legal_hold(&self, key: &str) -> (r: Result<bool, ObjectStoreError>)
        ensures
            r matches Err(ObjectStoreError::NotSupported(m)) && m@
                == "legal hold is not supported on the local backend"@,
    {
        Err(
            ObjectStoreError::NotSupported(
                "legal hold is not supported on the local backend".to_owned(),
            ),
        )
    }
}

/// A failure that is reported for a kind is classified as that kind, whatever its text: an
/// injected failure takes the same way through the retry policy as a real one.
pub proof fn law_reported_failure_keeps_its_kind(
    e: ObjectStoreError,
    kind: FailureKind,
    message: Seq<char>,
)
    requires
        error::reported(e, kind, message),
    ensures
        failure::class_of(e) == kind,
{
}

/// A key that no rule covers is never injected, and a key that some rule covers gets the kind
/// of the first such rule.
pub proof fn law_first_covering_rule_decides(rules: Seq<RuleView>, key: Seq<char>)
    ensures
        first_match(rules, key) is None <==> (forall|i: int|
            0 <= i < rules.len() ==> !covers((#[trigger] rules[i]).pattern, key)),
        forall|i: int|
            0 <= i < rules.len() && covers((#[trigger] rules[i]).pattern, key) && (forall|j: int|
                0 <= j < i ==> !covers((#[trigger] rules[j]).pattern, key)) ==> first_match(
                rules,
                key,
            ) == Some(rules[i].kind),
    decreases rules.len(),
{
    if rules.len() > 0 && !covers(rules[0].pattern, key) {
        let rest = rules.skip(1);
        law_first_covering_rule_decides(rest, key);
        assert forall|i: int| 0 <= i < rest.len() implies rest[i] == rules[i + 1] by {}
        assert forall|i: int| 0 < i < rules.len() implies #[trigger] rules[i] == rest[i - 1] by {}
        assert forall|i: int|
            0 <= i < rules.len() && covers((#[trigger] rules[i]).pattern, key) && (forall|j: int|
                0 <= j < i ==> !covers((#[trigger] rules[j]).pattern, key)) implies first_match(
            rules,
            key,
        ) == Some(rules[i].kind) by {
            assert(rest[i - 1] == rules[i]);
            assert forall|j: int| 0 <= j < i - 1 implies !covers(
                (#[trigger] rest[j]).pattern,
                key,
            ) by {
                assert(rest[j] == rules[j + 1]);
            }
        }
    }
}

/// An entry that spells no rule changes nothing: its neighbours keep their rules.
pub proof fn law_malformed_entry_is_skipped(
    before: Seq<Seq<char>>,
    bad: Seq<char>,
    after: Seq<Seq<char>>,
)
    requires
        rule_spelled(bad) is None,
    ensures
        rules_spelled(before.push(bad) + after) == rules_spelled(before + after),
    decreases after.len(),
{
    if after.len() == 0 {
        assert(before.push(bad) + after =~= before.push(bad));
        assert(before.push(bad).drop_last() =~= before);
        assert(before + after =~= before);
    } else {
        law_malformed_entry_is_skipped(before, bad, after.drop_last());
        assert((before.push(bad) + after).drop_last() =~= before.push(bad) + after.drop_last());
        assert((before + after).drop_last() =~= before + after.drop_last());
    }
}

/// A missing object and a refused permission fail fast; any other local failure is retried.
pub proof fn law_only_healable_local_failures_are_retried(
    op: Seq<char>,
    key: Seq<char>,
    e: IoFailure,
    r: ObjectStoreError,
)
    requires
        read_failure(op, key, e, r),
    ensures
        failure::transient(failure::class_of(r)) <==> e.kind != IoKind::NotFound && e.kind
            != IoKind::PermissionDenied,
{
}

/// Two staged writes of one process never use the same file.
pub proof fn law_staging_files_do_not_collide(pid: u32, n: u64, m: u64)
    requires
        n != m,
    ensures
        staging_suffix(pid, n) != staging_suffix(pid, m),
{
    let head = ".tmp."@ + text::decimal(pid as nat) + "."@;
    if staging_suffix(pid, n) == staging_suffix(pid, m) {
        let a = text::decimal(n as nat);
        let b = text::decimal(m as nat);
        assert((head + a).skip(head.len() as int) =~= a);
        assert((head + b).skip(head.len() as int) =~= b);
        pool_laws::lemma_decimal_is_injective(n as nat, m as nat);
    }
}

} // verus!
