//! Laws of the local backend: what an injection plan means, and where objects stand.

use vstd::prelude::*;

use crate::caching::UploadOutcome;
use crate::error::{IoFailure, IoKind, ObjectStoreError};
use crate::failure::{self, FailureKind};
use crate::local::{self, InjectionPlan, KeyPattern, LocalBackend};
use crate::lock::LockState;
use crate::scan::{self, Trimmed};
use crate::text;

verus! {

/// Whether a text begins and ends with visible ASCII characters other than an asterisk.
pub open spec fn plain(p: Seq<char>) -> bool {
    &&& p.len() > 0
    &&& '!' <= p[0] <= '~'
    &&& '!' <= p.last() <= '~'
    &&& p[0] != '*'
    &&& p.last() != '*'
}

/// Nothing is trimmed off a text whose ends are not of the class.
proof fn lemma_untrimmed(s: Seq<char>, class: Trimmed)
    requires
        s.len() > 0 ==> !scan::in_class(s[0], class) && !scan::in_class(s.last(), class),
    ensures
        scan::front_trimmed(s, class) == s,
        scan::back_trimmed(s, class) == s,
        scan::trimmed(s, class) == s,
{
}

/// One asterisk before a text is trimmed off, and one behind it.
proof fn lemma_stars(p: Seq<char>)
    requires
        plain(p),
    ensures
        scan::front_trimmed(seq!['*'] + p, Trimmed::Star) == p,
        scan::back_trimmed(p + seq!['*'], Trimmed::Star) == p,
        scan::trimmed(seq!['*'] + p + seq!['*'], Trimmed::Star) == p,
{
    let a = seq!['*'] + p;
    assert(a.skip(1) =~= p);
    lemma_untrimmed(p, Trimmed::Star);
    assert(scan::front_trimmed(a, Trimmed::Star) == scan::front_trimmed(a.skip(1), Trimmed::Star));
    let b = p + seq!['*'];
    assert(b.drop_last() =~= p);
    assert(scan::back_trimmed(b, Trimmed::Star) == scan::back_trimmed(
        b.drop_last(),
        Trimmed::Star,
    ));
    let c = seq!['*'] + p + seq!['*'];
    assert(c.skip(1) =~= b);
    assert(scan::front_trimmed(c, Trimmed::Star) == scan::front_trimmed(c.skip(1), Trimmed::Star));
    assert(b[0] == p[0]);
    assert(scan::front_trimmed(b, Trimmed::Star) == b);
}

/// A pattern without an asterisk at its ends stands for the key that it spells, `p*` for the
/// keys that begin with `p`, `*p` for those that end in it, `*p*` for those that hold it, and
/// `*` and the empty pattern for all.
pub proof fn law_patterns_match_as_they_read(
    p: Seq<char>,
    raw: &str,
    pattern: KeyPattern,
    key: &str,
    r: bool,
)
    requires
        call_ensures(KeyPattern::parse, (raw,), pattern),
        call_ensures(KeyPattern::matches, (&pattern, key), r),
    ensures
        raw@.len() == 0 ==> r,
        raw@ == seq!['*'] ==> r,
        plain(p) && raw@ == p ==> (r <==> key@ == p),
        plain(p) && raw@ == p + seq!['*'] ==> (r <==> p.len() <= key@.len() && key@.take(
            p.len() as int,
        ) == p),
        plain(p) && raw@ == seq!['*'] + p ==> (r <==> p.len() <= key@.len() && key@.skip(
            key@.len() - p.len(),
        ) == p),
        plain(p) && raw@ == seq!['*'] + p + seq!['*'] ==> (r <==> exists|i: int|
            0 <= i <= key@.len() - p.len() && #[trigger] key@.subrange(i, i + p.len()) == p),
{
    reveal_strlit("*");
    assert("*"@ =~= seq!['*']);
    let t = scan::trimmed(raw@, Trimmed::White);
    if raw@.len() == 0 {
        assert(t.len() == 0);
    }
    if raw@ == seq!['*'] {
        lemma_untrimmed(raw@, Trimmed::White);
    }
    if plain(p) {
        lemma_stars(p);
        let n = p.len() as int;
        if raw@ == p {
            lemma_untrimmed(raw@, Trimmed::White);
        }
        if raw@ == p + seq!['*'] {
            assert(raw@[0] == p[0] && raw@.last() == '*');
            lemma_untrimmed(raw@, Trimmed::White);
            assert(n <= key@.len() ==> key@.take(n) =~= key@.subrange(0, n));
        }
        if raw@ == seq!['*'] + p {
            assert(raw@[0] == '*' && raw@.last() == p.last());
            lemma_untrimmed(raw@, Trimmed::White);
            assert(n <= key@.len() ==> key@.skip(key@.len() - n) =~= key@.subrange(
                key@.len() - n,
                key@.len() as int,
            ));
        }
        if raw@ == seq!['*'] + p + seq!['*'] {
            assert(raw@[0] == '*' && raw@.last() == '*');
            lemma_untrimmed(raw@, Trimmed::White);
            if r {
                let i = choose|i: int| #[trigger] text::occurs_at(key@, p, i);
                assert(key@.subrange(i, i + p.len()) == p);
            }
            if exists|i: int|
                0 <= i <= key@.len() - p.len() && #[trigger] key@.subrange(i, i + p.len()) == p {
                let i = choose|i: int|
                    0 <= i <= key@.len() - p.len() && #[trigger] key@.subrange(i, i + p.len()) == p;
                assert(text::occurs_at(key@, p, i));
            }
        }
    }
}

/// Spaces round a pattern do not count.
pub proof fn law_spaces_round_a_pattern(
    p: Seq<char>,
    raw: &str,
    spaced: &str,
    a: KeyPattern,
    b: KeyPattern,
    key: &str,
    ra: bool,
    rb: bool,
)
    requires
        plain(p),
        raw@ == p,
        spaced@ == seq![' '] + p + seq![' '],
        call_ensures(KeyPattern::parse, (raw,), a),
        call_ensures(KeyPattern::parse, (spaced,), b),
        call_ensures(KeyPattern::matches, (&a, key), ra),
        call_ensures(KeyPattern::matches, (&b, key), rb),
    ensures
        ra == rb,
{
    lemma_untrimmed(p, Trimmed::White);
    let c = spaced@;
    let d = p + seq![' '];
    assert(c.skip(1) =~= d);
    assert(scan::front_trimmed(c, Trimmed::White) == scan::front_trimmed(
        c.skip(1),
        Trimmed::White,
    ));
    assert(d[0] == p[0]);
    assert(scan::front_trimmed(d, Trimmed::White) == d);
    assert(d.drop_last() =~= p);
    assert(scan::back_trimmed(d, Trimmed::White) == scan::back_trimmed(
        d.drop_last(),
        Trimmed::White,
    ));
}

/// Whether a word is `w`, which is in lower case, with some of its letters in upper case.
pub open spec fn spells(word: Seq<char>, w: Seq<char>) -> bool {
    word.len() == w.len() && forall|i: int|
        0 <= i < w.len() ==> (#[trigger] word[i] == w[i] || ('A' <= word[i] <= 'Z' && w[i] as u32
            == word[i] as u32 + 32))
}

/// Whether a word names a failure kind.
pub open spec fn names(word: Seq<char>, kind: FailureKind) -> bool {
    match kind {
        FailureKind::Auth => spells(word, "auth"@),
        FailureKind::Authz => spells(word, "authz"@) || spells(word, "permission"@),
        FailureKind::NotFound => spells(word, "notfound"@) || spells(word, "not_found"@),
        FailureKind::RegionMismatch => spells(word, "regionmismatch"@) || spells(word, "region"@),
        FailureKind::Network => spells(word, "network"@),
        FailureKind::Timeout => spells(word, "timeout"@),
        FailureKind::Other => spells(word, "other"@),
    }
}

proof fn lemma_spells(word: Seq<char>, w: Seq<char>)
    requires
        forall|i: int| 0 <= i < w.len() ==> !('A' <= #[trigger] w[i] <= 'Z'),
    ensures
        spells(word, w) <==> text::same_ignoring_ascii_case(word, w),
{
    assert forall|x: char, y: char| !('A' <= y <= 'Z') implies (#[trigger] text::ascii_lower(x)
        == #[trigger] text::ascii_lower(y)) == (x == y || ('A' <= x <= 'Z' && y as u32 == x as u32
        + 32)) by {}
    if text::same_ignoring_ascii_case(word, w) {
        assert forall|i: int| 0 <= i < w.len() implies (#[trigger] word[i] == w[i] || ('A'
            <= word[i] <= 'Z' && w[i] as u32 == word[i] as u32 + 32)) by {
            assert(!('A' <= w[i] <= 'Z'));
            assert(text::ascii_lower(word[i]) == text::ascii_lower(w[i]));
        }
    }
    if spells(word, w) {
        assert forall|i: int| 0 <= i < word.len() implies text::ascii_lower(#[trigger] word[i])
            == text::ascii_lower(w[i]) by {
            assert(!('A' <= w[i] <= 'Z'));
        }
    }
}

/// The words are the names, each of one kind.
proof fn lemma_names(word: Seq<char>, kind: FailureKind)
    ensures
        names(word, kind) <==> local::kind_named(word) == Some(kind),
{
    reveal_strlit("auth");
    reveal_strlit("authz");
    reveal_strlit("permission");
    reveal_strlit("notfound");
    reveal_strlit("not_found");
    reveal_strlit("regionmismatch");
    reveal_strlit("region");
    reveal_strlit("network");
    reveal_strlit("timeout");
    reveal_strlit("other");
    lemma_spells(word, "auth"@);
    lemma_spells(word, "authz"@);
    lemma_spells(word, "permission"@);
    lemma_spells(word, "notfound"@);
    lemma_spells(word, "not_found"@);
    lemma_spells(word, "regionmismatch"@);
    lemma_spells(word, "region"@);
    lemma_spells(word, "network"@);
    lemma_spells(word, "timeout"@);
    lemma_spells(word, "other"@);
    if spells(word, "authz"@) && spells(word, "other"@) {
        assert(word[0] == "authz"@[0] || word[0] as u32 + 32 == "authz"@[0] as u32);
        assert(word[0] == "other"@[0] || word[0] as u32 + 32 == "other"@[0] as u32);
    }
    if spells(word, "network"@) && spells(word, "timeout"@) {
        assert(word[0] == "network"@[0] || word[0] as u32 + 32 == "network"@[0] as u32);
        assert(word[0] == "timeout"@[0] || word[0] as u32 + 32 == "timeout"@[0] as u32);
    }
}

/// The rule of an entry that is made of a word and a key.
proof fn lemma_one_entry(word: Seq<char>, p: Seq<char>)
    requires
        word.len() > 0,
        forall|i: int|
            0 <= i < word.len() ==> ('a' <= #[trigger] word[i] <= 'z' || 'A' <= word[i] <= 'Z'
                || word[i] == '_'),
        plain(p),
        forall|i: int| 0 <= i < p.len() ==> #[trigger] p[i] != ',',
    ensures
        scan::pieces(word + seq!['@'] + p, ',') == seq![word + seq!['@'] + p],
        local::rule_spelled(word + seq!['@'] + p) == (match local::kind_named(word) {
            Some(kind) => Some(local::RuleView { kind, pattern: local::PatternView::Exact(p) }),
            None => None,
        }),
{
    let e = word + seq!['@'] + p;
    let n = word.len() as int;
    assert(e[0] == word[0] && e.last() == p.last());
    lemma_untrimmed(e, Trimmed::White);
    assert(word.last() == word[n - 1]);
    lemma_untrimmed(word, Trimmed::White);
    lemma_untrimmed(p, Trimmed::White);
    scan::lemma_first_at(e, '@');
    assert(e[n] == '@');
    let at = scan::first_at(e, '@') as int;
    if at < n {
        assert(e[at] == word[at]);
    }
    assert(at == n);
    assert(e.take(n) =~= word);
    assert(e.skip(n + 1) =~= p);
    reveal_strlit("*");
    assert(p != "*"@) by {
        if p == "*"@ {
            assert(p[0] == '*');
        }
    }
    scan::lemma_first_at(e, ',');
    let c = scan::first_at(e, ',') as int;
    if c < e.len() {
        if c < n {
            assert(e[c] == word[c]);
        } else if c > n {
            assert(e[c] == p[c - n - 1]);
        }
    }
}

/// An entry names a failure kind, in any case, and a key; an operation on that key then fails
/// with that kind, and none on another key fails. A word that names no kind makes no plan.
pub proof fn law_entries_mean_what_they_say(
    word: Seq<char>,
    p: Seq<char>,
    kind: FailureKind,
    entry: &str,
    plan: Option<InjectionPlan>,
    key: &str,
    r: Option<FailureKind>,
)
    requires
        word.len() > 0,
        forall|i: int|
            0 <= i < word.len() ==> ('a' <= #[trigger] word[i] <= 'z' || 'A' <= word[i] <= 'Z'
                || word[i] == '_'),
        plain(p),
        forall|i: int| 0 <= i < p.len() ==> #[trigger] p[i] != ',',
        entry@ == word + seq!['@'] + p,
        call_ensures(InjectionPlan::parse, (entry,), plan),
        plan is Some ==> call_ensures(InjectionPlan::matches, (&plan->Some_0, key), r),
    ensures
        names(word, kind) && key@ == p ==> plan is Some && r == Some(kind),
        names(word, kind) && key@ != p ==> plan is Some && r is None,
        plan is None <==> forall|k: FailureKind| !#[trigger] names(word, k),
{
    lemma_one_entry(word, p);
    lemma_names(word, kind);
    let e = entry@;
    let all = seq![e];
    assert(all.drop_last() =~= Seq::<Seq<char>>::empty());
    assert(local::rules_spelled(all.drop_last()) =~= Seq::<local::RuleView>::empty());
    assert(all.last() == e);
    if plan is None {
        assert forall|k: FailureKind| !#[trigger] names(word, k) by {
            lemma_names(word, k);
        }
    } else {
        let rules = plan->Some_0.rules();
        assert(rules.len() == 1);
        local::law_first_covering_rule_decides(rules, key@);
        let k = rules[0].kind;
        lemma_names(word, k);
        assert(names(word, k));
        if key@ == p {
            assert(local::covers(rules[0].pattern, key@));
        }
    }
}

/// The pieces of two texts with a separator between them.
proof fn lemma_pieces_of_both(a: Seq<char>, b: Seq<char>, c: char)
    ensures
        scan::pieces(a + seq![c] + b, c) == scan::pieces(a, c) + scan::pieces(b, c),
    decreases a.len(),
{
    let s = a + seq![c] + b;
    let at = scan::first_at(a, c) as int;
    let at_s = scan::first_at(s, c) as int;
    scan::lemma_first_at(a, c);
    scan::lemma_first_at(s, c);
    assert(s[a.len() as int] == c);
    if at < a.len() {
        assert(s[at] == c);
        if at_s < at {
            assert(s[at_s] == a[at_s]);
        }
        assert(at_s == at);
        assert(s.take(at) =~= a.take(at));
        assert(s.skip(at + 1) =~= a.skip(at + 1) + seq![c] + b);
        lemma_pieces_of_both(a.skip(at + 1), b, c);
        assert(scan::pieces(s, c) =~= scan::pieces(a, c) + scan::pieces(b, c));
    } else {
        if at_s < a.len() {
            assert(s[at_s] == a[at_s]);
        }
        assert(at_s == a.len());
        assert(s.take(at_s) =~= a);
        assert(s.skip(at_s + 1) =~= b);
        assert(scan::pieces(s, c) =~= scan::pieces(a, c) + scan::pieces(b, c));
    }
}

proof fn lemma_rules_of_both(a: Seq<Seq<char>>, b: Seq<Seq<char>>)
    ensures
        local::rules_spelled(a + b) == local::rules_spelled(a) + local::rules_spelled(b),
    decreases b.len(),
{
    if b.len() == 0 {
        assert(a + b =~= a);
        assert(local::rules_spelled(a) + local::rules_spelled(b) =~= local::rules_spelled(a));
    } else {
        assert((a + b).drop_last() =~= a + b.drop_last());
        assert((a + b).last() == b.last());
        lemma_rules_of_both(a, b.drop_last());
        assert(local::rules_spelled(a + b) =~= local::rules_spelled(a) + local::rules_spelled(b));
    }
}

proof fn lemma_match_in_both(a: Seq<local::RuleView>, b: Seq<local::RuleView>, key: Seq<char>)
    ensures
        local::first_match(a + b, key) == (if local::first_match(a, key) is Some {
            local::first_match(a, key)
        } else {
            local::first_match(b, key)
        }),
    decreases a.len(),
{
    if a.len() == 0 {
        assert(a + b =~= b);
    } else {
        assert((a + b)[0] == a[0]);
        assert((a + b).skip(1) =~= a.skip(1) + b);
        lemma_match_in_both(a.skip(1), b, key);
    }
}

/// A plan is read entry by entry, the first that covers a key decides, and what spells no rule
/// changes nothing: of two plans with a comma between them, the second speaks where the first
/// is silent.
pub proof fn law_plans_follow_each_other(
    first: &str,
    second: &str,
    both: &str,
    a: Option<InjectionPlan>,
    b: Option<InjectionPlan>,
    ab: Option<InjectionPlan>,
    key: &str,
    ra: Option<FailureKind>,
    rb: Option<FailureKind>,
    rab: Option<FailureKind>,
)
    requires
        both@ == first@ + seq![','] + second@,
        call_ensures(InjectionPlan::parse, (first,), a),
        call_ensures(InjectionPlan::parse, (second,), b),
        call_ensures(InjectionPlan::parse, (both,), ab),
        a is Some ==> call_ensures(InjectionPlan::matches, (&a->Some_0, key), ra),
        b is Some ==> call_ensures(InjectionPlan::matches, (&b->Some_0, key), rb),
        ab is Some ==> call_ensures(InjectionPlan::matches, (&ab->Some_0, key), rab),
    ensures
        ab is None <==> a is None && b is None,
        a is Some && ra is Some ==> rab == ra,
        (a is None || ra is None) && b is Some ==> rab == rb,
        a is Some && ra is None && b is None ==> rab is None,
{
    let x = local::rules_spelled(scan::pieces(first@, ','));
    let y = local::rules_spelled(scan::pieces(second@, ','));
    lemma_pieces_of_both(first@, second@, ',');
    lemma_rules_of_both(scan::pieces(first@, ','), scan::pieces(second@, ','));
    lemma_match_in_both(x, y, key@);
}

/// Two plans with a comma between them have as many rules as the two together.
pub proof fn law_rules_are_counted(
    first: &str,
    second: &str,
    both: &str,
    a: InjectionPlan,
    b: InjectionPlan,
    ab: Option<InjectionPlan>,
    na: usize,
    nb: usize,
    nab: usize,
)
    requires
        both@ == first@ + seq![','] + second@,
        call_ensures(InjectionPlan::parse, (first,), Some(a)),
        call_ensures(InjectionPlan::parse, (second,), Some(b)),
        call_ensures(InjectionPlan::parse, (both,), ab),
        call_ensures(InjectionPlan::rule_count, (&a,), na),
        call_ensures(InjectionPlan::rule_count, (&b,), nb),
        ab is Some ==> call_ensures(InjectionPlan::rule_count, (&ab->Some_0,), nab),
    ensures
        na > 0,
        ab is Some,
        nab == na + nb,
{
    lemma_pieces_of_both(first@, second@, ',');
    lemma_rules_of_both(scan::pieces(first@, ','), scan::pieces(second@, ','));
}

/// The variable that is not set makes no plan, and one that is set the plan that it spells.
pub proof fn law_plans_come_from_the_variable(
    value: Option<&str>,
    read: Option<InjectionPlan>,
    parsed: Option<InjectionPlan>,
    key: &str,
    ra: Option<FailureKind>,
    rb: Option<FailureKind>,
)
    requires
        call_ensures(InjectionPlan::from_env, (value,), read),
        value is Some ==> call_ensures(InjectionPlan::parse, (value->Some_0,), parsed),
        read is Some ==> call_ensures(InjectionPlan::matches, (&read->Some_0, key), ra),
        parsed is Some ==> call_ensures(InjectionPlan::matches, (&parsed->Some_0, key), rb),
    ensures
        value is None ==> read is None,
        value is Some ==> (read is Some <==> parsed is Some),
        value is Some && read is Some ==> ra == rb,
{
}

/// An operation on a local object fails by injection exactly if the plan covers its key. The
/// failure is of the kind that the plan names.
pub proof fn law_injected_failures(
    root: &str,
    raw: Option<&str>,
    backend: LocalBackend,
    plan: Option<InjectionPlan>,
    op: &str,
    key: &str,
    kind: Option<FailureKind>,
    r: Result<(), ObjectStoreError>,
    class: FailureKind,
)
    requires
        call_ensures(LocalBackend::new, (root, raw), backend),
        raw is Some ==> call_ensures(InjectionPlan::parse, (raw->Some_0,), plan),
        plan is Some ==> call_ensures(InjectionPlan::matches, (&plan->Some_0, key), kind),
        call_ensures(LocalBackend::check_injection, (&backend, op, key), r),
        r is Err ==> call_ensures(failure::classify, (&r->Err_0,), class),
    ensures
        raw is None ==> r is Ok,
        raw is Some && plan is None ==> r is Ok,
        raw is Some && plan is Some && kind is None ==> r is Ok,
        raw is Some && plan is Some && kind is Some ==> r is Err && Some(class) == kind,
{
    if raw is Some && plan is None {
        assert(local::rules_spelled(scan::pieces(raw->Some_0@, ',')) =~= Seq::empty());
    }
}

/// The message of an injected failure, which is of the kind that was asked for.
pub proof fn law_message_of_an_injected_failure(
    op: &str,
    key: &str,
    kind: FailureKind,
    r: ObjectStoreError,
    class: FailureKind,
)
    requires
        call_ensures(local::synthetic_error, (op, key, kind), r),
        call_ensures(failure::classify, (&r,), class),
    ensures
        class == kind,
        ({
            let m = "synthetic LocalBackend injection ("@ + op@ + " on key="@ + key@ + ")"@;
            match r {
                ObjectStoreError::Auth(s) => s@ == m,
                ObjectStoreError::Authz(s) => s@ == m,
                ObjectStoreError::NotFound(s) => s@ == m,
                ObjectStoreError::RegionMismatch(s) => s@ == m,
                ObjectStoreError::Network(s) => s@ == m,
                ObjectStoreError::Timeout(s) => s@ == m,
                ObjectStoreError::Other(s) => s@ == m,
                _ => false,
            }
        }),
{
}

/// A missing file and a refused permission are reported with the operation, the key and the
/// system's message, and are not tried again; any other failure keeps the system's message, and
/// is.
pub proof fn law_failed_file_operations(
    op: &str,
    key: &str,
    e: IoFailure,
    r: ObjectStoreError,
    class: FailureKind,
    retry: bool,
)
    requires
        call_ensures(local::map_local_io, (op, key, &e), r),
        call_ensures(failure::classify, (&r,), class),
        call_ensures(failure::is_retryable, (class,), retry),
    ensures
        e.kind == IoKind::NotFound ==> class == FailureKind::NotFound && !retry && (r matches
            ObjectStoreError::NotFound(m) && m@ == op@ + ": object "@ + key@ + " not found ("@
            + e.message@ + ")"@),
        e.kind == IoKind::PermissionDenied ==> class == FailureKind::Authz && !retry && (r matches
            ObjectStoreError::Authz(m) && m@ == op@ + ": permission denied for "@ + key@ + " ("@
            + e.message@ + ")"@),
        e.kind != IoKind::NotFound && e.kind != IoKind::PermissionDenied ==> class
            == FailureKind::Other && retry && (r matches ObjectStoreError::Io(m) && m@
            == e.message@),
{
}

/// A staging file is told by the process and by the number of the write.
pub proof fn law_staging_names(pid: u32, n: u64, r: String, p: String, d: String)
    requires
        call_ensures(local::temp_suffix, (pid, n), r),
        call_ensures(text::decimal_text, (pid as u64,), p),
        call_ensures(text::decimal_text, (n,), d),
    ensures
        r@ == ".tmp."@ + p@ + "."@ + d@,
{
}

/// A listed key is the path below the root with slashes for backslashes, character by character.
pub proof fn law_listed_keys(relative: &str, r: String, i: int)
    requires
        call_ensures(local::listed_key, (relative,), r),
        0 <= i < relative@.len(),
    ensures
        r@.len() == relative@.len(),
        relative@[i] == '\\' ==> r@[i] == '/',
        relative@[i] != '\\' ==> r@[i] == relative@[i],
{
}

/// An object stands under the root directory, at its key.
pub proof fn law_objects_stand_under_the_root(
    root: &str,
    inject: Option<&str>,
    backend: LocalBackend,
    key: &str,
    r: String,
)
    requires
        call_ensures(LocalBackend::new, (root, inject), backend),
        call_ensures(LocalBackend::get_path, (&backend, key), r),
        key@.len() > 0,
        key@[0] != '/',
    ensures
        root@.len() > 0 && root@.last() != '/' ==> r@ == root@ + seq!['/'] + key@,
        root@.len() > 0 && root@.last() == '/' ==> r@ == root@ + key@,
{
    reveal_strlit("/");
    assert("/"@ =~= seq!['/']);
}

/// Local objects are stored as they are, are never locked, and cannot be held.
pub proof fn law_local_objects_are_plain_files(
    backend: LocalBackend,
    size: u64,
    outcome: UploadOutcome,
    name: &'static str,
    lock: LockState,
    holds: bool,
    key: &str,
    held: bool,
    set: Result<(), ObjectStoreError>,
    got: Result<bool, ObjectStoreError>,
)
    requires
        call_ensures(LocalBackend::upload_outcome, (&backend, size), outcome),
        call_ensures(LocalBackend::backend_type, (&backend,), name),
        call_ensures(LocalBackend::lock_state, (&backend,), lock),
        call_ensures(LocalBackend::supports_legal_hold, (&backend,), holds),
        call_ensures(LocalBackend::set_object_legal_hold, (&backend, key, held), set),
        call_ensures(LocalBackend::get_object_legal_hold, (&backend, key), got),
    ensures
        outcome.uncompressed == size && outcome.compressed is None && outcome.algo is None,
        name@ == "local"@,
        lock == LockState::Off,
        !holds,
        set matches Err(ObjectStoreError::NotSupported(_)),
        got matches Err(ObjectStoreError::NotSupported(_)),
{
}

} // verus!
