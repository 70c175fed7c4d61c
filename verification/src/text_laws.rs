//! Laws of texts: comparing, cutting, joining and writing numbers.

use vstd::prelude::*;

use crate::scan::{self, Trimmed};
use crate::table::{self, NameTable};
use crate::text;

verus! {

/// Two texts are the same exactly if they read the same.
pub proof fn law_same_texts(a: &str, b: &str, r: bool)
    requires
        call_ensures(text::same, (a, b), r),
    ensures
        r <==> a@ == b@,
{
}

/// A text begins with another, ends in it or holds it exactly if it is that text with something
/// behind it, before it, or on both sides.
pub proof fn law_texts_within_texts(
    s: &str,
    part: &str,
    begins: bool,
    ends: bool,
    holds: bool,
    before: Seq<char>,
    after: Seq<char>,
)
    requires
        call_ensures(text::starts_with, (s, part), begins),
        call_ensures(text::ends_with, (s, part), ends),
        call_ensures(text::contains, (s, part), holds),
    ensures
        s@ == part@ + after ==> begins,
        begins ==> s@ == part@ + s@.skip(part@.len() as int),
        s@ == before + part@ ==> ends,
        ends ==> s@ == s@.take(s@.len() - part@.len()) + part@,
        s@ == before + part@ + after ==> holds,
        holds ==> exists|i: int|
            0 <= i <= s@.len() - part@.len() && s@ == #[trigger] s@.take(i) + part@ + s@.skip(
                i + part@.len(),
            ),
{
    let n = part@.len() as int;
    if s@ == part@ + after {
        assert(part@ =~= s@.subrange(0, n));
    }
    if begins {
        assert(s@ =~= part@ + s@.skip(n));
    }
    if s@ == before + part@ {
        assert(part@ =~= s@.subrange(s@.len() - n, s@.len() as int));
    }
    if ends {
        assert(s@ =~= s@.take(s@.len() - n) + part@);
    }
    if s@ == before + part@ + after {
        assert(s@.subrange(before.len() as int, before.len() + n) =~= part@);
        assert(text::occurs_at(s@, part@, before.len() as int));
    }
    if holds {
        let i = choose|i: int| #[trigger] text::occurs_at(s@, part@, i);
        assert(s@ =~= s@.take(i) + part@ + s@.skip(i + n));
    }
}

/// Two texts are the same but for case exactly if they are as long and each pair of characters
/// is the same character or the two forms of one Latin letter.
pub proof fn law_same_but_for_case(a: &str, b: &str, r: bool)
    requires
        call_ensures(text::eq_ignore_ascii_case, (a, b), r),
    ensures
        r <==> a@.len() == b@.len() && forall|i: int|
            0 <= i < a@.len() ==> {
                let x = #[trigger] a@[i];
                let y = b@[i];
                x == y || ('A' <= x <= 'Z' && y as u32 == x as u32 + 32) || ('A' <= y <= 'Z'
                    && x as u32 == y as u32 + 32)
            },
{
    assert forall|x: char, y: char|
        (#[trigger] text::ascii_lower(x) == #[trigger] text::ascii_lower(y)) <==> (x == y || (
        'A' <= x <= 'Z' && y as u32 == x as u32 + 32) || ('A' <= y <= 'Z' && x as u32 == y as u32
            + 32)) by {}
    if r {
        assert forall|i: int| 0 <= i < a@.len() implies {
            let x = #[trigger] a@[i];
            let y = b@[i];
            x == y || ('A' <= x <= 'Z' && y as u32 == x as u32 + 32) || ('A' <= y <= 'Z' && x as u32
                == y as u32 + 32)
        } by {
            assert(text::ascii_lower(a@[i]) == text::ascii_lower(b@[i]));
        }
    }
}

/// A component goes behind a path with one separator between them; a component that begins at
/// the root stands alone.
pub proof fn law_joined_paths(path: &str, part: &str, r: String)
    requires
        call_ensures(text::join_path, (path, part), r),
    ensures
        part@.len() > 0 && part@[0] == '/' ==> r@ == part@,
        !(part@.len() > 0 && part@[0] == '/') && path@.len() > 0 && path@.last() != '/' ==> r@
            == path@ + seq!['/'] + part@,
        !(part@.len() > 0 && part@[0] == '/') && (path@.len() == 0 || path@.last() == '/') ==> r@
            == path@ + part@,
{
    reveal_strlit("/");
    assert("/"@ =~= seq!['/']);
}

/// The number that a row of digits spells.
pub open spec fn spelled_number(digits: Seq<char>) -> int
    decreases digits.len(),
{
    if digits.len() == 0 {
        0
    } else {
        10 * spelled_number(digits.drop_last()) + (digits.last() as int - '0' as int)
    }
}

/// A numeral spells its number, in digits alone and without leading zeros.
proof fn lemma_decimal(n: nat)
    ensures
        spelled_number(text::decimal(n)) == n,
        text::decimal(n).len() > 0,
        text::decimal(n).len() > 1 ==> text::decimal(n)[0] != '0',
        n > 0 ==> text::decimal(n)[0] != '0',
        forall|i: int| 0 <= i < text::decimal(n).len() ==> '0' <= #[trigger] text::decimal(n)[i] <= '9',
    decreases n,
{
    let d = text::decimal(n);
    if n < 10 {
        assert(d.drop_last() =~= Seq::<char>::empty());
        assert(spelled_number(d.drop_last()) == 0);
        assert(d.last() == text::digit_char(n));
    } else {
        lemma_decimal(n / 10);
        assert(d.drop_last() =~= text::decimal(n / 10));
        assert(d.last() == text::digit_char(n % 10));
        assert(d[0] == text::decimal(n / 10)[0]);
    }
}

/// A number is written in decimal digits, without leading zeros, and a negative one with a sign
/// before them.
pub proof fn law_numerals(n: u64, r: String, m: i32, s: String)
    requires
        call_ensures(text::decimal_text, (n,), r),
        call_ensures(text::decimal_int_text, (m,), s),
    ensures
        spelled_number(r@) == n,
        r@.len() > 0,
        r@.len() > 1 ==> r@[0] != '0',
        forall|i: int| 0 <= i < r@.len() ==> '0' <= #[trigger] r@[i] <= '9',
        m >= 0 ==> spelled_number(s@) == m,
        m < 0 ==> s@.len() > 1 && s@[0] == '-' && spelled_number(s@.skip(1)) == -m,
{
    lemma_decimal(n as nat);
    if m >= 0 {
        lemma_decimal(m as nat);
    } else {
        lemma_decimal((-m) as nat);
        reveal_strlit("-");
        assert(s@.skip(1) =~= text::decimal((-m) as nat));
    }
}

/// What is left of a text without its leading characters of a class is a rest of the text.
pub proof fn lemma_front_trimmed(s: Seq<char>, class: Trimmed)
    ensures
        scan::front_trimmed(s, class).len() <= s.len(),
        scan::front_trimmed(s, class) == s.skip(s.len() - scan::front_trimmed(s, class).len()),
        forall|i: int|
            0 <= i < s.len() - scan::front_trimmed(s, class).len() ==> scan::in_class(
                #[trigger] s[i],
                class,
            ),
        scan::front_trimmed(s, class).len() > 0 ==> !scan::in_class(
            scan::front_trimmed(s, class)[0],
            class,
        ),
    decreases s.len(),
{
    let f = scan::front_trimmed(s, class);
    if s.len() > 0 && scan::in_class(s[0], class) {
        let t = s.skip(1);
        lemma_front_trimmed(t, class);
        assert(t.skip(t.len() - f.len()) =~= s.skip(s.len() - f.len()));
        assert forall|i: int| 0 <= i < s.len() - f.len() implies scan::in_class(
            #[trigger] s[i],
            class,
        ) by {
            if i > 0 {
                assert(t[i - 1] == s[i]);
            }
        }
    } else {
        assert(s.skip(0) =~= s);
    }
}

/// What is left of a text without its trailing characters of a class is a beginning of the text.
pub proof fn lemma_back_trimmed(s: Seq<char>, class: Trimmed)
    ensures
        scan::back_trimmed(s, class).len() <= s.len(),
        scan::back_trimmed(s, class) == s.take(scan::back_trimmed(s, class).len() as int),
        forall|i: int|
            scan::back_trimmed(s, class).len() <= i < s.len() ==> scan::in_class(
                #[trigger] s[i],
                class,
            ),
        scan::back_trimmed(s, class).len() > 0 ==> !scan::in_class(
            scan::back_trimmed(s, class).last(),
            class,
        ),
    decreases s.len(),
{
    let b = scan::back_trimmed(s, class);
    if s.len() > 0 && scan::in_class(s.last(), class) {
        let t = s.drop_last();
        lemma_back_trimmed(t, class);
        assert(t.take(b.len() as int) =~= s.take(b.len() as int));
        assert forall|i: int| b.len() <= i < s.len() implies scan::in_class(
            #[trigger] s[i],
            class,
        ) by {
            if i < t.len() {
                assert(t[i] == s[i]);
            }
        }
    } else {
        assert(s.take(s.len() as int) =~= s);
    }
}

/// Trimming asterisks takes exactly the asterisks off the ends.
pub proof fn law_trimmed_asterisks(s: &str, front: String, back: String)
    requires
        call_ensures(scan::trim_front, (s, Trimmed::Star), front),
        call_ensures(scan::trim_back, (s, Trimmed::Star), back),
    ensures
        front@.len() <= s@.len(),
        front@ == s@.skip(s@.len() - front@.len()),
        forall|i: int| 0 <= i < s@.len() - front@.len() ==> #[trigger] s@[i] == '*',
        front@.len() > 0 ==> front@[0] != '*',
        back@.len() <= s@.len(),
        back@ == s@.take(back@.len() as int),
        forall|i: int| back@.len() <= i < s@.len() ==> #[trigger] s@[i] == '*',
        back@.len() > 0 ==> back@.last() != '*',
{
    lemma_front_trimmed(s@, Trimmed::Star);
    lemma_back_trimmed(s@, Trimmed::Star);
    assert forall|i: int| 0 <= i < s@.len() - front@.len() implies #[trigger] s@[i] == '*' by {
        assert(scan::in_class(s@[i], Trimmed::Star));
    }
    assert forall|i: int| back@.len() <= i < s@.len() implies #[trigger] s@[i] == '*' by {
        assert(scan::in_class(s@[i], Trimmed::Star));
    }
}

/// Trimming white space off both ends leaves a text that neither begins nor ends with a space, a
/// tab or a line break, and leaves a text as it is that begins and ends with visible ASCII
/// characters.
pub proof fn law_trimmed_white_space(s: &str, r: String)
    requires
        call_ensures(scan::trim, (s, Trimmed::White), r),
    ensures
        exists|i: int, j: int|
            0 <= i <= j <= s@.len() && r@ == #[trigger] s@.subrange(i, j),
        r@.len() > 0 ==> r@[0] != ' ' && r@[0] != '\t' && r@[0] != '\n' && r@[0] != '\r',
        r@.len() > 0 ==> r@.last() != ' ' && r@.last() != '\t' && r@.last() != '\n' && r@.last()
            != '\r',
        s@.len() > 0 && '!' <= s@[0] <= '~' && '!' <= s@.last() <= '~' ==> r@ == s@,
        (forall|i: int|
            0 <= i < s@.len() ==> #[trigger] s@[i] == ' ' || s@[i] == '\t' || s@[i] == '\n' || s@[i]
                == '\r') ==> r@.len() == 0,
{
    let f = scan::front_trimmed(s@, Trimmed::White);
    lemma_front_trimmed(s@, Trimmed::White);
    lemma_back_trimmed(f, Trimmed::White);
    let i = s@.len() - f.len();
    let j = i + r@.len();
    assert(r@ =~= s@.subrange(i, j));
    if r@.len() > 0 {
        assert(r@[0] == f[0]);
    }
    if s@.len() > 0 && '!' <= s@[0] <= '~' && '!' <= s@.last() <= '~' {
        assert(f == s@);
    }
    if forall|i: int|
        0 <= i < s@.len() ==> #[trigger] s@[i] == ' ' || s@[i] == '\t' || s@[i] == '\n' || s@[i]
            == '\r' {
        if f.len() > 0 {
            assert(f[0] == s@[i]);
        }
    }
}

/// A text is cut in two exactly if it holds the character: at its first occurrence, which is in
/// neither half.
pub proof fn law_cutting_once(s: &str, c: char, r: Option<(String, String)>)
    requires
        call_ensures(scan::split_once, (s, c), r),
    ensures
        r is None <==> forall|i: int| 0 <= i < s@.len() ==> #[trigger] s@[i] != c,
        r matches Some((a, b)) ==> s@ == a@ + seq![c] + b@ && (forall|i: int|
            0 <= i < a@.len() ==> #[trigger] a@[i] != c),
{
    scan::lemma_first_at(s@, c);
    let at = scan::first_at(s@, c) as int;
    if r is None {
        assert forall|i: int| 0 <= i < s@.len() implies #[trigger] s@[i] != c by {}
    } else {
        let (a, b) = r.unwrap();
        assert(s@[at] == c);
        assert(s@ =~= a@ + seq![c] + b@);
        assert forall|i: int| 0 <= i < a@.len() implies #[trigger] a@[i] != c by {
            assert(s@[i] != c);
        }
    }
}

/// The pieces of a text put together again with the separator between them.
pub open spec fn put_together(pieces: Seq<Seq<char>>, c: char) -> Seq<char>
    decreases pieces.len(),
{
    if pieces.len() == 0 {
        Seq::empty()
    } else if pieces.len() == 1 {
        pieces[0]
    } else {
        pieces[0] + seq![c] + put_together(pieces.skip(1), c)
    }
}

proof fn lemma_pieces(s: Seq<char>, c: char)
    ensures
        scan::pieces(s, c).len() >= 1,
        put_together(scan::pieces(s, c), c) == s,
        forall|k: int, i: int|
            0 <= k < scan::pieces(s, c).len() && 0 <= i < scan::pieces(s, c)[k].len()
                ==> #[trigger] scan::pieces(s, c)[k][i] != c,
    decreases s.len(),
{
    scan::lemma_first_at(s, c);
    let at = scan::first_at(s, c) as int;
    let p = scan::pieces(s, c);
    if at >= s.len() {
        assert(p =~= seq![s]);
    } else {
        let rest = s.skip(at + 1);
        let q = scan::pieces(rest, c);
        lemma_pieces(rest, c);
        assert(p =~= seq![s.take(at)] + q);
        assert(p.skip(1) =~= q);
        assert(put_together(p, c) =~= s.take(at) + seq![c] + rest);
        assert(s =~= s.take(at) + seq![c] + rest);
        assert forall|k: int, i: int| 0 <= k < p.len() && 0 <= i < p[k].len() implies
            #[trigger] p[k][i] != c by {
            if k == 0 {
                assert(p[0][i] == s[i]);
            } else {
                assert(p[k] == q[k - 1]);
                assert(q[k - 1][i] != c);
            }
        }
    }
}

/// A text is split into pieces that hold no separator, and the pieces with separators between
/// them are the text again.
pub proof fn law_splitting(s: &str, c: char, r: Vec<String>)
    requires
        call_ensures(scan::split, (s, c), r),
    ensures
        r@.len() >= 1,
        put_together(r@.map_values(|p: String| p@), c) == s@,
        forall|k: int, i: int|
            0 <= k < r@.len() && 0 <= i < r@[k]@.len() ==> #[trigger] r@[k]@[i] != c,
{
    lemma_pieces(s@, c);
    let v = scan::views(r@);
    assert(v =~= r@.map_values(|p: String| p@));
    assert forall|k: int, i: int| 0 <= k < r@.len() && 0 <= i < r@[k]@.len() implies
        #[trigger] r@[k]@[i] != c by {
        assert(v[k] == r@[k]@);
        assert(scan::pieces(s@, c)[k][i] != c);
    }
}

/// One text comes before another exactly if it is a beginning of it, or has the smaller
/// character where they first differ.
pub proof fn law_order_of_texts(a: &str, b: &str, r: bool, i: int)
    requires
        call_ensures(table::comes_before, (a, b), r),
        0 <= i <= a@.len(),
        i <= b@.len(),
        forall|j: int| 0 <= j < i ==> #[trigger] a@[j] == b@[j],
    ensures
        i < a@.len() && i < b@.len() && a@[i] < b@[i] ==> r,
        i < a@.len() && i < b@.len() && a@[i] > b@[i] ==> !r,
        i == a@.len() && i < b@.len() ==> r,
        i == b@.len() ==> !r,
{
    lemma_order(a@, b@, i);
}

proof fn lemma_order(a: Seq<char>, b: Seq<char>, i: int)
    requires
        0 <= i <= a.len(),
        i <= b.len(),
        forall|j: int| 0 <= j < i ==> #[trigger] a[j] == b[j],
    ensures
        i < a.len() && i < b.len() && a[i] < b[i] ==> table::precedes(a, b),
        i < a.len() && i < b.len() && a[i] > b[i] ==> !table::precedes(a, b),
        i == a.len() && i < b.len() ==> table::precedes(a, b),
        i == b.len() ==> !table::precedes(a, b),
    decreases i,
{
    if i > 0 {
        let x = a.drop_first();
        let y = b.drop_first();
        assert forall|j: int| 0 <= j < i - 1 implies #[trigger] x[j] == y[j] by {
            assert(a[j + 1] == b[j + 1]);
        }
        assert(a[0] == b[0]);
        lemma_order(x, y, i - 1);
    }
}

/// A value is found under the name it was stored under, the latest one stored; every other name
/// keeps its value, and a fresh table has none.
pub proof fn law_tables_hold_what_was_stored(
    fresh: NameTable<u64>,
    nothing: Option<&u64>,
    t: &mut NameTable<u64>,
    name: &str,
    value: u64,
    other: &str,
    found: Option<&u64>,
    before: Option<&u64>,
    after: Option<&u64>,
)
    requires
        call_ensures(NameTable::<u64>::new, (), fresh),
        call_ensures(NameTable::<u64>::get, (&fresh, name), nothing),
        call_ensures(NameTable::<u64>::insert, (t, name, value), ()),
        call_ensures(NameTable::<u64>::get, (&*final(t), name), found),
        call_ensures(NameTable::<u64>::get, (&*old(t), other), before),
        call_ensures(NameTable::<u64>::get, (&*final(t), other), after),
        other@ != name@,
    ensures
        nothing is None,
        found matches Some(v) && *v == value,
        before is None <==> after is None,
        before matches Some(v) ==> *(after->Some_0) == *v,
{
}

} // verus!
