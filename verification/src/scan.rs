//! Trimming and splitting of text.

use vstd::prelude::*;

use crate::text;

verus! {

/// A class of characters that trimming removes.
#[derive(Debug, Clone, Copy, PartialEq, Eq, Structural)]
pub enum Trimmed {
    /// Unicode white space.
    White,
    /// The asterisk.
    Star,
}

/// A character with the Unicode `White_Space` property.
pub open spec fn is_white(c: char) -> bool {
    let n = c as u32;
    ||| 0x9 <= n <= 0xD
    ||| n == 0x20
    ||| n == 0x85
    ||| n == 0xA0
    ||| n == 0x1680
    ||| 0x2000 <= n <= 0x200A
    ||| n == 0x2028
    ||| n == 0x2029
    ||| n == 0x202F
    ||| n == 0x205F
    ||| n == 0x3000
}

/// `c` belongs to the class.
pub open spec fn in_class(c: char, class: Trimmed) -> bool {
    match class {
        Trimmed::White => is_white(c),
        Trimmed::Star => c == '*',
    }
}

/// `s` without its leading characters of the class.
pub open spec fn front_trimmed(s: Seq<char>, class: Trimmed) -> Seq<char>
    decreases s.len(),
{
    if s.len() > 0 && in_class(s[0], class) {
        front_trimmed(s.skip(1), class)
    } else {
        s
    }
}

/// `s` without its trailing characters of the class.
pub open spec fn back_trimmed(s: Seq<char>, class: Trimmed) -> Seq<char>
    decreases s.len(),
{
    if s.len() > 0 && in_class(s.last(), class) {
        back_trimmed(s.drop_last(), class)
    } else {
        s
    }
}

/// `s` without leading and trailing characters of the class.
pub open spec fn trimmed(s: Seq<char>, class: Trimmed) -> Seq<char> {
    back_trimmed(front_trimmed(s, class), class)
}

/// Where `c` occurs first in `s`, or the length of `s` if it does not.
pub open spec fn first_at(s: Seq<char>, c: char) -> nat
    decreases s.len(),
{
    if s.len() == 0 || s[0] == c {
        0
    } else {
        1 + first_at(s.skip(1), c)
    }
}

/// The position of the first occurrence lies in `s` exactly when `c` does, and nothing before
/// it is `c`.
pub proof fn lemma_first_at(s: Seq<char>, c: char)
    ensures
        first_at(s, c) <= s.len(),
        first_at(s, c) < s.len() ==> s[first_at(s, c) as int] == c,
        forall|i: int| 0 <= i < first_at(s, c) ==> s[i] != c,
    decreases s.len(),
{
    if s.len() > 0 && s[0] != c {
        lemma_first_at(s.skip(1), c);
        assert forall|i: int| 0 <= i < first_at(s, c) implies s[i] != c by {
            if i > 0 {
                assert(s.skip(1)[i - 1] == s[i]);
            }
        }
    }
}

/// The pieces of `s` between occurrences of `c`; `s` itself where there is none.
pub open spec fn pieces(s: Seq<char>, c: char) -> Seq<Seq<char>>
    decreases s.len(),
{
    let at = first_at(s, c);
    if at >= s.len() {
        seq![s]
    } else {
        seq![s.take(at as int)] + pieces(s.skip(at as int + 1), c)
    }
}

fn is_white_char(c: char) -> (r: bool)
    ensures
        r == is_white(c),
{
    let n: u32 = c as u32;
    (0x9 <= n && n <= 0xD) || n == 0x20 || n == 0x85 || n == 0xA0 || n == 0x1680 || (0x2000 <= n
        && n <= 0x200A) || n == 0x2028 || n == 0x2029 || n == 0x202F || n == 0x205F || n == 0x3000
}

fn belongs(c: char, class: Trimmed) -> (r: bool)
    ensures
        r == in_class(c, class),
{
    match class {
        Trimmed::White => is_white_char(c),
        Trimmed::Star => c == '*',
    }
}

/// Removes leading characters of the class.
pub fn trim_front(s: &str, class: Trimmed) -> (r: String)
    ensures
        r@ == front_trimmed(s@, class),
{
    let chars = text::chars_of(s);
    let mut i: usize = 0;
    assert(s@.skip(0) =~= s@);
    while i < chars.len() && belongs(chars[i], class)
        invariant
            chars@ == s@,
            0 <= i <= chars.len(),
            front_trimmed(s@, class) == front_trimmed(s@.skip(i as int), class),
        decreases chars.len() - i,
    {
        assert(s@.skip(i as int).skip(1) =~= s@.skip(i as int + 1));
        i = i + 1;
    }
    assert(s@.skip(i as int) =~= s@.subrange(i as int, s@.len() as int));
    s.substring_char(i, chars.len()).to_owned()
}

/// Removes trailing characters of the class.
pub fn trim_back(s: &str, class: Trimmed) -> (r: String)
    ensures
        r@ == back_trimmed(s@, class),
{
    let chars = text::chars_of(s);
    let mut j: usize = chars.len();
    assert(s@.take(j as int) =~= s@);
    while j > 0 && belongs(chars[j - 1], class)
        invariant
            chars@ == s@,
            0 <= j <= chars.len(),
            back_trimmed(s@, class) == back_trimmed(s@.take(j as int), class),
        decreases j,
    {
        assert(s@.take(j as int).drop_last() =~= s@.take(j as int - 1));
        j = j - 1;
    }
    assert(s@.take(j as int) =~= s@.subrange(0, j as int));
    s.substring_char(0, j).to_owned()
}

/// Removes leading and trailing characters of the class.
pub fn trim(s: &str, class: Trimmed) -> (r: String)
    ensures
        r@ == trimmed(s@, class),
{
    let front = trim_front(s, class);
    trim_back(&front, class)
}

/// Finds the first occurrence of `c`.
fn find(s: &Vec<char>, c: char) -> (r: usize)
    ensures
        r == first_at(s@, c),
        r <= s.len(),
{
    let mut i: usize = 0;
    assert(s@.skip(0) =~= s@);
    while i < s.len() && s[i] != c
        invariant
            0 <= i <= s.len(),
            first_at(s@, c) == i + first_at(s@.skip(i as int), c),
        decreases s.len() - i,
    {
        assert(s@.skip(i as int).skip(1) =~= s@.skip(i as int + 1));
        i = i + 1;
    }
    i
}

/// Cuts `s` at the first occurrence of `c`, which belongs to neither half.
pub fn split_once(s: &str, c: char) -> (r: Option<(String, String)>)
    ensures
        match r {
            Some((a, b)) => {
                &&& first_at(s@, c) < s@.len()
                &&& a@ == s@.take(first_at(s@, c) as int)
                &&& b@ == s@.skip(first_at(s@, c) as int + 1)
            },
            None => first_at(s@, c) == s@.len(),
        },
{
    let chars = text::chars_of(s);
    let at: usize = find(&chars, c);
    if at == chars.len() {
        return None;
    }
    let total: usize = chars.len();
    assert(s@.take(at as int) =~= s@.subrange(0, at as int));
    assert(s@.skip(at as int + 1) =~= s@.subrange(at as int + 1, s@.len() as int));
    Some((s.substring_char(0, at).to_owned(), s.substring_char(at + 1, total).to_owned()))
}

/// The views of a list of strings.
pub open spec fn views(v: Seq<String>) -> Seq<Seq<char>> {
    v.map_values(|s: String| s@)
}

/// Splits `s` at every occurrence of `c`.
pub fn split(s: &str, c: char) -> (r: Vec<String>)
    ensures
        views(r@) == pieces(s@, c),
{
    let mut out: Vec<String> = Vec::new();
    let mut rest: String = s.to_owned();
    let mut more: bool = true;
    assert(views(out@) + pieces(rest@, c) =~= pieces(s@, c));
    while more
        invariant
            more ==> views(out@) + pieces(rest@, c) == pieces(s@, c),
            !more ==> views(out@) == pieces(s@, c),
        decreases (if more { rest@.len() + 1 } else { 0 }),
    {
        let ghost before = out@;
        let ghost whole = rest@;
        match split_once(&rest, c) {
            Some((head, tail)) => {
                proof {
                    assert(views(before) + (seq![head@] + pieces(tail@, c)) =~= views(
                        before.push(head),
                    ) + pieces(tail@, c));
                }
                out.push(head);
                rest = tail;
            },
            None => {
                let piece = rest;
                out.push(piece);
                rest = String::new();
                more = false;
                proof {
                    assert(views(out@) =~= views(before) + seq![whole]);
                }
            },
        }
    }
    out
}

/// `s` with every `from` turned into `to`.
pub open spec fn replaced(s: Seq<char>, from: char, to: char) -> Seq<char> {
    s.map_values(
        |c: char|
            if c == from {
                to
            } else {
                c
            },
    )
}

} // verus!
