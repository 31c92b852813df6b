use vstd::prelude::*;

verus! {

/// `suffix` is a trailing part of `text`.
pub open spec fn is_suffix_of(suffix: Seq<char>, text: Seq<char>) -> bool {
    suffix.len() <= text.len() && text.subrange(text.len() - suffix.len(), text.len() as int)
        == suffix
}

/// Character order of two texts: at the first position where they differ,
/// `a` holds the smaller code point.
pub open spec fn lex_less(a: Seq<char>, b: Seq<char>) -> bool {
    exists|i: int|
        #![trigger a[i], b[i]]
        0 <= i < a.len() && i < b.len() && (a[i] as int) < (b[i] as int) && forall|j: int|
            0 <= j < i ==> a[j] == b[j]
}

/// Registry order: longer texts first, equal lengths in character order.
pub open spec fn precedes(a: Seq<char>, b: Seq<char>) -> bool {
    a.len() > b.len() || (a.len() == b.len() && lex_less(a, b))
}

/// Whether two texts hold the same characters.
pub fn same_text(a: &str, b: &str) -> (r: bool)
    ensures
        r == (a@ == b@),
{
    let n = a.unicode_len();
    let m = b.unicode_len();
    if n != m {
        return false;
    }
    let mut i: usize = 0;
    while i < n
        invariant
            n == a@.len(),
            m == b@.len(),
            n == m,
            i <= n,
            forall|j: int| 0 <= j < i ==> a@[j] == b@[j],
        decreases n - i,
    {
        if a.get_char(i) != b.get_char(i) {
            return false;
        }
        i += 1;
    }
    assert(a@ =~= b@);
    true
}

/// Whether `text` ends with `suffix`.
pub fn ends_with_text(text: &str, suffix: &str) -> (r: bool)
    ensures
        r == is_suffix_of(suffix@, text@),
{
    let n = text.unicode_len();
    let m = suffix.unicode_len();
    if m > n {
        return false;
    }
    let start = n - m;
    let mut i: usize = 0;
    while i < m
        invariant
            n == text@.len(),
            m == suffix@.len(),
            m <= n,
            start == n - m,
            i <= m,
            forall|j: int| 0 <= j < i ==> text@[start + j] == suffix@[j],
        decreases m - i,
    {
        if text.get_char(start + i) != suffix.get_char(i) {
            assert(text@.subrange(start as int, n as int)[i as int] != suffix@[i as int]);
            return false;
        }
        i += 1;
    }
    assert(text@.subrange(start as int, n as int) =~= suffix@);
    true
}

/// Whether `a` comes before `b` in registry order.
pub fn precedes_text(a: &str, b: &str) -> (r: bool)
    ensures
        r == precedes(a@, b@),
{
    let n = a.unicode_len();
    let m = b.unicode_len();
    if n != m {
        return n > m;
    }
    let mut i: usize = 0;
    while i < n
        invariant
            n == a@.len(),
            m == b@.len(),
            n == m,
            i <= n,
            forall|j: int| 0 <= j < i ==> a@[j] == b@[j],
        decreases n - i,
    {
        let x = a.get_char(i);
        let y = b.get_char(i);
        if x != y {
            if (x as u32) < (y as u32) {
                assert(a@[i as int] == x && b@[i as int] == y);
                return true;
            } else {
                return false;
            }
        }
        i += 1;
    }
    false
}

/// The first position where two texts of equal length differ comes no later
/// than any position where they differ.
proof fn lemma_first_difference(a: Seq<char>, b: Seq<char>, k: int) -> (i: int)
    requires
        a.len() == b.len(),
        0 <= k < a.len(),
        a[k] != b[k],
    ensures
        0 <= i <= k,
        a[i] != b[i],
        forall|j: int| 0 <= j < i ==> a[j] == b[j],
    decreases k,
{
    if exists|j: int| 0 <= j < k && a[j] != b[j] {
        let j = choose|j: int| 0 <= j < k && a[j] != b[j];
        lemma_first_difference(a, b, j)
    } else {
        k
    }
}

/// Two different texts are always ordered one way or the other.
pub proof fn lemma_precedes_total(a: Seq<char>, b: Seq<char>)
    requires
        a != b,
    ensures
        precedes(a, b) || precedes(b, a),
{
    if a.len() == b.len() {
        assert(!(a =~= b));
        let k = choose|k: int| 0 <= k < a.len() && a[k] != b[k];
        let i = lemma_first_difference(a, b, k);
        if (a[i] as int) < (b[i] as int) {
            assert(lex_less(a, b));
        } else {
            assert(lex_less(b, a));
        }
    }
}

/// Registry order is transitive.
pub proof fn lemma_precedes_transitive(a: Seq<char>, b: Seq<char>, c: Seq<char>)
    requires
        precedes(a, b),
        precedes(b, c),
    ensures
        precedes(a, c),
{
    if a.len() == b.len() && b.len() == c.len() {
        let i = choose|i: int|
            #![trigger a[i], b[i]]
            0 <= i < a.len() && i < b.len() && (a[i] as int) < (b[i] as int) && forall|j: int|
                0 <= j < i ==> a[j] == b[j];
        let k = choose|k: int|
            #![trigger b[k], c[k]]
            0 <= k < b.len() && k < c.len() && (b[k] as int) < (c[k] as int) && forall|j: int|
                0 <= j < k ==> b[j] == c[j];
        if i <= k {
            assert(a[i] == a[i] && c[i] == c[i]);
        } else {
            assert(a[k] == a[k] && c[k] == c[k]);
        }
    }
}

/// Relies on String::push: appends one character.
#[verifier::external_body]
pub fn push_char(s: &mut String, c: char)
    ensures
        final(s)@ == old(s)@.push(c),
{
    s.push(c);
}

/// `s` with every `from` replaced by `to`.
pub open spec fn replaced(s: Seq<char>, from: char, to: char) -> Seq<char> {
    Seq::new(s.len(), |i: int| if s[i] == from { to } else { s[i] })
}

/// Appends `text` to `out` with every `from` replaced by `to`.
pub fn append_replacing(out: &mut String, text: &str, from: char, to: char)
    ensures
        final(out)@ == old(out)@ + replaced(text@, from, to),
{
    let n = text.unicode_len();
    let ghost start = out@;
    let mut i: usize = 0;
    while i < n
        invariant
            n == text@.len(),
            i <= n,
            out@ == start + replaced(text@.subrange(0, i as int), from, to),
        decreases n - i,
    {
        let c = text.get_char(i);
        if c == from {
            push_char(out, to);
        } else {
            push_char(out, c);
        }
        assert(replaced(text@.subrange(0, i + 1), from, to) =~= replaced(
            text@.subrange(0, i as int),
            from,
            to,
        ).push(if c == from { to } else { c }));
        i += 1;
    }
    assert(text@.subrange(0, n as int) =~= text@);
}

} // verus!
