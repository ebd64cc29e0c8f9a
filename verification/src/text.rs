//! Small operations on text, stated over sequences of characters.

use vstd::prelude::*;

verus! {

/// The character that writes the digit `d`.
pub open spec fn digit_char(d: nat) -> char
    recommends
        d < 10,
{
    if d == 0 {
        '0'
    } else if d == 1 {
        '1'
    } else if d == 2 {
        '2'
    } else if d == 3 {
        '3'
    } else if d == 4 {
        '4'
    } else if d == 5 {
        '5'
    } else if d == 6 {
        '6'
    } else if d == 7 {
        '7'
    } else if d == 8 {
        '8'
    } else {
        '9'
    }
}

/// `n` written in base ten, without leading zeros.
pub open spec fn decimal_text(n: nat) -> Seq<char>
    decreases n,
{
    if n < 10 {
        seq![digit_char(n)]
    } else {
        decimal_text(n / 10).push(digit_char(n % 10))
    }
}

/// `s` with every hyphen turned into a space.
pub open spec fn hyphens_to_spaces(s: Seq<char>) -> Seq<char> {
    Seq::new(
        s.len(),
        |i: int|
            if s[i] == '-' {
                ' '
            } else {
                s[i]
            },
    )
}

fn digit_str(d: u64) -> (s: &'static str)
    requires
        d < 10,
    ensures
        s@ == seq![digit_char(d as nat)],
{
    proof {
        reveal_strlit("0");
        reveal_strlit("1");
        reveal_strlit("2");
        reveal_strlit("3");
        reveal_strlit("4");
        reveal_strlit("5");
        reveal_strlit("6");
        reveal_strlit("7");
        reveal_strlit("8");
        reveal_strlit("9");
    }
    let s = if d == 0 {
        "0"
    } else if d == 1 {
        "1"
    } else if d == 2 {
        "2"
    } else if d == 3 {
        "3"
    } else if d == 4 {
        "4"
    } else if d == 5 {
        "5"
    } else if d == 6 {
        "6"
    } else if d == 7 {
        "7"
    } else if d == 8 {
        "8"
    } else {
        "9"
    };
    assert(s@ =~= seq![digit_char(d as nat)]);
    s
}

/// Writes `n` in base ten.
pub fn decimal(n: u64) -> (s: String)
    ensures
        s@ == decimal_text(n as nat),
    decreases n,
{
    if n < 10 {
        String::from_str(digit_str(n))
    } else {
        let mut s = decimal(n / 10);
        s.append(digit_str(n % 10));
        assert(s@ =~= decimal_text(n as nat));
        s
    }
}

/// Joins two pieces of text.
pub fn joined(a: &str, b: &str) -> (s: String)
    ensures
        s@ == a@ + b@,
{
    let mut s = String::from_str(a);
    s.append(b);
    s
}

/// Tells whether `s` begins with `prefix`.
pub fn starts_with(s: &str, prefix: &str) -> (yes: bool)
    ensures
        yes == prefix@.is_prefix_of(s@),
{
    let n = prefix.unicode_len();
    if s.unicode_len() < n {
        return false;
    }
    let mut i: usize = 0;
    while i < n
        invariant
            n == prefix@.len(),
            n <= s@.len(),
            i <= n,
            forall|k: int| 0 <= k < i ==> s@[k] == prefix@[k],
        decreases n - i,
    {
        if s.get_char(i) != prefix.get_char(i) {
            assert(!prefix@.is_prefix_of(s@)) by {
                if prefix@.is_prefix_of(s@) {
                    assert(s@.subrange(0, n as int)[i as int] == prefix@[i as int]);
                }
            }
            return false;
        }
        i = i + 1;
    }
    assert(s@.subrange(0, n as int) =~= prefix@);
    true
}

/// Replaces every hyphen of `s` by a space.
pub fn replace_hyphens(s: &str) -> (out: String)
    ensures
        out@ == hyphens_to_spaces(s@),
{
    let n = s.unicode_len();
    let mut out = String::new();
    let mut i: usize = 0;
    proof {
        reveal_strlit(" ");
    }
    while i < n
        invariant
            n == s@.len(),
            i <= n,
            " "@ == seq![' '],
            out@ == hyphens_to_spaces(s@).subrange(0, i as int),
        decreases n - i,
    {
        if s.get_char(i) == '-' {
            out.append(" ");
        } else {
            out.append(s.substring_char(i, i + 1));
        }
        assert(out@ =~= hyphens_to_spaces(s@).subrange(0, i + 1));
        i = i + 1;
    }
    assert(out@ =~= hyphens_to_spaces(s@));
    out
}

} // verus!

verus! {

/// How one text stands to another in the order of a dictionary.
#[derive(Clone, Copy, Debug, PartialEq, Eq, Structural)]
pub enum Side {
    Before,
    Same,
    After,
}

/// Whether `a` and `b` agree on their first `k` characters and `a` is the
/// lesser at the next: there `a` ends and `b` goes on, or `a` has the
/// lesser character.
pub open spec fn parts_at(a: Seq<char>, b: Seq<char>, k: int) -> bool {
    &&& 0 <= k <= a.len()
    &&& k <= b.len()
    &&& a.take(k) == b.take(k)
    &&& (k == a.len() && k < b.len()) || (k < a.len() && k < b.len() && a[k] < b[k])
}

/// Whether `a` comes before `b` in the order of a dictionary, characters
/// compared by their code points.
pub open spec fn text_less(a: Seq<char>, b: Seq<char>) -> bool {
    exists|k: int| parts_at(a, b, k)
}

/// How `a` stands to `b`.
pub open spec fn text_side(a: Seq<char>, b: Seq<char>) -> Side {
    if a == b {
        Side::Same
    } else if text_less(a, b) {
        Side::Before
    } else {
        Side::After
    }
}

/// Compares two texts in the order of a dictionary.
pub fn compare_text(a: &str, b: &str) -> (side: Side)
    ensures
        side == text_side(a@, b@),
        side == Side::After ==> text_less(b@, a@),
{
    let n = a.unicode_len();
    let m = b.unicode_len();
    let mut i: usize = 0;
    while i < n && i < m && a.get_char(i) == b.get_char(i)
        invariant
            n == a@.len(),
            m == b@.len(),
            i <= n,
            i <= m,
            forall|k: int| 0 <= k < i ==> a@[k] == b@[k],
        decreases n - i,
    {
        i = i + 1;
    }
    assert(a@.take(i as int) =~= b@.take(i as int));
    assert forall|k: int| k != i implies !parts_at(a@, b@, k) && !parts_at(b@, a@, k) by {
        if 0 <= k <= n && k <= m && a@.take(k) == b@.take(k) {
            if k < i {
                assert(a@[k] == b@[k]);
            } else {
                assert(a@.take(k)[i as int] == b@.take(k)[i as int]);
            }
        }
    }
    if i == n && i == m {
        assert(a@ =~= a@.take(i as int));
        assert(b@ =~= b@.take(i as int));
        Side::Same
    } else if i == n {
        assert(parts_at(a@, b@, i as int));
        Side::Before
    } else if i == m {
        assert(parts_at(b@, a@, i as int));
        assert(!parts_at(a@, b@, i as int));
        Side::After
    } else if a.get_char(i) < b.get_char(i) {
        assert(parts_at(a@, b@, i as int));
        Side::Before
    } else {
        assert(parts_at(b@, a@, i as int));
        assert(!parts_at(a@, b@, i as int));
        Side::After
    }
}

/// Of two texts exactly one holds: they are the same, the first comes
/// before the second, or the second before the first.
pub proof fn lemma_text_order_total(a: Seq<char>, b: Seq<char>)
    ensures
        a == b || text_less(a, b) || text_less(b, a),
        !(a == b && text_less(a, b)),
        !(text_less(a, b) && text_less(b, a)),
{
    if text_less(a, b) {
        let k = choose|k: int| parts_at(a, b, k);
        if a == b {
            assert(false);
        }
        if text_less(b, a) {
            let j = choose|j: int| parts_at(b, a, j);
            if j < k {
                assert(a.take(k)[j] == b.take(k)[j]);
            } else if k < j {
                assert(a.take(j)[k] == b.take(j)[k]);
            }
        }
    } else if a != b && !text_less(b, a) {
        assert(a.take(0) =~= b.take(0));
        lemma_first_gap(a, b, 0);
    }
}

/// What comes before something that comes before a third text comes before
/// the third.
pub proof fn lemma_text_order_transitive(a: Seq<char>, b: Seq<char>, c: Seq<char>)
    requires
        text_less(a, b),
        text_less(b, c),
    ensures
        text_less(a, c),
{
    let i = choose|i: int| parts_at(a, b, i);
    let j = choose|j: int| parts_at(b, c, j);
    let k = if i <= j {
        i
    } else {
        j
    };
    assert(a.take(k) =~= c.take(k)) by {
        assert forall|n: int| 0 <= n < k implies a[n] == c[n] by {
            assert(a.take(i)[n] == b.take(i)[n]);
            assert(b.take(j)[n] == c.take(j)[n]);
        }
    }
    if j < i {
        assert(a.take(i)[j] == b.take(i)[j]);
    } else if i < j {
        assert(b.take(j)[i] == c.take(j)[i]);
    }
    assert(parts_at(a, c, k));
}

proof fn lemma_first_gap(a: Seq<char>, b: Seq<char>, i: int)
    requires
        0 <= i <= a.len(),
        i <= b.len(),
        a.take(i) == b.take(i),
        a != b,
    ensures
        text_less(a, b) || text_less(b, a),
    decreases a.len() - i,
{
    if i == a.len() && i == b.len() {
        assert(a =~= a.take(i));
        assert(b =~= b.take(i));
    } else if i == a.len() {
        assert(parts_at(a, b, i));
    } else if i == b.len() {
        assert(b.take(i) == a.take(i));
        assert(parts_at(b, a, i));
    } else if a[i] < b[i] {
        assert(parts_at(a, b, i));
    } else if b[i] < a[i] {
        assert(parts_at(b, a, i));
    } else {
        assert(a.take(i + 1) =~= a.take(i).push(a[i]));
        assert(b.take(i + 1) =~= b.take(i).push(b[i]));
        lemma_first_gap(a, b, i + 1);
    }
}

} // verus!
