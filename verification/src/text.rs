//! Text primitives: comparison, concatenation, decimal numbers and the ordering of names.

use vstd::prelude::*;
use vstd::string::{StrSliceExecFns, StringExecFns};

verus! {

/// The decimal digit `d` as a character.
pub open spec fn digit(d: nat) -> char {
    (48 + d) as char
}

/// The decimal notation of `n`, without leading zeros.
pub open spec fn decimal(n: nat) -> Seq<char>
    decreases n,
{
    if n < 10 {
        seq![digit(n)]
    } else {
        decimal(n / 10).push(digit(n % 10))
    }
}

/// `s` without the slashes at its end.
pub open spec fn without_end_slashes(s: Seq<char>) -> Seq<char>
    decreases s.len(),
{
    if s.len() > 0 && s.last() == '/' {
        without_end_slashes(s.drop_last())
    } else {
        s
    }
}

/// `c` with an ASCII capital turned into the small letter.
pub open spec fn ascii_lower(c: char) -> char {
    if 'A' <= c <= 'Z' {
        (c as u32 + 32) as char
    } else {
        c
    }
}

/// `s` with every ASCII capital turned into the small letter.
pub open spec fn lowercase(s: Seq<char>) -> Seq<char> {
    s.map_values(|c: char| ascii_lower(c))
}

/// `c` as it stands in an escaped text: a bar or a backslash has a backslash before it.
pub open spec fn escaped_char(c: char) -> Seq<char> {
    if c == '|' || c == '\\' {
        seq!['\\', c]
    } else {
        seq![c]
    }
}

/// `s` with a backslash before every bar and every backslash, so that a bar by itself can mark its
/// end.
pub open spec fn escaped(s: Seq<char>) -> Seq<char>
    decreases s.len(),
{
    if s.len() == 0 {
        Seq::empty()
    } else {
        escaped_char(s.first()) + escaped(s.drop_first())
    }
}

/// `a` and `b` agree below `i`, and at `i` the text `a` ends or has the smaller code point.
pub open spec fn departs_below(a: Seq<char>, b: Seq<char>, i: int) -> bool {
    &&& 0 <= i <= a.len()
    &&& i < b.len()
    &&& forall|j: int| 0 <= j < i ==> a[j] == b[j]
    &&& i == a.len() || (a[i] as int) < (b[i] as int)
}

/// `a` stands before `b` in the order of their code points.
pub open spec fn before(a: Seq<char>, b: Seq<char>) -> bool {
    exists|i: int| departs_below(a, b, i)
}

/// `str::to_ascii_lowercase`: a copy of the text in which the ASCII letters `A` to `Z` are mapped
/// to `a` to `z`, and every other character is as it was.
pub assume_specification[ str::to_ascii_lowercase ](s: &str) -> (r: String)
    ensures
        r@ == lowercase(s@),
;

pub proof fn lemma_before_transitive(a: Seq<char>, b: Seq<char>, c: Seq<char>)
    requires
        before(a, b),
        before(b, c),
    ensures
        before(a, c),
{
    let i = choose|i: int| departs_below(a, b, i);
    let j = choose|j: int| departs_below(b, c, j);
    assert(departs_below(a, c, if i < j { i } else { j }));
}

pub proof fn lemma_before_irreflexive(a: Seq<char>)
    ensures
        !before(a, a),
{
}

pub proof fn lemma_before_total(a: Seq<char>, b: Seq<char>)
    requires
        a != b,
    ensures
        before(a, b) || before(b, a),
{
    let i = lemma_first_difference(a, b, 0);
    if i == a.len() || (i < b.len() && (a[i] as int) < (b[i] as int)) {
        assert(departs_below(a, b, i));
    } else {
        assert(departs_below(b, a, i));
    }
}

/// The first place from `from` on where `a` and `b` differ.
proof fn lemma_first_difference(a: Seq<char>, b: Seq<char>, from: int) -> (i: int)
    requires
        a != b,
        0 <= from <= a.len(),
        from <= b.len(),
        forall|j: int| 0 <= j < from ==> a[j] == b[j],
    ensures
        0 <= i <= a.len(),
        i <= b.len(),
        forall|j: int| 0 <= j < i ==> a[j] == b[j],
        i == a.len() ==> i < b.len(),
        i == b.len() ==> i < a.len(),
        i < a.len() && i < b.len() ==> a[i] != b[i],
    decreases a.len() - from,
{
    if from < a.len() && from < b.len() && a[from] == b[from] {
        lemma_first_difference(a, b, from + 1)
    } else {
        assert(from == a.len() && from == b.len() ==> a =~= b);
        from
    }
}

/// A text without bars and backslashes stands for itself.
pub proof fn lemma_escaped_plain(s: Seq<char>)
    requires
        forall|i: int| 0 <= i < s.len() ==> #[trigger] s[i] != '|' && s[i] != '\\',
    ensures
        escaped(s) == s,
    decreases s.len(),
{
    if s.len() > 0 {
        let rest = s.drop_first();
        assert forall|i: int| 0 <= i < rest.len() implies #[trigger] rest[i] != '|' && rest[i]
            != '\\' by {
            assert(rest[i] == s[i + 1]);
        }
        lemma_escaped_plain(rest);
        assert(s[0] != '|' && s[0] != '\\');
        assert(escaped(s) =~= s);
    } else {
        assert(escaped(s) =~= s);
    }
}

/// An escaped text can be told from what follows it after a bar.
pub proof fn lemma_escaped_ends_at_bar(s: Seq<char>, i: Seq<char>, t: Seq<char>, j: Seq<char>)
    requires
        escaped(s) + seq!['|'] + i == escaped(t) + seq!['|'] + j,
    ensures
        s == t,
        i == j,
    decreases s.len(),
{
    let k = escaped(s) + seq!['|'] + i;
    let l = escaped(t) + seq!['|'] + j;
    if s.len() == 0 {
        assert(k[0] == '|');
        if t.len() > 0 {
            assert(l[0] == escaped_char(t.first())[0]);
        }
        assert(s =~= t);
        assert(k.skip(1) =~= i);
        assert(l.skip(1) =~= j);
    } else if t.len() == 0 {
        assert(l[0] == '|');
        assert(k[0] == escaped_char(s.first())[0]);
    } else {
        let a = escaped_char(s.first());
        let b = escaped_char(t.first());
        assert(k[0] == a[0]);
        assert(l[0] == b[0]);
        if a.len() == 2 {
            assert(k[1] == a[1]);
        }
        if b.len() == 2 {
            assert(l[1] == b[1]);
        }
        assert(s.first() == t.first());
        let n = a.len() as int;
        assert(k.skip(n) =~= escaped(s.drop_first()) + seq!['|'] + i);
        assert(l.skip(n) =~= escaped(t.drop_first()) + seq!['|'] + j);
        lemma_escaped_ends_at_bar(s.drop_first(), i, t.drop_first(), j);
        assert(s =~= seq![s.first()] + s.drop_first());
        assert(t =~= seq![t.first()] + t.drop_first());
    }
}

/// Small letters stay as they are.
pub proof fn lemma_lowercase_twice(s: Seq<char>)
    ensures
        lowercase(lowercase(s)) == lowercase(s),
{
    assert forall|i: int| 0 <= i < s.len() implies ascii_lower(#[trigger] lowercase(s)[i])
        == lowercase(s)[i] by {
        assert(lowercase(s)[i] == ascii_lower(s[i]));
    }
    assert(lowercase(lowercase(s)) =~= lowercase(s));
}

/// Are the two texts the same?
pub fn same(a: &str, b: &str) -> (r: bool)
    ensures
        r == (a@ == b@),
{
    a.to_owned() == b.to_owned()
}

/// The three texts one after the other.
pub fn join3(a: &str, b: &str, c: &str) -> (r: String)
    ensures
        r@ == a@ + b@ + c@,
{
    a.to_owned().concat(b).concat(c)
}

/// The two texts one after the other.
pub fn join2(a: &str, b: &str) -> (r: String)
    ensures
        r@ == a@ + b@,
{
    a.to_owned().concat(b)
}

/// `s` with a backslash before every bar and every backslash.
pub fn escape(s: &str) -> (r: String)
    ensures
        r@ == escaped(s@),
{
    let n: usize = s.unicode_len();
    let mut r: String = String::new();
    let mut i: usize = 0;
    proof {
        assert(s@.skip(0) =~= s@);
        assert(r@ + escaped(s@) =~= escaped(s@));
    }
    while i < n
        invariant
            n == s@.len(),
            i <= n,
            r@ + escaped(s@.skip(i as int)) == escaped(s@),
        decreases n - i,
    {
        let ghost before = r@;
        let c: char = s.get_char(i);
        if c == '|' || c == '\\' {
            r.append("\\");
        }
        r.append(s.substring_char(i, i + 1));
        proof {
            reveal_strlit("\\");
            let rest = s@.skip(i as int);
            assert(rest.first() == c);
            assert(rest.drop_first() =~= s@.skip(i + 1));
            assert(r@ =~= before + escaped_char(c));
            assert(r@ + escaped(s@.skip(i + 1)) =~= before + escaped(rest));
        }
        i = i + 1;
    }
    proof {
        assert(s@.skip(n as int).len() == 0);
        assert(r@ + escaped(s@.skip(n as int)) =~= r@);
    }
    r
}

/// The digit `d` as a text.
fn digit_text(d: u64) -> (r: &'static str)
    requires
        d < 10,
    ensures
        r@ == seq![digit(d as nat)],
{
    proof {
        reveal_strlit("0");
        reveal_strlit("1");
        reveal_strlit("2");
        reveal_strlit("3");
        reveal_strlit("4");
        reveal_strlit("5");
        reveal_strlit("6");
        reveal_strlit("7");
        reveal_strlit("8");
        reveal_strlit("9");
    }
    match d {
        0 => "0",
        1 => "1",
        2 => "2",
        3 => "3",
        4 => "4",
        5 => "5",
        6 => "6",
        7 => "7",
        8 => "8",
        _ => "9",
    }
}

/// `n` in decimal notation.
pub fn decimal_text(n: u64) -> (r: String)
    ensures
        r@ == decimal(n as nat),
    decreases n,
{
    if n < 10 {
        digit_text(n).to_owned()
    } else {
        decimal_text(n / 10).concat(digit_text(n % 10))
    }
}

/// `s` without the slashes at its end.
pub fn trim_end_slashes(s: &str) -> (r: &str)
    ensures
        r@ == without_end_slashes(s@),
{
    let mut n: usize = s.unicode_len();
    proof {
        assert(s@.take(n as int) =~= s@);
    }
    while n > 0 && s.get_char(n - 1) == '/'
        invariant
            n <= s@.len(),
            without_end_slashes(s@) == without_end_slashes(s@.take(n as int)),
        decreases n,
    {
        proof {
            assert(s@.take(n as int).drop_last() =~= s@.take(n - 1));
            assert(s@.take(n as int).last() == '/');
        }
        n = n - 1;
    }
    proof {
        assert(s@.subrange(0, n as int) =~= s@.take(n as int));
        if n > 0 {
            assert(s@.take(n as int).last() == s@[n - 1]);
        }
    }
    s.substring_char(0, n)
}

/// Does `s` begin with `prefix`?
pub fn begins_with(s: &str, prefix: &str) -> (r: bool)
    ensures
        r == prefix@.is_prefix_of(s@),
{
    let n: usize = prefix.unicode_len();
    if n <= s.unicode_len() {
        same(s.substring_char(0, n), prefix)
    } else {
        false
    }
}

/// Does `a` stand before `b` in the order of their code points?
pub fn stands_before(a: &str, b: &str) -> (r: bool)
    ensures
        r == before(a@, b@),
{
    let n: usize = a.unicode_len();
    let m: usize = b.unicode_len();
    let mut i: usize = 0;
    while i < n && i < m
        invariant
            n == a@.len(),
            m == b@.len(),
            i <= n,
            i <= m,
            forall|j: int| 0 <= j < i ==> a@[j] == b@[j],
        decreases n - i,
    {
        let x: char = a.get_char(i);
        let y: char = b.get_char(i);
        if x != y {
            proof {
                if (x as u32) < (y as u32) {
                    assert(departs_below(a@, b@, i as int));
                } else {
                    assert forall|k: int| !departs_below(a@, b@, k) by {
                        if departs_below(a@, b@, k) && i < k {
                            assert(a@[i as int] == b@[i as int]);
                        }
                    }
                }
            }
            return (x as u32) < (y as u32);
        }
        i = i + 1;
    }
    proof {
        if i < m {
            assert(departs_below(a@, b@, i as int));
        }
    }
    i < m
}

} // verus!
