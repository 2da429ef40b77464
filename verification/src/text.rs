//! Character-level helpers over `&str`, specified on the string's
//! sequence of characters.

use vstd::prelude::*;
use vstd::string::*;


verus! {

/// The code point of `c`, with the ASCII upper-case letters folded to
/// lower case (every other character is left as it is).
pub open spec fn ascii_fold(c: char) -> u32 {
    let x = c as u32;
    if 65 <= x && x <= 90 {
        (x + 32) as u32
    } else {
        x
    }
}

/// Two character sequences are equal up to ASCII case.
pub open spec fn eq_ignore_ascii_case_spec(a: Seq<char>, b: Seq<char>) -> bool {
    &&& a.len() == b.len()
    &&& forall|i: int| 0 <= i < a.len() ==> #[trigger] ascii_fold(a[i]) == ascii_fold(b[i])
}

/// ASCII digit or ASCII letter.
pub open spec fn is_ascii_alnum(c: char) -> bool {
    let x = c as u32;
    (48 <= x && x <= 57) || (65 <= x && x <= 90) || (97 <= x && x <= 122)
}

pub fn fold_char(c: char) -> (r: u32)
    ensures
        r == ascii_fold(c),
{
    let x = c as u32;
    if 65 <= x && x <= 90 {
        x + 32
    } else {
        x
    }
}

pub fn char_is_ascii_alnum(c: char) -> (r: bool)
    ensures
        r == is_ascii_alnum(c),
{
    let x = c as u32;
    (48 <= x && x <= 57) || (65 <= x && x <= 90) || (97 <= x && x <= 122)
}

/// The characters of `s`, in order.
pub fn chars_of(s: &str) -> (v: Vec<char>)
    ensures
        v@ == s@,
{
    let n = s.unicode_len();
    let mut v: Vec<char> = Vec::new();
    let mut i: usize = 0;
    while i < n
        invariant
            n == s@.len(),
            i <= n,
            v@ == s@.subrange(0, i as int),
        decreases n - i,
    {
        v.push(s.get_char(i));
        i += 1;
    }
    v
}


/// `a` and `b` hold the same characters.
pub fn str_eq(a: &str, b: &str) -> (r: bool)
    ensures
        r == (a@ == b@),
{
    let x = chars_of(a);
    let y = chars_of(b);
    if x.len() != y.len() {
        return false;
    }
    let mut i: usize = 0;
    while i < x.len()
        invariant
            x@ == a@,
            y@ == b@,
            x.len() == y.len(),
            i <= x.len(),
            forall|j: int| 0 <= j < i ==> x@[j] == y@[j],
        decreases x.len() - i,
    {
        if x[i] != y[i] {
            return false;
        }
        i += 1;
    }
    assert(a@ =~= b@);
    true
}

/// `a` and `b` are equal up to ASCII case (as `str::eq_ignore_ascii_case`).
pub fn eq_ignore_ascii_case(a: &str, b: &str) -> (r: bool)
    ensures
        r == eq_ignore_ascii_case_spec(a@, b@),
{
    let x = chars_of(a);
    let y = chars_of(b);
    assert(x@.subrange(0, x@.len() as int) =~= x@);
    seq_eq_ignore_ascii_case(&x, 0, x.len(), &y)
}

/// `x[from..to]` equals `y` up to ASCII case.
pub fn seq_eq_ignore_ascii_case(x: &Vec<char>, from: usize, to: usize, y: &Vec<char>) -> (r: bool)
    requires
        from <= to <= x.len(),
    ensures
        r == eq_ignore_ascii_case_spec(x@.subrange(from as int, to as int), y@),
{
    let ghost sub = x@.subrange(from as int, to as int);
    if to - from != y.len() {
        return false;
    }
    let mut i: usize = 0;
    while i < y.len()
        invariant
            from <= to <= x.len(),
            to - from == y.len(),
            sub == x@.subrange(from as int, to as int),
            i <= y.len(),
            forall|j: int| 0 <= j < i ==> #[trigger] ascii_fold(sub[j]) == ascii_fold(y@[j]),
        decreases y.len() - i,
    {
        if fold_char(x[from + i]) != fold_char(y[i]) {
            assert(ascii_fold(sub[i as int]) != ascii_fold(y@[i as int]));
            return false;
        }
        i += 1;
    }
    true
}

/// `needle` occurs in `hay` starting at position `at`.
pub open spec fn occurs_at(hay: Seq<char>, needle: Seq<char>, at: int) -> bool {
    0 <= at && at + needle.len() <= hay.len() && hay.subrange(at, at + needle.len()) == needle
}

/// `needle` occurs in `hay` starting at position `at`, up to ASCII case.
pub open spec fn occurs_at_ignore_ascii_case(hay: Seq<char>, needle: Seq<char>, at: int) -> bool {
    0 <= at && at + needle.len() <= hay.len() && eq_ignore_ascii_case_spec(
        hay.subrange(at, at + needle.len()),
        needle,
    )
}

/// `needle` is a substring of `hay`.
pub open spec fn contains_spec(hay: Seq<char>, needle: Seq<char>) -> bool {
    exists|at: int| occurs_at(hay, needle, at)
}

/// `needle` is a substring of `hay` up to ASCII case.
pub open spec fn contains_ignore_ascii_case_spec(hay: Seq<char>, needle: Seq<char>) -> bool {
    exists|at: int| occurs_at_ignore_ascii_case(hay, needle, at)
}

/// `hay` begins with `prefix`.
pub open spec fn starts_with_spec(hay: Seq<char>, prefix: Seq<char>) -> bool {
    occurs_at(hay, prefix, 0)
}

/// `needle` occurs in `hay` (as `str::contains` with a string pattern).
pub fn contains(hay: &str, needle: &str) -> (r: bool)
    ensures
        r == contains_spec(hay@, needle@),
{
    let h = chars_of(hay);
    let n = chars_of(needle);
    if n.len() > h.len() {
        assert forall|at: int| !occurs_at(hay@, needle@, at) by {}
        return false;
    }
    let last = h.len() - n.len();
    let mut at: usize = 0;
    loop
        invariant
            h@ == hay@,
            n@ == needle@,
            last == h.len() - n.len(),
            n.len() <= h.len(),
            at <= last,
            forall|k: int| 0 <= k < at ==> !occurs_at(hay@, needle@, k),
        decreases last - at,
    {
        if seq_eq_at(&h, at, &n) {
            assert(occurs_at(hay@, needle@, at as int));
            return true;
        }
        if at == last {
            assert forall|k: int| !occurs_at(hay@, needle@, k) by {}
            return false;
        }
        at += 1;
    }
}

/// `needle` occurs in `hay` up to ASCII case.
pub fn contains_ignore_ascii_case(hay: &str, needle: &str) -> (r: bool)
    ensures
        r == contains_ignore_ascii_case_spec(hay@, needle@),
{
    let h = chars_of(hay);
    let n = chars_of(needle);
    if n.len() > h.len() {
        assert forall|at: int| !occurs_at_ignore_ascii_case(hay@, needle@, at) by {}
        return false;
    }
    let last = h.len() - n.len();
    let mut at: usize = 0;
    loop
        invariant
            h@ == hay@,
            n@ == needle@,
            last == h.len() - n.len(),
            n.len() <= h.len(),
            at <= last,
            forall|k: int| 0 <= k < at ==> !occurs_at_ignore_ascii_case(hay@, needle@, k),
        decreases last - at,
    {
        if seq_eq_ignore_ascii_case(&h, at, at + n.len(), &n) {
            assert(occurs_at_ignore_ascii_case(hay@, needle@, at as int));
            return true;
        }
        if at == last {
            assert forall|k: int| !occurs_at_ignore_ascii_case(hay@, needle@, k) by {}
            return false;
        }
        at += 1;
    }
}

/// `hay` begins with `prefix` (as `str::starts_with`).
pub fn starts_with(hay: &str, prefix: &str) -> (r: bool)
    ensures
        r == starts_with_spec(hay@, prefix@),
{
    let h = chars_of(hay);
    let p = chars_of(prefix);
    if p.len() > h.len() {
        return false;
    }
    seq_eq_at(&h, 0, &p)
}

/// `x[at..at + y.len()]` is exactly `y`.
fn seq_eq_at(x: &Vec<char>, at: usize, y: &Vec<char>) -> (r: bool)
    requires
        at + y.len() <= x.len(),
    ensures
        r == (x@.subrange(at as int, at + y.len()) == y@),
{
    let ghost sub = x@.subrange(at as int, at + y.len());
    let mut i: usize = 0;
    while i < y.len()
        invariant
            at + y.len() <= x.len(),
            sub == x@.subrange(at as int, at + y.len()),
            i <= y.len(),
            forall|j: int| 0 <= j < i ==> sub[j] == y@[j],
        decreases y.len() - i,
    {
        if x[at + i] != y[i] {
            assert(sub[i as int] != y@[i as int]);
            return false;
        }
        i += 1;
    }
    assert(sub =~= y@);
    true
}


/// The ASCII digit for `d` (`0` to `9`).
pub open spec fn digit_char(d: nat) -> char {
    ((48 + d) as u32) as char
}

/// Decimal text of `n`, without leading zeros.
pub open spec fn decimal_spec(n: nat) -> Seq<char>
    decreases n,
{
    if n < 10 {
        seq![digit_char(n)]
    } else {
        decimal_spec(n / 10).push(digit_char(n % 10))
    }
}

fn digit_str(d: u64) -> (r: &'static str)
    requires
        d < 10,
    ensures
        r@ == seq![digit_char(d as nat)],
{
    proof {
        reveal_strlit("0");
        reveal_strlit("1");
        reveal_strlit("2");
        reveal_strlit("3");
        reveal_strlit("4");
        reveal_strlit("5");
        reveal_strlit("6");
        reveal_strlit("7");
        reveal_strlit("8");
        reveal_strlit("9");
    }
    let r = if d == 0 {
        "0"
    } else if d == 1 {
        "1"
    } else if d == 2 {
        "2"
    } else if d == 3 {
        "3"
    } else if d == 4 {
        "4"
    } else if d == 5 {
        "5"
    } else if d == 6 {
        "6"
    } else if d == 7 {
        "7"
    } else if d == 8 {
        "8"
    } else {
        "9"
    };
    assert(r@ =~= seq![digit_char(d as nat)]);
    r
}

/// Appends the decimal text of `n` to `out`.
pub fn push_decimal(out: &mut String, n: u64)
    ensures
        final(out)@ == old(out)@ + decimal_spec(n as nat),
    decreases n,
{
    if n >= 10 {
        push_decimal(out, n / 10);
    }
    out.append(digit_str(n % 10));
    proof {
        if n >= 10 {
            assert(decimal_spec(n as nat) == decimal_spec((n / 10) as nat).push(digit_char((n % 10) as nat)));
        }
    }
}

/// The views of a list of strings.
pub open spec fn string_views(list: Seq<String>) -> Seq<Seq<char>> {
    list.map_values(|s: String| s@)
}

/// `list` joined with `sep` between consecutive items (as `[String]::join`).
pub open spec fn join_spec(list: Seq<Seq<char>>, sep: Seq<char>) -> Seq<char>
    decreases list.len(),
{
    if list.len() == 0 {
        Seq::empty()
    } else if list.len() == 1 {
        list[0]
    } else {
        join_spec(list.drop_last(), sep) + sep + list.last()
    }
}

/// `list` joined with `sep` between consecutive items.
pub fn join_strings(list: &Vec<String>, sep: &str) -> (r: String)
    ensures
        r@ == join_spec(string_views(list@), sep@),
{
    let mut r = String::new();
    let ghost views = string_views(list@);
    let mut i: usize = 0;
    while i < list.len()
        invariant
            views == string_views(list@),
            views.len() == list.len(),
            i <= list.len(),
            r@ == join_spec(views.take(i as int), sep@),
        decreases list.len() - i,
    {
        assert(views.take(i + 1).drop_last() =~= views.take(i as int));
        if i != 0 {
            r.append(sep);
        }
        r.append(list[i].as_str());
        i += 1;
    }
    assert(views.take(list.len() as int) =~= views);
    r
}

/// A substring of a substring of `hay` is a substring of `hay`.
pub proof fn lemma_contains_trans(hay: Seq<char>, mid: Seq<char>, needle: Seq<char>)
    requires
        contains_spec(hay, mid),
        contains_spec(mid, needle),
    ensures
        contains_spec(hay, needle),
{
    let k = choose|k: int| occurs_at(hay, mid, k);
    let m = choose|m: int| occurs_at(mid, needle, m);
    assert(hay.subrange(k + m, k + m + needle.len()) =~= mid.subrange(m, m + needle.len()));
    assert(occurs_at(hay, needle, k + m));
}

/// `mid` is a substring of `pre + mid + post`.
pub proof fn lemma_contains_middle(pre: Seq<char>, mid: Seq<char>, post: Seq<char>)
    ensures
        contains_spec(pre + mid + post, mid),
{
    assert((pre + mid + post).subrange(pre.len() as int, (pre.len() + mid.len()) as int) =~= mid);
    assert(occurs_at(pre + mid + post, mid, pre.len() as int));
}

/// Every item of a list is a substring of the list joined.
pub proof fn lemma_join_contains_item(list: Seq<Seq<char>>, sep: Seq<char>, j: int)
    requires
        0 <= j < list.len(),
    ensures
        contains_spec(join_spec(list, sep), list[j]),
    decreases list.len(),
{
    if list.len() == 1 {
        lemma_contains_middle(Seq::empty(), list[0], Seq::empty());
        assert(Seq::<char>::empty() + list[0] + Seq::<char>::empty() =~= list[0]);
    } else if j == list.len() - 1 {
        lemma_contains_middle(join_spec(list.drop_last(), sep) + sep, list.last(), Seq::empty());
        assert(join_spec(list.drop_last(), sep) + sep + list.last() + Seq::<char>::empty()
            =~= join_spec(list, sep));
    } else {
        let a = join_spec(list.drop_last(), sep);
        lemma_join_contains_item(list.drop_last(), sep, j);
        lemma_contains_middle(Seq::empty(), a, sep + list.last());
        assert(Seq::<char>::empty() + a + (sep + list.last()) =~= join_spec(list, sep));
        lemma_contains_trans(join_spec(list, sep), a, list[j]);
    }
}

} // verus!
