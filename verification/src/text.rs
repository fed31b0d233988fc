use vstd::prelude::*;

verus! {

/// The position of the first occurrence of `c` in `s`, or `s.len()` when
/// `c` does not occur.
pub open spec fn first_index_of(s: Seq<char>, c: char) -> int
    decreases s.len(),
{
    if s.len() == 0 {
        0
    } else if s[0] == c {
        0
    } else {
        1 + first_index_of(s.drop_first(), c)
    }
}

/// `first_index_of` is the least position holding `c`.
pub proof fn lemma_first_index_of(s: Seq<char>, c: char)
    ensures
        0 <= first_index_of(s, c) <= s.len(),
        first_index_of(s, c) < s.len() ==> s[first_index_of(s, c)] == c,
        forall|j: int| 0 <= j < first_index_of(s, c) ==> s[j] != c,
    decreases s.len(),
{
    if s.len() != 0 && s[0] != c {
        let t = s.drop_first();
        lemma_first_index_of(t, c);
        assert forall|j: int| 0 <= j < first_index_of(s, c) implies s[j] != c by {
            if j > 0 {
                assert(s[j] == t[j - 1]);
            }
        }
    }
}

/// A position `i` that holds `c` with no earlier occurrence is the first one.
pub proof fn lemma_first_index_of_unique(s: Seq<char>, c: char, i: int)
    requires
        0 <= i <= s.len(),
        i < s.len() ==> s[i] == c,
        forall|j: int| 0 <= j < i ==> s[j] != c,
    ensures
        first_index_of(s, c) == i,
{
    lemma_first_index_of(s, c);
}

/// Number of characters of `s`.
pub fn char_len(s: &str) -> (n: usize)
    ensures
        n == s@.len(),
{
    s.unicode_len()
}

/// Finds the first occurrence of `c` in `s`, counted in characters.
pub fn find_char(s: &str, c: char) -> (r: Option<usize>)
    ensures
        match r {
            Some(i) => i < s@.len() && first_index_of(s@, c) == i,
            None => first_index_of(s@, c) == s@.len(),
        },
{
    let n = s.unicode_len();
    let mut i: usize = 0;
    for ch in it: s.chars()
        invariant
            i == it.index(),
            it.seq() == s@,
            n == s@.len(),
            forall|j: int| 0 <= j < i ==> s@[j] != c,
    {
        if ch == c {
            proof {
                lemma_first_index_of_unique(s@, c, i as int);
            }
            return Some(i);
        }
        i = i + 1;
    }
    proof {
        lemma_first_index_of_unique(s@, c, s@.len() as int);
    }
    None
}

/// The characters of `s`, one by one.
pub fn to_chars(s: &str) -> (v: Vec<char>)
    ensures
        v@ == s@,
{
    let mut v: Vec<char> = Vec::new();
    for ch in it: s.chars()
        invariant
            it.seq() == s@,
            v@ == s@.take(it.index() as int),
    {
        v.push(ch);
        assert(s@.take(it.index() + 1) == s@.take(it.index() as int).push(ch));
    }
    assert(s@.take(s@.len() as int) == s@);
    v
}

/// Whether `s` begins with `prefix`.
pub fn starts_with(s: &str, prefix: &str) -> (b: bool)
    ensures
        b == prefix@.is_prefix_of(s@),
{
    let n = s.unicode_len();
    let m = prefix.unicode_len();
    if m > n {
        return false;
    }
    let head = s.substring_char(0, m);
    let same = head.to_owned() == prefix.to_owned();
    proof {
        if same {
            assert(s@.subrange(0, m as int) =~= prefix@);
        }
    }
    same
}

/// The characters of `s` from position `from` up to, not including, `to`.
pub fn slice_chars(s: &str, from: usize, to: usize) -> (r: String)
    requires
        from <= to <= s@.len(),
    ensures
        r@ == s@.subrange(from as int, to as int),
{
    s.substring_char(from, to).to_owned()
}

/// `a` followed by `b`.
pub fn concat(a: &str, b: &str) -> (r: String)
    ensures
        r@ == a@ + b@,
{
    let mut r = a.to_owned();
    r.append(b);
    r
}

/// The texts of a list of strings.
pub open spec fn strings_view(list: Seq<String>) -> Seq<Seq<char>> {
    Seq::new(list.len(), |i: int| list[i]@)
}

/// The texts of an optional list of strings.
pub open spec fn opt_strings_view(list: Option<Vec<String>>) -> Option<Seq<Seq<char>>> {
    match list {
        Some(l) => Some(strings_view(l@)),
        None => None,
    }
}

/// The text of an optional string.
pub open spec fn opt_text(text: Option<String>) -> Option<Seq<char>> {
    match text {
        Some(t) => Some(t@),
        None => None,
    }
}

/// Whether two lists hold the same texts in the same order.
pub fn same_strings(a: &Vec<String>, b: &Vec<String>) -> (r: bool)
    ensures
        r == (strings_view(a@) == strings_view(b@)),
{
    if a.len() != b.len() {
        assert(strings_view(a@).len() != strings_view(b@).len());
        return false;
    }
    let mut i: usize = 0;
    while i < a.len()
        invariant
            0 <= i <= a.len(),
            a.len() == b.len(),
            forall|j: int| 0 <= j < i ==> a@[j]@ == b@[j]@,
        decreases a.len() - i,
    {
        if a[i] != b[i] {
            assert(strings_view(a@)[i as int] != strings_view(b@)[i as int]);
            return false;
        }
        i = i + 1;
    }
    assert(strings_view(a@) =~= strings_view(b@));
    true
}

/// Whether two optional lists hold the same texts in the same order.
pub fn same_opt_strings(a: &Option<Vec<String>>, b: &Option<Vec<String>>) -> (r: bool)
    ensures
        r == (opt_strings_view(*a) == opt_strings_view(*b)),
{
    match (a, b) {
        (Some(x), Some(y)) => same_strings(x, y),
        (None, None) => true,
        _ => false,
    }
}

/// Whether two optional strings hold the same text.
pub fn same_opt_text(a: &Option<String>, b: &Option<String>) -> (r: bool)
    ensures
        r == (opt_text(*a) == opt_text(*b)),
{
    match (a, b) {
        (Some(x), Some(y)) => *x == *y,
        (None, None) => true,
        _ => false,
    }
}

/// A copy of a list of strings.
pub fn clone_strings(list: &Vec<String>) -> (r: Vec<String>)
    ensures
        r@ == list@,
{
    let mut r: Vec<String> = Vec::new();
    let mut i: usize = 0;
    while i < list.len()
        invariant
            0 <= i <= list.len(),
            r@ == list@.take(i as int),
        decreases list.len() - i,
    {
        r.push(list[i].clone());
        i = i + 1;
        assert(list@.take(i as int) == list@.take(i - 1).push(list@[i - 1]));
    }
    assert(list@.take(i as int) == list@);
    r
}

/// A copy of an optional list of strings.
pub fn clone_opt_strings(list: &Option<Vec<String>>) -> (r: Option<Vec<String>>)
    ensures
        match (r, *list) {
            (Some(c), Some(l)) => c@ == l@,
            (None, None) => true,
            _ => false,
        },
{
    match list {
        Some(l) => Some(clone_strings(l)),
        None => None,
    }
}

} // verus!
