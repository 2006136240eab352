//! Lines as sequences of Unicode scalar values, and the small scans the
//! detectors are built from.

use vstd::prelude::*;

verus! {

/// The scalar values of `s`, in order.
pub fn chars_of(s: &str) -> (v: Vec<char>)
    ensures
        v@ == s@,
{
    let mut v: Vec<char> = Vec::new();
    for c in it: s.chars()
        invariant
            it.seq() == s@,
            v@ == s@.take(it.index() as int),
    {
        v.push(c);
    }
    v
}

/// The characters that Unicode gives the property `White_Space`.
pub open spec fn is_white_space(c: char) -> bool {
    let u = c as u32;
    ||| 0x09 <= u <= 0x0D
    ||| u == 0x20
    ||| u == 0x85
    ||| u == 0xA0
    ||| u == 0x1680
    ||| 0x2000 <= u <= 0x200A
    ||| u == 0x2028
    ||| u == 0x2029
    ||| u == 0x202F
    ||| u == 0x205F
    ||| u == 0x3000
}

/// Whether `c` is white space.
pub fn white_space(c: char) -> (b: bool)
    ensures
        b == is_white_space(c),
{
    let u: u32 = c as u32;
    (0x09 <= u && u <= 0x0D) || u == 0x20 || u == 0x85 || u == 0xA0 || u == 0x1680 || (0x2000 <= u
        && u <= 0x200A) || u == 0x2028 || u == 0x2029 || u == 0x202F || u == 0x205F || u == 0x3000
}

/// A set of characters that a scan runs over.
#[derive(Clone, Copy, Debug)]
pub enum CharClass {
    /// One given character.
    Exactly(char),
    /// Space and horizontal tab.
    Blank,
    /// Unicode white space.
    WhiteSpace,
}

impl CharClass {
    /// Whether `c` belongs to the class.
    pub open spec fn contains(self, c: char) -> bool {
        match self {
            CharClass::Exactly(x) => c == x,
            CharClass::Blank => c == ' ' || c == '\t',
            CharClass::WhiteSpace => is_white_space(c),
        }
    }

    /// Decides `contains`.
    pub fn has(&self, c: char) -> (b: bool)
        ensures
            b == self.contains(c),
    {
        match self {
            CharClass::Exactly(x) => c == *x,
            CharClass::Blank => c == ' ' || c == '\t',
            CharClass::WhiteSpace => white_space(c),
        }
    }
}

/// Length of the longest prefix of `s` made of characters of `class`.
pub open spec fn prefix_len(s: Seq<char>, class: CharClass) -> nat
    decreases s.len(),
{
    if s.len() > 0 && class.contains(s[0]) {
        1 + prefix_len(s.drop_first(), class)
    } else {
        0
    }
}

/// A run of `n` characters of `class` that ends at the end of `s` or at a
/// character outside the class is the longest such prefix.
pub proof fn lemma_prefix_len_unique(s: Seq<char>, class: CharClass, n: int)
    requires
        0 <= n <= s.len(),
        forall|i: int| 0 <= i < n ==> class.contains(#[trigger] s[i]),
        n < s.len() ==> !class.contains(s[n]),
    ensures
        prefix_len(s, class) == n,
    decreases n,
{
    if n > 0 {
        lemma_prefix_len_unique(s.drop_first(), class, n - 1);
    }
}

/// The longest prefix lies within `s`, holds only characters of `class`,
/// and is followed by none.
pub proof fn lemma_prefix_len_is_run(s: Seq<char>, class: CharClass)
    ensures
        prefix_len(s, class) <= s.len(),
        forall|i: int| 0 <= i < prefix_len(s, class) ==> class.contains(#[trigger] s[i]),
        prefix_len(s, class) < s.len() ==> !class.contains(s[prefix_len(s, class) as int]),
    decreases s.len(),
{
    if s.len() > 0 && class.contains(s[0]) {
        let t = s.drop_first();
        lemma_prefix_len_is_run(t, class);
        assert forall|i: int| 0 <= i < prefix_len(s, class) implies class.contains(
            #[trigger] s[i],
        ) by {
            if i > 0 {
                assert(s[i] == t[i - 1]);
            }
        }
    }
}

/// Computes `prefix_len`.
pub fn leading_len(v: &Vec<char>, class: CharClass) -> (n: usize)
    ensures
        n == prefix_len(v@, class),
        n <= v.len(),
{
    let mut i: usize = 0;
    while i < v.len() && class.has(v[i])
        invariant
            i <= v.len(),
            forall|j: int| 0 <= j < i ==> class.contains(#[trigger] v@[j]),
        decreases v.len() - i,
    {
        i += 1;
    }
    proof {
        lemma_prefix_len_unique(v@, class, i as int);
    }
    i
}

/// Length of `s` once the longest suffix made of characters of `class` is
/// taken away.
pub open spec fn trimmed_len(s: Seq<char>, class: CharClass) -> nat
    decreases s.len(),
{
    if s.len() > 0 && class.contains(s.last()) {
        trimmed_len(s.drop_last(), class)
    } else {
        s.len()
    }
}

/// A suffix of characters of `class` that starts at the start of `s` or
/// after a character outside the class is the longest such suffix.
pub proof fn lemma_trimmed_len_unique(s: Seq<char>, class: CharClass, n: int)
    requires
        0 <= n <= s.len(),
        forall|i: int| n <= i < s.len() ==> class.contains(#[trigger] s[i]),
        n > 0 ==> !class.contains(s[n - 1]),
    ensures
        trimmed_len(s, class) == n,
    decreases s.len(),
{
    if n < s.len() {
        lemma_trimmed_len_unique(s.drop_last(), class, n);
    }
}

/// What is cut off holds only characters of `class`, and what is left
/// does not end in one.
pub proof fn lemma_trimmed_len_is_cut(s: Seq<char>, class: CharClass)
    ensures
        trimmed_len(s, class) <= s.len(),
        forall|i: int| trimmed_len(s, class) <= i < s.len() ==> class.contains(#[trigger] s[i]),
        trimmed_len(s, class) > 0 ==> !class.contains(s[trimmed_len(s, class) - 1]),
    decreases s.len(),
{
    if s.len() > 0 && class.contains(s.last()) {
        let t = s.drop_last();
        lemma_trimmed_len_is_cut(t, class);
        assert forall|i: int| trimmed_len(s, class) <= i < s.len() implies class.contains(
            #[trigger] s[i],
        ) by {
            if i < t.len() {
                assert(s[i] == t[i]);
            }
        }
    }
}

/// Computes `trimmed_len`.
pub fn trailing_cut(v: &Vec<char>, class: CharClass) -> (n: usize)
    ensures
        n == trimmed_len(v@, class),
        n <= v.len(),
{
    let mut i: usize = v.len();
    while i > 0 && class.has(v[i - 1])
        invariant
            i <= v.len(),
            forall|j: int| i <= j < v.len() ==> class.contains(#[trigger] v@[j]),
        decreases i,
    {
        i -= 1;
    }
    proof {
        lemma_trimmed_len_unique(v@, class, i as int);
    }
    i
}

/// Whether `p` stands in `s` at offset `k`.
pub open spec fn occurs_at(s: Seq<char>, p: Seq<char>, k: int) -> bool {
    &&& 0 <= k
    &&& k + p.len() <= s.len()
    &&& forall|i: int| 0 <= i < p.len() ==> s[k + i] == #[trigger] p[i]
}

/// Decides `occurs_at`.
pub fn matches_at(v: &Vec<char>, p: &Vec<char>, k: usize) -> (b: bool)
    ensures
        b == occurs_at(v@, p@, k as int),
{
    if p.len() > v.len() || k > v.len() - p.len() {
        return false;
    }
    let mut i: usize = 0;
    while i < p.len()
        invariant
            i <= p.len(),
            k + p.len() <= v.len(),
            forall|j: int| 0 <= j < i ==> v@[k + j] == #[trigger] p@[j],
        decreases p.len() - i,
    {
        if v[k + i] != p[i] {
            return false;
        }
        i += 1;
    }
    true
}

/// The least offset at or after `k` at which `p` stands in `s`.
pub open spec fn occurrence_from(s: Seq<char>, p: Seq<char>, k: int) -> Option<int>
    decreases s.len() - k,
{
    if k < 0 || k + p.len() > s.len() {
        None
    } else if occurs_at(s, p, k) {
        Some(k)
    } else {
        occurrence_from(s, p, k + 1)
    }
}

/// The least offset at which `p` stands in `s`.
pub open spec fn first_occurrence(s: Seq<char>, p: Seq<char>) -> Option<int> {
    occurrence_from(s, p, 0)
}

/// `occurrence_from` finds an occurrence with none between `k` and it, or
/// there is none at or after `k`.
pub proof fn lemma_occurrence_from(s: Seq<char>, p: Seq<char>, k: int)
    requires
        0 <= k,
    ensures
        match occurrence_from(s, p, k) {
            Some(i) => k <= i && occurs_at(s, p, i) && forall|j: int|
                k <= j < i ==> !occurs_at(s, p, j),
            None => forall|j: int| k <= j ==> !occurs_at(s, p, j),
        },
    decreases s.len() - k,
{
    if k + p.len() <= s.len() && !occurs_at(s, p, k) {
        lemma_occurrence_from(s, p, k + 1);
    }
}

/// Computes `first_occurrence`: the offset of an occurrence before which
/// there is none, or `None` where `p` stands nowhere in `v`.
pub fn find(v: &Vec<char>, p: &Vec<char>) -> (r: Option<usize>)
    ensures
        match r {
            Some(i) => {
                &&& first_occurrence(v@, p@) == Some(i as int)
                &&& i + p.len() <= v.len()
                &&& occurs_at(v@, p@, i as int)
                &&& forall|j: int| 0 <= j < i ==> !occurs_at(v@, p@, j)
            },
            None => {
                &&& first_occurrence(v@, p@) is None
                &&& forall|j: int| !occurs_at(v@, p@, j)
            },
        },
{
    proof {
        lemma_occurrence_from(v@, p@, 0);
    }
    if p.len() > v.len() {
        return None;
    }
    let last: usize = v.len() - p.len();
    let mut k: usize = 0;
    while k <= last
        invariant
            last == v.len() - p.len(),
            k <= last + 1,
            occurrence_from(v@, p@, 0) == occurrence_from(v@, p@, k as int),
        decreases last + 1 - k,
    {
        if matches_at(v, p, k) {
            proof {
                lemma_occurrence_from(v@, p@, 0);
            }
            return Some(k);
        }
        k += 1;
    }
    None
}

/// The least index in `from..to` at which `s` holds `c`.
pub open spec fn index_in(s: Seq<char>, c: char, from: int, to: int) -> Option<int>
    decreases to - from,
{
    if from < 0 || from >= to || from >= s.len() {
        None
    } else if s[from] == c {
        Some(from)
    } else {
        index_in(s, c, from + 1, to)
    }
}

/// `index_in` finds `c` with none between `from` and it, or there is
/// none in the range.
pub proof fn lemma_index_in(s: Seq<char>, c: char, from: int, to: int)
    requires
        0 <= from,
    ensures
        match index_in(s, c, from, to) {
            Some(i) => from <= i < to && i < s.len() && s[i] == c && forall|j: int|
                from <= j < i ==> s[j] != c,
            None => forall|j: int| from <= j < to && j < s.len() ==> s[j] != c,
        },
    decreases to - from,
{
    if from < to && from < s.len() && s[from] != c {
        lemma_index_in(s, c, from + 1, to);
    }
}

/// Computes `index_in`.
pub fn find_char(v: &Vec<char>, c: char, from: usize, to: usize) -> (r: Option<usize>)
    ensures
        match r {
            Some(i) => index_in(v@, c, from as int, to as int) == Some(i as int) && from <= i < to
                && i < v.len(),
            None => index_in(v@, c, from as int, to as int) is None,
        },
{
    let mut k: usize = from;
    while k < to && k < v.len()
        invariant
            from <= k,
            index_in(v@, c, from as int, to as int) == index_in(v@, c, k as int, to as int),
        decreases v.len() - k,
    {
        if v[k] == c {
            return Some(k);
        }
        k += 1;
    }
    None
}

} // verus!
