use vstd::prelude::*;
use vstd::string::StrSliceExecFns;

verus! {

/// The case-folded code point of a character: an ASCII upper-case letter folds
/// to its lower-case counterpart, every other character stands for itself.
pub open spec fn fold_char(c: char) -> int {
    if 65 <= c as int <= 90 {
        c as int + 32
    } else {
        c as int
    }
}

/// Two character sequences are equal up to ASCII case.
pub open spec fn eq_ignore_case(a: Seq<char>, b: Seq<char>) -> bool {
    &&& a.len() == b.len()
    &&& forall|i: int| 0 <= i < a.len() ==> fold_char(a[i]) == fold_char(b[i])
}

/// Compares two strings for exact equality of their character sequences.
pub fn str_eq(a: &str, b: &str) -> (r: bool)
    ensures
        r == (a@ == b@),
{
    let a_len = a.unicode_len();
    let b_len = b.unicode_len();
    if a_len != b_len {
        return false;
    }
    let mut i: usize = 0;
    while i < a_len
        invariant
            a_len == a@.len(),
            b_len == b@.len(),
            a_len == b_len,
            i <= a_len,
            forall|j: int| 0 <= j < i ==> a@[j] == b@[j],
        decreases a_len - i,
    {
        if a.get_char(i) != b.get_char(i) {
            return false;
        }
        i += 1;
    }
    proof {
        assert(a@ =~= b@);
    }
    true
}

/// Compares two strings for equality, ignoring ASCII case.
pub fn str_eq_ignore_ascii_case(a: &str, b: &str) -> (r: bool)
    ensures
        r == eq_ignore_case(a@, b@),
{
    let a_len = a.unicode_len();
    let b_len = b.unicode_len();
    if a_len != b_len {
        return false;
    }
    let mut i: usize = 0;
    while i < a_len
        invariant
            a_len == a@.len(),
            b_len == b@.len(),
            a_len == b_len,
            i <= a_len,
            forall|j: int| 0 <= j < i ==> fold_char(a@[j]) == fold_char(b@[j]),
        decreases a_len - i,
    {
        let ua = a.get_char(i) as u32;
        let ub = b.get_char(i) as u32;
        let fa = if 65 <= ua && ua <= 90 { ua + 32 } else { ua };
        let fb = if 65 <= ub && ub <= 90 { ub + 32 } else { ub };
        if fa != fb {
            assert(fold_char(a@[i as int]) != fold_char(b@[i as int]));
            return false;
        }
        i += 1;
    }
    true
}

/// Lexicographic order on character sequences by code point, comparing from
/// position `j` on: a sequence that runs out first comes first.
pub open spec fn lex_le_from(a: Seq<char>, b: Seq<char>, j: int) -> bool
    decreases a.len() - j,
{
    if j >= a.len() {
        true
    } else if j >= b.len() {
        false
    } else if a[j] == b[j] {
        lex_le_from(a, b, j + 1)
    } else {
        (a[j] as int) < (b[j] as int)
    }
}

/// Lexicographic order on character sequences by code point.
pub open spec fn lex_le(a: Seq<char>, b: Seq<char>) -> bool {
    lex_le_from(a, b, 0)
}

/// Any two character sequences are ordered one way or the other.
pub proof fn lemma_lex_le_total(a: Seq<char>, b: Seq<char>, j: int)
    ensures
        lex_le_from(a, b, j) || lex_le_from(b, a, j),
    decreases a.len() - j,
{
    if j < a.len() && j < b.len() && a[j] == b[j] {
        lemma_lex_le_total(a, b, j + 1);
    }
}

/// The lexicographic order is transitive.
pub proof fn lemma_lex_le_trans(a: Seq<char>, b: Seq<char>, c: Seq<char>, j: int)
    requires
        lex_le_from(a, b, j),
        lex_le_from(b, c, j),
    ensures
        lex_le_from(a, c, j),
    decreases a.len() - j,
{
    if j < a.len() && j < b.len() && j < c.len() && a[j] == b[j] && b[j] == c[j] {
        lemma_lex_le_trans(a, b, c, j + 1);
    }
}

/// Compares two strings in the lexicographic order of their characters.
pub fn str_le(a: &str, b: &str) -> (r: bool)
    ensures
        r == lex_le(a@, b@),
{
    let a_len = a.unicode_len();
    let b_len = b.unicode_len();
    let mut j: usize = 0;
    while j < a_len && j < b_len
        invariant
            a_len == a@.len(),
            b_len == b@.len(),
            j <= a_len,
            j <= b_len,
            lex_le(a@, b@) == lex_le_from(a@, b@, j as int),
        decreases a_len - j,
    {
        let ca = a.get_char(j);
        let cb = b.get_char(j);
        if ca != cb {
            return (ca as u32) < (cb as u32);
        }
        j += 1;
    }
    a_len <= b_len
}

} // verus!
