//! Character-level text helpers shared by the field validators.

use vstd::prelude::*;

verus! {

/// The Unicode white-space characters, the set `str::trim` removes.
pub open spec fn spec_is_space(c: char) -> bool {
    ||| 0x9 <= c as u32 && c as u32 <= 0xD
    ||| c as u32 == 0x20
    ||| c as u32 == 0x85
    ||| c as u32 == 0xA0
    ||| c as u32 == 0x1680
    ||| 0x2000 <= c as u32 && c as u32 <= 0x200A
    ||| c as u32 == 0x2028
    ||| c as u32 == 0x2029
    ||| c as u32 == 0x202F
    ||| c as u32 == 0x205F
    ||| c as u32 == 0x3000
}

/// Index of the first character at or after `i` that is not whitespace,
/// or `s.len()` if all of them are.
pub open spec fn first_non_space(s: Seq<char>, i: int) -> int
    decreases s.len() - i,
{
    if i < 0 || i >= s.len() {
        s.len() as int
    } else if spec_is_space(s[i]) {
        first_non_space(s, i + 1)
    } else {
        i
    }
}

/// End (exclusive) of the last character before `j` that is not whitespace,
/// or `0` if all of them are.
pub open spec fn last_non_space_end(s: Seq<char>, j: int) -> int
    decreases j,
{
    if j <= 0 || j > s.len() {
        0
    } else if spec_is_space(s[j - 1]) {
        last_non_space_end(s, j - 1)
    } else {
        j
    }
}

/// `s` with leading and trailing whitespace removed.
pub open spec fn trim_seq(s: Seq<char>) -> Seq<char> {
    let a = first_non_space(s, 0);
    let b = last_non_space_end(s, s.len() as int);
    if a < b {
        s.subrange(a, b)
    } else {
        Seq::empty()
    }
}

proof fn lemma_first_non_space_is(s: Seq<char>, i: int, j: int)
    requires
        0 <= i <= j <= s.len(),
        forall|k: int| i <= k < j ==> spec_is_space(s[k]),
        j == s.len() || !spec_is_space(s[j]),
    ensures
        first_non_space(s, i) == j,
    decreases j - i,
{
    if i < j {
        lemma_first_non_space_is(s, i + 1, j);
    }
}

proof fn lemma_last_non_space_end_is(s: Seq<char>, j: int, b: int)
    requires
        0 <= b <= j <= s.len(),
        forall|k: int| b <= k < j ==> spec_is_space(s[k]),
        b == 0 || !spec_is_space(s[b - 1]),
    ensures
        last_non_space_end(s, j) == b,
    decreases j - b,
{
    if b < j {
        lemma_last_non_space_end_is(s, j - 1, b);
    }
}

pub fn is_space(c: char) -> (r: bool)
    ensures
        r == spec_is_space(c),
{
    let u = c as u32;
    (0x9 <= u && u <= 0xD) || u == 0x20 || u == 0x85 || u == 0xA0 || u == 0x1680
        || (0x2000 <= u && u <= 0x200A) || u == 0x2028 || u == 0x2029 || u == 0x202F
        || u == 0x205F || u == 0x3000
}

/// Returns `s` with leading and trailing whitespace removed.
pub fn trim_spaces(s: &str) -> (r: &str)
    ensures
        r@ == trim_seq(s@),
{
    let n = s.unicode_len();
    let mut a: usize = 0;
    while a < n && is_space(s.get_char(a))
        invariant
            0 <= a <= n,
            n == s@.len(),
            forall|k: int| 0 <= k < a ==> spec_is_space(s@[k]),
        decreases n - a,
    {
        a = a + 1;
    }
    proof {
        lemma_first_non_space_is(s@, 0, a as int);
    }
    if a == n {
        proof {
            lemma_last_non_space_end_is(s@, n as int, 0);
        }
        let r = "";
        proof {
            reveal_strlit("");
            assert(r@ =~= trim_seq(s@));
        }
        return r;
    }
    let mut b: usize = n;
    while b > a + 1 && is_space(s.get_char(b - 1))
        invariant
            a < b <= n,
            n == s@.len(),
            !spec_is_space(s@[a as int]),
            forall|k: int| b <= k < n ==> spec_is_space(s@[k]),
        decreases b,
    {
        b = b - 1;
    }
    if is_space(s.get_char(b - 1)) {
        // only possible when b == a + 1, contradicting that s[a] is not whitespace
        proof {
            assert(b == a + 1);
            assert(false);
        }
    }
    proof {
        lemma_last_non_space_end_is(s@, n as int, b as int);
    }
    let r = s.substring_char(a, b);
    proof {
        assert(r@ =~= trim_seq(s@));
    }
    r
}

/// Character-by-character string equality, equivalent to equality of the views.
pub fn str_eq(a: &str, b: &str) -> (r: bool)
    ensures
        r == (a@ == b@),
{
    let na = a.unicode_len();
    let nb = b.unicode_len();
    if na != nb {
        return false;
    }
    let mut i: usize = 0;
    while i < na
        invariant
            0 <= i <= na,
            na == a@.len(),
            na == b@.len(),
            forall|k: int| 0 <= k < i ==> a@[k] == b@[k],
        decreases na - i,
    {
        if a.get_char(i) != b.get_char(i) {
            return false;
        }
        i = i + 1;
    }
    proof {
        assert(a@ =~= b@);
    }
    true
}

} // verus!
