//! Small verified string helpers over the character view of `str`.

use vstd::prelude::*;

verus! {

/// `prefix` is a prefix of `full`, character by character.
pub open spec fn spec_starts_with(full: Seq<char>, prefix: Seq<char>) -> bool {
    prefix.len() <= full.len() && full.subrange(0, prefix.len() as int) == prefix
}

/// `suffix` is a suffix of `full`, character by character.
pub open spec fn spec_ends_with(full: Seq<char>, suffix: Seq<char>) -> bool {
    suffix.len() <= full.len() && full.subrange(full.len() - suffix.len(), full.len() as int)
        == suffix
}

/// Character-wise equality of two strings.
pub fn str_eq(a: &str, b: &str) -> (r: bool)
    ensures
        r == (a@ == b@),
{
    let n = a.unicode_len();
    let m = b.unicode_len();
    if n != m {
        return false;
    }
    let mut i: usize = 0;
    while i < n
        invariant
            n == a@.len(),
            m == b@.len(),
            n == m,
            i <= n,
            forall|j: int| 0 <= j < i ==> a@[j] == b@[j],
        decreases n - i,
    {
        if a.get_char(i) != b.get_char(i) {
            return false;
        }
        i = i + 1;
    }
    assert(a@ =~= b@);
    true
}

/// Whether `full` begins with `prefix`.
pub fn starts_with(full: &str, prefix: &str) -> (r: bool)
    ensures
        r == spec_starts_with(full@, prefix@),
{
    let n = full.unicode_len();
    let m = prefix.unicode_len();
    if m > n {
        return false;
    }
    let mut i: usize = 0;
    while i < m
        invariant
            n == full@.len(),
            m == prefix@.len(),
            m <= n,
            i <= m,
            forall|j: int| 0 <= j < i ==> full@[j] == prefix@[j],
        decreases m - i,
    {
        if full.get_char(i) != prefix.get_char(i) {
            assert(full@.subrange(0, m as int)[i as int] != prefix@[i as int]);
            return false;
        }
        i = i + 1;
    }
    assert(full@.subrange(0, m as int) =~= prefix@);
    true
}

/// Whether `full` ends with `suffix`.
pub fn ends_with(full: &str, suffix: &str) -> (r: bool)
    ensures
        r == spec_ends_with(full@, suffix@),
{
    let n = full.unicode_len();
    let m = suffix.unicode_len();
    if m > n {
        return false;
    }
    let off = n - m;
    let mut i: usize = 0;
    while i < m
        invariant
            n == full@.len(),
            m == suffix@.len(),
            m <= n,
            off == n - m,
            i <= m,
            forall|j: int| 0 <= j < i ==> full@[off + j] == suffix@[j],
        decreases m - i,
    {
        if full.get_char(off + i) != suffix.get_char(i) {
            assert(full@.subrange(off as int, n as int)[i as int] != suffix@[i as int]);
            return false;
        }
        i = i + 1;
    }
    assert(full@.subrange(off as int, n as int) =~= suffix@);
    true
}

/// The decimal digit `d` as a character.
pub open spec fn digit_char(d: nat) -> char {
    if d == 0 {
        '0'
    } else if d == 1 {
        '1'
    } else if d == 2 {
        '2'
    } else if d == 3 {
        '3'
    } else if d == 4 {
        '4'
    } else if d == 5 {
        '5'
    } else if d == 6 {
        '6'
    } else if d == 7 {
        '7'
    } else if d == 8 {
        '8'
    } else {
        '9'
    }
}

/// The decimal notation of `n`, without leading zeros.
pub open spec fn spec_decimal(n: nat) -> Seq<char>
    decreases n,
{
    if n < 10 {
        seq![digit_char(n)]
    } else {
        spec_decimal(n / 10).push(digit_char(n % 10))
    }
}

fn digit_str(d: u64) -> (r: &'static str)
    requires
        d < 10,
    ensures
        r@ == seq![digit_char(d as nat)],
{
    proof {
        reveal_strlit("0");
        reveal_strlit("1");
        reveal_strlit("2");
        reveal_strlit("3");
        reveal_strlit("4");
        reveal_strlit("5");
        reveal_strlit("6");
        reveal_strlit("7");
        reveal_strlit("8");
        reveal_strlit("9");
    }
    if d == 0 {
        "0"
    } else if d == 1 {
        "1"
    } else if d == 2 {
        "2"
    } else if d == 3 {
        "3"
    } else if d == 4 {
        "4"
    } else if d == 5 {
        "5"
    } else if d == 6 {
        "6"
    } else if d == 7 {
        "7"
    } else if d == 8 {
        "8"
    } else {
        "9"
    }
}

/// The decimal notation of `n`.
pub fn decimal_string(n: u64) -> (r: String)
    ensures
        r@ == spec_decimal(n as nat),
    decreases n,
{
    if n < 10 {
        String::from_str(digit_str(n))
    } else {
        let s = decimal_string(n / 10);
        let s = s.concat(digit_str(n % 10));
        assert(s@ =~= spec_decimal(n as nat));
        s
    }
}

/// `needle` occurs somewhere in `hay`.
pub open spec fn spec_contains(hay: Seq<char>, needle: Seq<char>) -> bool {
    exists|i: int| 0 <= i && i + needle.len() <= hay.len() && #[trigger] hay.subrange(i, i + needle.len()) == needle
}

/// Whether `needle` occurs somewhere in `hay`.
pub fn contains_str(hay: &str, needle: &str) -> (r: bool)
    ensures
        r == spec_contains(hay@, needle@),
{
    let n = hay.unicode_len();
    let m = needle.unicode_len();
    if m > n {
        proof {
            assert forall|i: int| 0 <= i && i + m <= n implies #[trigger] hay@.subrange(i, i + m) != needle@ by {}
        }
        return false;
    }
    let mut i: usize = 0;
    while i <= n - m
        invariant
            n == hay@.len(),
            m == needle@.len(),
            m <= n,
            i <= n - m + 1,
            forall|j: int| 0 <= j < i ==> #[trigger] hay@.subrange(j, j + m) != needle@,
        decreases n - i,
    {
        let mut k: usize = 0;
        let mut same = true;
        while k < m
            invariant
                n == hay@.len(),
                m == needle@.len(),
                i + m <= n,
                k <= m,
                same == (forall|q: int| 0 <= q < k ==> hay@[i + q] == needle@[q]),
            decreases m - k,
        {
            if hay.get_char(i + k) != needle.get_char(k) {
                same = false;
            }
            k = k + 1;
        }
        if same {
            assert(hay@.subrange(i as int, i + m) =~= needle@);
            return true;
        }
        proof {
            assert(!(forall|q: int| 0 <= q < m ==> hay@[i + q] == needle@[q]));
            let q = choose|q: int| 0 <= q < m && hay@[i + q] != needle@[q];
            assert(hay@.subrange(i as int, i + m)[q] != needle@[q]);
        }
        i = i + 1;
    }
    false
}

} // verus!
