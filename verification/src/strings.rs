use vstd::prelude::*;

verus! {

/// ASCII lower-casing of one character; everything outside `A`..`Z` is kept.
pub open spec fn lower_char(c: char) -> char {
    if 'A' <= c && c <= 'Z' {
        ((c as u32) + 32) as char
    } else {
        c
    }
}

pub fn ascii_lower_char(c: char) -> (r: char)
    ensures
        r == lower_char(c),
{
    if 'A' <= c && c <= 'Z' {
        (((c as u32) + 32) as u8) as char
    } else {
        c
    }
}

/// ASCII lower-casing of a character sequence.
pub open spec fn lower_seq(s: Seq<char>) -> Seq<char> {
    s.map_values(|c: char| lower_char(c))
}

/// The whitespace characters this library recognises.
pub open spec fn is_space(c: char) -> bool {
    c == ' ' || c == '\t' || c == '\n' || c == '\r'
}

pub fn space_char(c: char) -> (r: bool)
    ensures
        r == is_space(c),
{
    c == ' ' || c == '\t' || c == '\n' || c == '\r'
}

/// The characters of a string slice as a vector.
pub fn to_chars(s: &str) -> (v: Vec<char>)
    ensures
        v@ == s@,
{
    let n: usize = s.unicode_len();
    let mut v: Vec<char> = Vec::new();
    let mut i: usize = 0;
    while i < n
        invariant
            i <= n,
            n == s@.len(),
            v@ == s@.subrange(0, i as int),
        decreases n - i,
    {
        let c = s.get_char(i);
        v.push(c);
        proof {
            assert(v@ =~= s@.subrange(0, i + 1));
        }
        i = i + 1;
    }
    proof {
        assert(v@ =~= s@);
    }
    v
}

/// Relies on `String::from_iter` over `char`: the collected string holds
/// exactly the characters of the vector, in order.
#[verifier::external_body]
pub fn chars_to_string(v: &Vec<char>) -> (s: String)
    ensures
        s@ == v@,
{
    v.iter().collect()
}

/// Lower-cases a character vector.
pub fn to_lower_chars(v: &Vec<char>) -> (r: Vec<char>)
    ensures
        r@ == lower_seq(v@),
{
    let n: usize = v.len();
    let mut r: Vec<char> = Vec::new();
    let mut i: usize = 0;
    while i < n
        invariant
            i <= n,
            n == v@.len(),
            r@ == lower_seq(v@.subrange(0, i as int)),
        decreases n - i,
    {
        r.push(ascii_lower_char(v[i]));
        proof {
            assert(lower_seq(v@.subrange(0, i + 1)) =~= lower_seq(
                v@.subrange(0, i as int),
            ).push(lower_char(v@[i as int])));
        }
        i = i + 1;
    }
    proof {
        assert(v@.subrange(0, n as int) =~= v@);
    }
    r
}

/// String equality by contents.
pub fn strs_eq(a: &str, b: &str) -> (r: bool)
    ensures
        r == (a@ == b@),
{
    let sa = String::from_str(a);
    let sb = String::from_str(b);
    sa == sb
}

/// `n` occurs in `h` starting at position `i`.
pub open spec fn matches_at(h: Seq<char>, n: Seq<char>, i: int) -> bool {
    0 <= i && i + n.len() <= h.len() && h.subrange(i, i + n.len()) == n
}

/// `n` occurs somewhere in `h`.
pub open spec fn contains_seq(h: Seq<char>, n: Seq<char>) -> bool {
    exists|i: int| matches_at(h, n, i)
}

/// Whether the needle occurs at the given start position.
pub fn check_match_at(h: &Vec<char>, n: &Vec<char>, i: usize) -> (r: bool)
    requires
        i + n@.len() <= h@.len(),
    ensures
        r == matches_at(h@, n@, i as int),
{
    let m: usize = n.len();
    let hl: usize = h.len();
    let mut j: usize = 0;
    while j < m
        invariant
            j <= m,
            m == n@.len(),
            hl == h@.len(),
            i + m <= hl,
            h@.subrange(i as int, i + j) =~= n@.subrange(0, j as int),
        decreases m - j,
    {
        if h[i + j] != n[j] {
            proof {
                assert(!matches_at(h@, n@, i as int)) by {
                    if h@.subrange(i as int, i + m) == n@ {
                        assert(h@.subrange(i as int, i + m)[j as int] == n@[j as int]);
                    }
                }
            }
            return false;
        }
        proof {
            assert(h@.subrange(i as int, i + j + 1) =~= h@.subrange(i as int, i + j).push(
                h@[i + j],
            ));
            assert(n@.subrange(0, j + 1) =~= n@.subrange(0, j as int).push(n@[j as int]));
        }
        j = j + 1;
    }
    proof {
        assert(n@.subrange(0, m as int) =~= n@);
    }
    true
}

/// Substring search.
pub fn contains_chars(h: &Vec<char>, n: &Vec<char>) -> (r: bool)
    ensures
        r == contains_seq(h@, n@),
{
    let hl: usize = h.len();
    let nl: usize = n.len();
    if nl > hl {
        proof {
            assert(!contains_seq(h@, n@)) by {
                if contains_seq(h@, n@) {
                    let i = choose|i: int| matches_at(h@, n@, i);
                }
            }
        }
        return false;
    }
    let mut i: usize = 0;
    while hl - i >= nl
        invariant
            nl <= hl,
            hl == h@.len(),
            nl == n@.len(),
            i <= hl,
            forall|k: int| 0 <= k < i ==> !matches_at(h@, n@, k),
        decreases hl - i,
    {
        if check_match_at(h, n, i) {
            return true;
        }
        proof {
            if nl == 0 {
                assert(h@.subrange(i as int, i as int) =~= n@);
                assert(matches_at(h@, n@, i as int));
            }
        }
        i = i + 1;
    }
    proof {
        assert(!contains_seq(h@, n@)) by {
            if contains_seq(h@, n@) {
                let k = choose|k: int| matches_at(h@, n@, k);
                assert(k < i);
            }
        }
    }
    false
}

/// First position at or after `i` holding no whitespace.
pub open spec fn skip_ws(s: Seq<char>, i: nat) -> nat
    decreases s.len() - i,
{
    if i < s.len() && is_space(s[i as int]) {
        skip_ws(s, i + 1)
    } else {
        i
    }
}

/// Position just after the last non-whitespace character before `j`.
pub open spec fn rskip_ws(s: Seq<char>, j: nat) -> nat
    decreases j,
{
    if j > 0 && is_space(s[j - 1]) {
        rskip_ws(s, (j - 1) as nat)
    } else {
        j
    }
}

/// The sequence with leading and trailing whitespace removed.
pub open spec fn trimmed(s: Seq<char>) -> Seq<char> {
    let a = skip_ws(s, 0);
    let b = rskip_ws(s, s.len());
    if a <= b {
        s.subrange(a as int, b as int)
    } else {
        Seq::empty()
    }
}

/// First whitespace position at or after `i` (or the length).
pub open spec fn find_ws(s: Seq<char>, i: nat) -> nat
    decreases s.len() - i,
{
    if i < s.len() && !is_space(s[i as int]) {
        find_ws(s, i + 1)
    } else {
        i
    }
}

proof fn lem_skip_ws(s: Seq<char>, i: nat)
    ensures
        i <= skip_ws(s, i),
        i <= s.len() ==> skip_ws(s, i) <= s.len(),
    decreases s.len() - i,
{
    if i < s.len() && is_space(s[i as int]) {
        lem_skip_ws(s, i + 1);
    }
}

proof fn lem_rskip_ws(s: Seq<char>, j: nat)
    ensures
        rskip_ws(s, j) <= j,
    decreases j,
{
    if j > 0 && is_space(s[j - 1]) {
        lem_rskip_ws(s, (j - 1) as nat);
    }
}

proof fn lem_find_ws(s: Seq<char>, i: nat)
    ensures
        i <= find_ws(s, i),
        i <= s.len() ==> find_ws(s, i) <= s.len(),
    decreases s.len() - i,
{
    if i < s.len() && !is_space(s[i as int]) {
        lem_find_ws(s, i + 1);
    }
}

/// The elements `v[a..b]` as a new vector.
pub fn subvec(v: &Vec<char>, a: usize, b: usize) -> (r: Vec<char>)
    requires
        a <= b <= v@.len(),
    ensures
        r@ == v@.subrange(a as int, b as int),
{
    let mut r: Vec<char> = Vec::new();
    let mut k: usize = a;
    while k < b
        invariant
            a <= k <= b <= v@.len(),
            r@ == v@.subrange(a as int, k as int),
        decreases b - k,
    {
        r.push(v[k]);
        proof {
            assert(v@.subrange(a as int, k + 1) =~= v@.subrange(a as int, k as int).push(
                v@[k as int],
            ));
        }
        k = k + 1;
    }
    r
}

/// Whitespace trimming on a character vector.
pub fn trim_chars(v: &Vec<char>) -> (r: Vec<char>)
    ensures
        r@ == trimmed(v@),
{
    let n: usize = v.len();
    let mut a: usize = 0;
    while a < n && space_char(v[a])
        invariant
            a <= n,
            n == v@.len(),
            skip_ws(v@, 0) == skip_ws(v@, a as nat),
        decreases n - a,
    {
        a = a + 1;
    }
    let mut b: usize = n;
    while b > 0 && space_char(v[b - 1])
        invariant
            b <= n,
            n == v@.len(),
            rskip_ws(v@, n as nat) == rskip_ws(v@, b as nat),
        decreases b,
    {
        b = b - 1;
    }
    if a <= b {
        subvec(v, a, b)
    } else {
        Vec::new()
    }
}

/// First whitespace position in `v` (or its length).
pub fn find_ws_idx(v: &Vec<char>) -> (r: usize)
    ensures
        r as nat == find_ws(v@, 0),
        r <= v@.len(),
{
    let n: usize = v.len();
    let mut i: usize = 0;
    while i < n && !space_char(v[i])
        invariant
            i <= n,
            n == v@.len(),
            find_ws(v@, 0) == find_ws(v@, i as nat),
        decreases n - i,
    {
        i = i + 1;
    }
    i
}

/// First non-whitespace position at or after `i`.
pub fn skip_ws_idx(v: &Vec<char>, i: usize) -> (r: usize)
    requires
        i <= v@.len(),
    ensures
        r as nat == skip_ws(v@, i as nat),
        i <= r <= v@.len(),
{
    proof {
        lem_skip_ws(v@, i as nat);
    }
    let n: usize = v.len();
    let mut k: usize = i;
    while k < n && space_char(v[k])
        invariant
            i <= k <= n,
            n == v@.len(),
            skip_ws(v@, i as nat) == skip_ws(v@, k as nat),
        decreases n - k,
    {
        k = k + 1;
    }
    k
}

/// Element-wise vector equality.
pub fn chars_eq(a: &Vec<char>, b: &Vec<char>) -> (r: bool)
    ensures
        r == (a@ == b@),
{
    if a.len() != b.len() {
        return false;
    }
    let r = check_match_at(a, b, 0);
    proof {
        assert(a@.subrange(0, a@.len() as int) =~= a@);
    }
    r
}

/// `p` is a prefix of `s`.
pub open spec fn starts_with_seq(s: Seq<char>, p: Seq<char>) -> bool {
    p.len() <= s.len() && s.subrange(0, p.len() as int) == p
}

/// Prefix test on string slices.
pub fn str_starts_with(s: &str, p: &str) -> (r: bool)
    ensures
        r == starts_with_seq(s@, p@),
{
    let sv = to_chars(s);
    let pv = to_chars(p);
    if pv.len() > sv.len() {
        return false;
    }
    check_match_at(&sv, &pv, 0)
}

/// The characters of `s` from position `k` on, as a new string.
pub fn str_skip(s: &str, k: usize) -> (r: String)
    requires
        k <= s@.len(),
    ensures
        r@ == s@.subrange(k as int, s@.len() as int),
{
    let sv = to_chars(s);
    let len = sv.len();
    let tail = subvec(&sv, k, len);
    chars_to_string(&tail)
}

/// First position at or after `i` holding `c` (or the length).
pub open spec fn find_char_from(s: Seq<char>, c: char, i: nat) -> nat
    decreases s.len() - i,
{
    if i < s.len() && s[i as int] != c {
        find_char_from(s, c, i + 1)
    } else {
        i
    }
}

/// First position of `c` in `v` at or after `i` (or the length).
pub fn find_char_idx(v: &Vec<char>, c: char, i: usize) -> (r: usize)
    requires
        i <= v@.len(),
    ensures
        r as nat == find_char_from(v@, c, i as nat),
        i <= r <= v@.len(),
        r < v@.len() ==> v@[r as int] == c,
{
    let n: usize = v.len();
    let mut k: usize = i;
    while k < n && v[k] != c
        invariant
            i <= k <= n,
            n == v@.len(),
            find_char_from(v@, c, i as nat) == find_char_from(v@, c, k as nat),
        decreases n - k,
    {
        k = k + 1;
    }
    k
}

/// Lower-cased substring test on string slices: does `h`, lower-cased,
/// contain `n`, lower-cased?
pub fn contains_lower(h: &str, n: &str) -> (r: bool)
    ensures
        r == contains_seq(lower_seq(h@), lower_seq(n@)),
{
    let hv = to_chars(h);
    let nv = to_chars(n);
    let hl = to_lower_chars(&hv);
    let nl = to_lower_chars(&nv);
    contains_chars(&hl, &nl)
}

} // verus!
