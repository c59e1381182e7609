use vstd::prelude::*;
use vstd::arithmetic::div_mod::lemma_div_is_ordered;

verus! {

pub open spec fn min3(x: nat, y: nat, z: nat) -> nat {
    if x <= y && x <= z {
        x
    } else if y <= z {
        y
    } else {
        z
    }
}

pub open spec fn max2(x: nat, y: nat) -> nat {
    if x >= y {
        x
    } else {
        y
    }
}

/// Edit distance between the first `i` characters of `a` and the first `j`
/// characters of `b`: the least number of single-character insertions,
/// deletions and substitutions that turn one prefix into the other.
pub open spec fn prefix_distance(a: Seq<char>, b: Seq<char>, i: nat, j: nat) -> nat
    decreases i + j,
{
    if i == 0 {
        j
    } else if j == 0 {
        i
    } else {
        let cost: nat = if a[i - 1] == b[j - 1] {
            0
        } else {
            1
        };
        min3(
            prefix_distance(a, b, (i - 1) as nat, j) + 1,
            prefix_distance(a, b, i, (j - 1) as nat) + 1,
            prefix_distance(a, b, (i - 1) as nat, (j - 1) as nat) + cost,
        )
    }
}

pub open spec fn edit_distance(a: Seq<char>, b: Seq<char>) -> nat {
    prefix_distance(a, b, a.len(), b.len())
}

/// Agreement of two texts as a percentage: `100 * (1 - d / m)` rounded down,
/// where `d` is the edit distance and `m` the longer length; two empty texts
/// agree fully.
pub open spec fn agreement(a: Seq<char>, b: Seq<char>) -> nat {
    let m = max2(a.len(), b.len());
    if m == 0 {
        100
    } else {
        ((100 * (m - edit_distance(a, b))) / m as int) as nat
    }
}

pub proof fn lemma_prefix_distance_bounded(a: Seq<char>, b: Seq<char>, i: nat, j: nat)
    ensures
        prefix_distance(a, b, i, j) <= max2(i, j),
    decreases i + j,
{
    if i > 0 && j > 0 {
        lemma_prefix_distance_bounded(a, b, (i - 1) as nat, (j - 1) as nat);
    }
}

pub proof fn lemma_prefix_distance_symmetric(a: Seq<char>, b: Seq<char>, i: nat, j: nat)
    ensures
        prefix_distance(a, b, i, j) == prefix_distance(b, a, j, i),
    decreases i + j,
{
    if i > 0 && j > 0 {
        lemma_prefix_distance_symmetric(a, b, (i - 1) as nat, j);
        lemma_prefix_distance_symmetric(a, b, i, (j - 1) as nat);
        lemma_prefix_distance_symmetric(a, b, (i - 1) as nat, (j - 1) as nat);
    }
}

pub proof fn lemma_prefix_distance_diagonal(a: Seq<char>, i: nat)
    requires
        i <= a.len(),
    ensures
        prefix_distance(a, a, i, i) == 0,
    decreases i,
{
    if i > 0 {
        lemma_prefix_distance_diagonal(a, (i - 1) as nat);
    }
}

pub proof fn lemma_prefix_distance_zero(a: Seq<char>, b: Seq<char>, i: nat, j: nat)
    requires
        i <= a.len(),
        j <= b.len(),
        prefix_distance(a, b, i, j) == 0,
    ensures
        i == j,
        a.subrange(0, i as int) == b.subrange(0, j as int),
    decreases i + j,
{
    if i > 0 && j > 0 {
        lemma_prefix_distance_zero(a, b, (i - 1) as nat, (j - 1) as nat);
        assert(a.subrange(0, i as int) =~= a.subrange(0, i - 1).push(a[i - 1]));
        assert(b.subrange(0, j as int) =~= b.subrange(0, j - 1).push(b[j - 1]));
    } else {
        assert(a.subrange(0, 0) =~= b.subrange(0, 0));
    }
}

/// The edit distance never exceeds the longer length.
pub proof fn lemma_distance_bounded(a: Seq<char>, b: Seq<char>)
    ensures
        edit_distance(a, b) <= max2(a.len(), b.len()),
{
    lemma_prefix_distance_bounded(a, b, a.len(), b.len());
}

/// Every text agrees fully with itself, the empty text included.
pub proof fn lemma_agreement_reflexive(a: Seq<char>)
    ensures
        agreement(a, a) == 100,
        agreement(Seq::<char>::empty(), Seq::<char>::empty()) == 100,
{
    lemma_prefix_distance_diagonal(a, a.len());
    let m = a.len();
    if m > 0 {
        assert((100 * (m - 0)) / m as int == 100) by (nonlinear_arith)
            requires
                m > 0,
        ;
    }
}

/// Agreement does not depend on the order of its two texts.
pub proof fn lemma_agreement_symmetric(a: Seq<char>, b: Seq<char>)
    ensures
        agreement(a, b) == agreement(b, a),
{
    lemma_prefix_distance_symmetric(a, b, a.len(), b.len());
}

/// Two texts agree fully exactly when they are the same text.
pub proof fn lemma_full_agreement_iff_equal(a: Seq<char>, b: Seq<char>)
    ensures
        agreement(a, b) == 100 <==> a == b,
{
    if a == b {
        lemma_agreement_reflexive(a);
    } else {
        lemma_distance_bounded(a, b);
        let m = max2(a.len(), b.len());
        let d = edit_distance(a, b);
        if d == 0 {
            lemma_prefix_distance_zero(a, b, a.len(), b.len());
            assert(a =~= a.subrange(0, a.len() as int));
            assert(b =~= b.subrange(0, b.len() as int));
        }
        if m > 0 {
            assert((100 * (m - d)) / (m as int) < 100) by (nonlinear_arith)
                requires
                    m > 0,
                    1 <= d <= m,
            ;
        }
    }
}

/// Agreement is at most 100.
pub proof fn lemma_agreement_bounded(a: Seq<char>, b: Seq<char>)
    ensures
        agreement(a, b) <= 100,
{
    lemma_distance_bounded(a, b);
    let m = max2(a.len(), b.len());
    if m > 0 {
        let d = edit_distance(a, b);
        assert((100 * (m - d)) / m as int <= 100) by (nonlinear_arith)
            requires
                m > 0,
                d <= m,
        ;
    }
}

/// For texts of the same lengths, more edits never give a higher agreement.
pub proof fn lemma_agreement_antitone(a: Seq<char>, b: Seq<char>, c: Seq<char>, e: Seq<char>)
    requires
        a.len() == c.len(),
        b.len() == e.len(),
        edit_distance(a, b) <= edit_distance(c, e),
    ensures
        agreement(c, e) <= agreement(a, b),
{
    lemma_distance_bounded(a, b);
    lemma_distance_bounded(c, e);
    let m = max2(a.len(), b.len());
    if m > 0 {
        let d1 = edit_distance(a, b);
        let d2 = edit_distance(c, e);
        assert(100 * (m - d2) <= 100 * (m - d1)) by (nonlinear_arith)
            requires
                d1 <= d2,
                d2 <= m,
        ;
        lemma_div_is_ordered(100 * (m - d2), 100 * (m - d1), m as int);
    }
}


/// Copies the characters of a text into a vector.
pub fn chars_of(s: &str) -> (r: Vec<char>)
    ensures
        r@ == s@,
{
    let n = s.unicode_len();
    let mut r: Vec<char> = Vec::new();
    let mut i: usize = 0;
    while i < n
        invariant
            n == s@.len(),
            i <= n,
            r@ == s@.subrange(0, i as int),
        decreases n - i,
    {
        r.push(s.get_char(i));
        i = i + 1;
    }
    assert(r@ =~= s@);
    r
}

/// Edit distance by dynamic programming, one row at a time:
/// O(len(a) * len(b)) time and O(len(b)) space.
pub fn edit_distance_of(a: &Vec<char>, b: &Vec<char>) -> (d: usize)
    ensures
        d == edit_distance(a@, b@),
{
    let la = a.len();
    let lb = b.len();
    // row[k] holds the distance of the current prefix of `a` to b[..k + 1]
    let mut row: Vec<usize> = Vec::new();
    let mut k: usize = 0;
    while k < lb
        invariant
            lb == b@.len(),
            k <= lb,
            row@.len() == k,
            forall|t: int| 0 <= t < k ==> row@[t] == prefix_distance(a@, b@, 0, (t + 1) as nat),
        decreases lb - k,
    {
        row.push(k + 1);
        k = k + 1;
    }
    let mut i: usize = 0;
    while i < la
        invariant
            la == a@.len(),
            lb == b@.len(),
            i <= la,
            row@.len() == lb,
            forall|t: int|
                0 <= t < lb ==> row@[t] == prefix_distance(a@, b@, i as nat, (t + 1) as nat),
        decreases la - i,
    {
        let ghost ni: nat = (i + 1) as nat;
        let mut diag: usize = i;
        let mut left: usize = i + 1;
        let mut j: usize = 0;
        while j < lb
            invariant
                la == a@.len(),
                lb == b@.len(),
                i < la,
                ni == i + 1,
                j <= lb,
                row@.len() == lb,
                diag == prefix_distance(a@, b@, i as nat, j as nat),
                left == prefix_distance(a@, b@, ni, j as nat),
                forall|t: int| 0 <= t < j ==> row@[t] == prefix_distance(a@, b@, ni, (t + 1) as nat),
                forall|t: int|
                    j <= t < lb ==> row@[t] == prefix_distance(a@, b@, i as nat, (t + 1) as nat),
            decreases lb - j,
        {
            let up: usize = row[j];
            let cost: u128 = if a[i] == b[j] {
                0
            } else {
                1
            };
            let del: u128 = up as u128 + 1;
            let ins: u128 = left as u128 + 1;
            let sub: u128 = diag as u128 + cost;
            let best: u128 = if del <= ins && del <= sub {
                del
            } else if ins <= sub {
                ins
            } else {
                sub
            };
            proof {
                lemma_prefix_distance_bounded(a@, b@, ni, (j + 1) as nat);
                assert(best == prefix_distance(a@, b@, ni, (j + 1) as nat));
            }
            let v: usize = best as usize;
            row.set(j, v);
            diag = up;
            left = v;
            j = j + 1;
        }
        i = i + 1;
    }
    if lb == 0 {
        la
    } else {
        row[lb - 1]
    }
}

/// ASCII upper case of one character; other characters are kept.
pub open spec fn upper_char(c: char) -> char {
    if 'a' <= c && c <= 'z' {
        ((c as u32 - 32) as u8) as char
    } else {
        c
    }
}

pub open spec fn upper(s: Seq<char>) -> Seq<char> {
    s.map_values(|c: char| upper_char(c))
}

/// ASCII upper case of a text.
pub fn to_upper(s: &Vec<char>) -> (r: Vec<char>)
    ensures
        r@ == upper(s@),
{
    let mut r: Vec<char> = Vec::new();
    let mut i: usize = 0;
    while i < s.len()
        invariant
            i <= s@.len(),
            r@ == upper(s@.subrange(0, i as int)),
        decreases s@.len() - i,
    {
        let c = s[i];
        let u: char = if 'a' <= c && c <= 'z' {
            ((c as u32 - 32) as u8) as char
        } else {
            c
        };
        r.push(u);
        assert(upper(s@.subrange(0, i + 1)) =~= upper(s@.subrange(0, i as int)).push(u));
        i = i + 1;
    }
    assert(s@.subrange(0, s@.len() as int) =~= s@);
    r
}

/// Agreement of two character sequences, from 0 to 100.
pub fn score_chars(a: &Vec<char>, b: &Vec<char>) -> (r: u32)
    ensures
        r == agreement(a@, b@),
        r <= 100,
{
    let d = edit_distance_of(a, b);
    let m: usize = if a.len() >= b.len() {
        a.len()
    } else {
        b.len()
    };
    proof {
        lemma_distance_bounded(a@, b@);
        lemma_agreement_bounded(a@, b@);
    }
    if m == 0 {
        100
    } else {
        let num: u128 = 100 * ((m - d) as u128);
        (num / (m as u128)) as u32
    }
}

/// Agreement of two texts, from 0 to 100, by their edit distance.
pub fn score(a: &str, b: &str) -> (r: u32)
    ensures
        r == agreement(a@, b@),
        r <= 100,
{
    let ca = chars_of(a);
    let cb = chars_of(b);
    score_chars(&ca, &cb)
}

} // verus!
