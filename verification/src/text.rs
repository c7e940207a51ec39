//! Verified character-level helpers: whitespace trimming, prefix tests,
//! literal search and literal replacement.
use vstd::prelude::*;

verus! {

/// The Unicode `White_Space` property, the notion of whitespace that
/// `str::trim` uses.
pub open spec fn is_white_space(c: char) -> bool {
    let n: u32 = c as u32;
    ||| (0x9 <= n && n <= 0xD)
    ||| n == 0x20
    ||| n == 0x85
    ||| n == 0xA0
    ||| n == 0x1680
    ||| (0x2000 <= n && n <= 0x200A)
    ||| n == 0x2028
    ||| n == 0x2029
    ||| n == 0x202F
    ||| n == 0x205F
    ||| n == 0x3000
}

/// Drops leading whitespace.
pub open spec fn trim_front(s: Seq<char>) -> Seq<char>
    decreases s.len(),
{
    if s.len() > 0 && is_white_space(s[0]) {
        trim_front(s.drop_first())
    } else {
        s
    }
}

/// Drops trailing whitespace.
pub open spec fn trim_back(s: Seq<char>) -> Seq<char>
    decreases s.len(),
{
    if s.len() > 0 && is_white_space(s.last()) {
        trim_back(s.drop_last())
    } else {
        s
    }
}

/// Drops leading and trailing whitespace, as `str::trim` does.
pub open spec fn trimmed(s: Seq<char>) -> Seq<char> {
    trim_back(trim_front(s))
}

/// `pat` occurs in `s` at position `i`.
pub open spec fn occurs_at(s: Seq<char>, i: int, pat: Seq<char>) -> bool {
    0 <= i && i + pat.len() <= s.len() && s.subrange(i, i + pat.len()) == pat
}

/// `s` begins with `p`.
pub open spec fn starts_with(s: Seq<char>, p: Seq<char>) -> bool {
    occurs_at(s, 0, p)
}

/// Every non-overlapping occurrence of `pat` in `s`, scanned from the left,
/// replaced by `with`. An empty `pat` matches nowhere.
pub open spec fn replace_all(s: Seq<char>, pat: Seq<char>, with: Seq<char>) -> Seq<char>
    decreases s.len(),
{
    if pat.len() > 0 && occurs_at(s, 0, pat) {
        with + replace_all(s.subrange(pat.len() as int, s.len() as int), pat, with)
    } else if s.len() == 0 {
        s
    } else {
        seq![s[0]] + replace_all(s.drop_first(), pat, with)
    }
}

/// The part of `s` before the first occurrence of `pat`, or all of `s`
/// where `pat` does not occur: the first piece of `s.split(pat)`.
pub open spec fn before_first(s: Seq<char>, pat: Seq<char>) -> Seq<char>
    decreases s.len(),
{
    if occurs_at(s, 0, pat) || s.len() == 0 {
        Seq::empty()
    } else {
        seq![s[0]] + before_first(s.drop_first(), pat)
    }
}

/// `String::push`: appends one character, as std documents.
#[verifier::external_body]
fn push_char(s: &mut String, c: char)
    ensures
        final(s)@ == old(s)@.push(c),
{
    s.push(c);
}

/// Tests the Unicode `White_Space` property.
pub fn white_space(c: char) -> (res: bool)
    ensures
        res == is_white_space(c),
{
    let n: u32 = c as u32;
    (0x9 <= n && n <= 0xD) || n == 0x20 || n == 0x85 || n == 0xA0 || n == 0x1680 || (0x2000 <= n
        && n <= 0x200A) || n == 0x2028 || n == 0x2029 || n == 0x202F || n == 0x205F || n == 0x3000
}

/// The characters of a string slice.
pub fn chars_of(s: &str) -> (res: Vec<char>)
    ensures
        res@ == s@,
{
    broadcast use vstd::string::group_string_axioms;

    let mut res: Vec<char> = Vec::new();
    for c in it: s.chars()
        invariant
            it.seq() == s@,
            res@ == it.seq().take(it.index()),
    {
        assert(it.seq().take(it.index()).push(c) =~= it.seq().take(it.index() + 1));
        res.push(c);
    }
    assert(s@.take(s@.len() as int) =~= s@);
    res
}

/// A `String` holding the characters `v[from..to]`.
pub fn string_of(v: &Vec<char>, from: usize, to: usize) -> (res: String)
    requires
        from <= to <= v.len(),
    ensures
        res@ == v@.subrange(from as int, to as int),
{
    let mut res = String::new();
    let mut i: usize = from;
    while i < to
        invariant
            from <= i <= to <= v.len(),
            res@ == v@.subrange(from as int, i as int),
        decreases to - i,
    {
        push_char(&mut res, v[i]);
        assert(v@.subrange(from as int, i as int).push(v@[i as int]) =~= v@.subrange(
            from as int,
            i + 1,
        ));
        i = i + 1;
    }
    res
}

/// Whether `pat` occurs in `s` at position `i`.
pub fn matches_at(s: &Vec<char>, i: usize, pat: &Vec<char>) -> (res: bool)
    ensures
        res == occurs_at(s@, i as int, pat@),
{
    if i > s.len() || pat.len() > s.len() - i {
        return false;
    }
    let mut k: usize = 0;
    while k < pat.len()
        invariant
            i + pat.len() <= s.len(),
            k <= pat.len(),
            forall|j: int| 0 <= j < k ==> s@[i + j] == pat@[j],
        decreases pat.len() - k,
    {
        if s[i + k] != pat[k] {
            assert(s@.subrange(i as int, i + pat.len())[k as int] != pat@[k as int]);
            return false;
        }
        k = k + 1;
    }
    assert(s@.subrange(i as int, i + pat.len()) =~= pat@);
    true
}

proof fn lemma_trim_front_step(s: Seq<char>, i: int)
    requires
        0 <= i < s.len(),
        is_white_space(s[i]),
    ensures
        trim_front(s.subrange(i, s.len() as int)) == trim_front(s.subrange(i + 1, s.len() as int)),
{
    assert(s.subrange(i, s.len() as int).drop_first() =~= s.subrange(i + 1, s.len() as int));
}

proof fn lemma_trim_back_step(s: Seq<char>, i: int, j: int)
    requires
        0 <= i < j <= s.len(),
        is_white_space(s[j - 1]),
    ensures
        trim_back(s.subrange(i, j)) == trim_back(s.subrange(i, j - 1)),
{
    assert(s.subrange(i, j).drop_last() =~= s.subrange(i, j - 1));
}

/// The characters of `s` with leading and trailing whitespace dropped.
pub fn trim_chars(s: &Vec<char>) -> (res: String)
    ensures
        res@ == trimmed(s@),
{
    let n: usize = s.len();
    let mut i: usize = 0;
    assert(s@.subrange(0, n as int) =~= s@);
    while i < n && white_space(s[i])
        invariant
            i <= n == s.len(),
            trim_front(s@) == trim_front(s@.subrange(i as int, n as int)),
        decreases n - i,
    {
        proof {
            lemma_trim_front_step(s@, i as int);
        }
        i = i + 1;
    }
    assert(trim_front(s@) == s@.subrange(i as int, n as int));
    let mut j: usize = n;
    while j > i && white_space(s[j - 1])
        invariant
            i <= j <= n == s.len(),
            trim_front(s@) == s@.subrange(i as int, n as int),
            trimmed(s@) == trim_back(s@.subrange(i as int, j as int)),
        decreases j - i,
    {
        proof {
            lemma_trim_back_step(s@, i as int, j as int);
        }
        j = j - 1;
    }
    string_of(s, i, j)
}

/// `str::trim` on a string slice.
pub fn trim_str(s: &str) -> (res: String)
    ensures
        res@ == trimmed(s@),
{
    let v = chars_of(s);
    trim_chars(&v)
}

/// Whether `s` begins with `p`.
pub fn begins_with(s: &Vec<char>, p: &Vec<char>) -> (res: bool)
    ensures
        res == starts_with(s@, p@),
{
    matches_at(s, 0, p)
}

/// Replaces every non-overlapping occurrence of a non-empty `pat`, scanned
/// from the left, by `with`, as `str::replace` does.
pub fn replace_chars(s: &Vec<char>, pat: &Vec<char>, with: &str) -> (res: String)
    requires
        pat.len() > 0,
    ensures
        res@ == replace_all(s@, pat@, with@),
{
    let n: usize = s.len();
    let mut out = String::new();
    let mut i: usize = 0;
    assert(s@.subrange(0, n as int) =~= s@);
    while i < n
        invariant
            i <= n == s.len(),
            pat.len() > 0,
            replace_all(s@, pat@, with@) == out@ + replace_all(
                s@.subrange(i as int, n as int),
                pat@,
                with@,
            ),
        decreases n - i,
    {
        let ghost rest = s@.subrange(i as int, n as int);
        if matches_at(s, i, pat) {
            proof {
                assert(rest.subrange(0, pat@.len() as int) =~= s@.subrange(
                    i as int,
                    i + pat@.len(),
                ));
                assert(rest.subrange(pat@.len() as int, rest.len() as int) =~= s@.subrange(
                    i + pat@.len(),
                    n as int,
                ));
                assert(out@ + (with@ + replace_all(
                    s@.subrange(i + pat@.len(), n as int),
                    pat@,
                    with@,
                )) =~= (out@ + with@) + replace_all(
                    s@.subrange(i + pat@.len(), n as int),
                    pat@,
                    with@,
                ));
            }
            out.append(with);
            i = i + pat.len();
        } else {
            proof {
                if occurs_at(rest, 0, pat@) {
                    assert(rest.subrange(0, pat@.len() as int) =~= s@.subrange(
                        i as int,
                        i + pat@.len(),
                    ));
                }
                assert(rest.drop_first() =~= s@.subrange(i + 1, n as int));
                assert(out@ + (seq![s@[i as int]] + replace_all(
                    s@.subrange(i + 1, n as int),
                    pat@,
                    with@,
                )) =~= out@.push(s@[i as int]) + replace_all(
                    s@.subrange(i + 1, n as int),
                    pat@,
                    with@,
                ));
            }
            push_char(&mut out, s[i]);
            i = i + 1;
        }
    }
    assert(replace_all(s@.subrange(n as int, n as int), pat@, with@) =~= Seq::<char>::empty());
    assert(out@ + Seq::<char>::empty() =~= out@);
    out
}

/// The part of `s` before the first occurrence of `pat`.
pub fn prefix_before(s: &Vec<char>, pat: &Vec<char>) -> (res: String)
    ensures
        res@ == before_first(s@, pat@),
{
    let n: usize = s.len();
    let mut i: usize = 0;
    assert(s@.subrange(0, n as int) =~= s@);
    assert(s@.subrange(0, 0) + before_first(s@, pat@) =~= before_first(s@, pat@));
    while i < n && !matches_at(s, i, pat)
        invariant
            i <= n == s.len(),
            before_first(s@, pat@) == s@.subrange(0, i as int) + before_first(
                s@.subrange(i as int, n as int),
                pat@,
            ),
        decreases n - i,
    {
        let ghost rest = s@.subrange(i as int, n as int);
        proof {
            if occurs_at(rest, 0, pat@) {
                assert(rest.subrange(0, pat@.len() as int) =~= s@.subrange(
                    i as int,
                    i + pat@.len(),
                ));
            }
            assert(rest.drop_first() =~= s@.subrange(i + 1, n as int));
            assert(s@.subrange(0, i as int) + (seq![s@[i as int]] + before_first(
                s@.subrange(i + 1, n as int),
                pat@,
            )) =~= s@.subrange(0, i + 1) + before_first(s@.subrange(i + 1, n as int), pat@));
        }
        i = i + 1;
    }
    proof {
        let rest = s@.subrange(i as int, n as int);
        if i < n {
            assert(rest.subrange(0, pat@.len() as int) =~= s@.subrange(
                i as int,
                i + pat@.len(),
            ));
        }
        assert(before_first(rest, pat@) =~= Seq::<char>::empty());
        assert(s@.subrange(0, i as int) + Seq::<char>::empty() =~= s@.subrange(0, i as int));
    }
    string_of(s, 0, i)
}

/// Occurrences in a suffix are occurrences in the whole, shifted.
pub proof fn lemma_occurs_in_suffix(s: Seq<char>, m: int, i: int, pat: Seq<char>)
    requires
        0 <= m <= s.len(),
        0 <= i,
    ensures
        occurs_at(s.subrange(m, s.len() as int), i, pat) == occurs_at(s, i + m, pat),
{
    let t = s.subrange(m, s.len() as int);
    if i + pat.len() <= t.len() {
        assert(t.subrange(i, i + pat.len()) =~= s.subrange(i + m, i + m + pat.len()));
    }
}

/// Where `pat` occurs nowhere in `s`, replacing it changes nothing.
pub proof fn lemma_replace_absent(s: Seq<char>, pat: Seq<char>, with: Seq<char>)
    requires
        forall|i: int| !#[trigger] occurs_at(s, i, pat),
    ensures
        replace_all(s, pat, with) == s,
    decreases s.len(),
{
    if pat.len() > 0 && occurs_at(s, 0, pat) {
    } else if s.len() == 0 {
    } else {
        let t = s.drop_first();
        assert(t =~= s.subrange(1, s.len() as int));
        assert forall|i: int| !#[trigger] occurs_at(t, i, pat) by {
            if i >= 0 {
                lemma_occurs_in_suffix(s, 1, i, pat);
            }
        }
        lemma_replace_absent(t, pat, with);
        assert(seq![s[0]] + t =~= s);
    }
}

/// Where `pat` occurs in `s` at `k` and nowhere else, replacing it puts
/// `with` in its place.
pub proof fn lemma_replace_single(s: Seq<char>, pat: Seq<char>, with: Seq<char>, k: int)
    requires
        pat.len() > 0,
        occurs_at(s, k, pat),
        forall|i: int| i != k ==> !#[trigger] occurs_at(s, i, pat),
    ensures
        replace_all(s, pat, with) == s.subrange(0, k) + with + s.subrange(
            k + pat.len(),
            s.len() as int,
        ),
    decreases s.len(),
{
    if k == 0 {
        let rest = s.subrange(pat.len() as int, s.len() as int);
        assert forall|i: int| !#[trigger] occurs_at(rest, i, pat) by {
            if i >= 0 {
                lemma_occurs_in_suffix(s, pat.len() as int, i, pat);
            }
        }
        lemma_replace_absent(rest, pat, with);
        assert(s.subrange(0, 0) + with + rest =~= with + rest);
    } else {
        let t = s.drop_first();
        assert(t =~= s.subrange(1, s.len() as int));
        assert(!occurs_at(s, 0, pat));
        lemma_occurs_in_suffix(s, 1, k - 1, pat);
        assert forall|i: int| i != k - 1 implies !#[trigger] occurs_at(t, i, pat) by {
            if i >= 0 {
                lemma_occurs_in_suffix(s, 1, i, pat);
            }
        }
        lemma_replace_single(t, pat, with, k - 1);
        assert(seq![s[0]] + (t.subrange(0, k - 1) + with + t.subrange(
            k - 1 + pat.len(),
            t.len() as int,
        )) =~= s.subrange(0, k) + with + s.subrange(k + pat.len(), s.len() as int));
    }
}

/// Replacing keeps everything before the first occurrence: the result
/// begins with `before_first(s, pat)`.
pub proof fn lemma_replace_keeps_prefix(s: Seq<char>, pat: Seq<char>, with: Seq<char>)
    requires
        pat.len() > 0,
    ensures
        starts_with(replace_all(s, pat, with), before_first(s, pat)),
    decreases s.len(),
{
    let r = replace_all(s, pat, with);
    let p = before_first(s, pat);
    if occurs_at(s, 0, pat) || s.len() == 0 {
        assert(r.subrange(0, 0) =~= p);
    } else {
        let t = s.drop_first();
        lemma_replace_keeps_prefix(t, pat, with);
        let rt = replace_all(t, pat, with);
        let pt = before_first(t, pat);
        assert(rt.subrange(0, pt.len() as int) == pt);
        assert(r == seq![s[0]] + rt);
        assert(p == seq![s[0]] + pt);
        assert(r.subrange(0, p.len() as int) =~= p);
    }
}

proof fn lemma_trim_front_suffix(s: Seq<char>) -> (k: int)
    ensures
        0 <= k <= s.len(),
        trim_front(s) == s.subrange(k, s.len() as int),
        forall|i: int| 0 <= i < k ==> is_white_space(#[trigger] s[i]),
        k < s.len() ==> !is_white_space(s[k]),
    decreases s.len(),
{
    if s.len() > 0 && is_white_space(s[0]) {
        let k1 = lemma_trim_front_suffix(s.drop_first());
        assert(s.drop_first().subrange(k1, s.len() - 1) =~= s.subrange(k1 + 1, s.len() as int));
        assert forall|i: int| 0 <= i < k1 + 1 implies is_white_space(#[trigger] s[i]) by {
            if i > 0 {
                assert(s[i] == s.drop_first()[i - 1]);
            }
        }
        k1 + 1
    } else {
        assert(s.subrange(0, s.len() as int) =~= s);
        0
    }
}

proof fn lemma_trim_back_prefix(s: Seq<char>) -> (k: int)
    ensures
        0 <= k <= s.len(),
        trim_back(s) == s.subrange(0, k),
        forall|i: int| k <= i < s.len() ==> is_white_space(#[trigger] s[i]),
        k > 0 ==> !is_white_space(s[k - 1]),
    decreases s.len(),
{
    if s.len() > 0 && is_white_space(s.last()) {
        let k1 = lemma_trim_back_prefix(s.drop_last());
        assert(s.drop_last().subrange(0, k1) =~= s.subrange(0, k1));
        assert forall|i: int| k1 <= i < s.len() implies is_white_space(#[trigger] s[i]) by {
            if i < s.len() - 1 {
                assert(s[i] == s.drop_last()[i]);
            }
        }
        k1
    } else {
        assert(s.subrange(0, s.len() as int) =~= s);
        s.len() as int
    }
}

/// Trimming cuts `s` down to the stretch between its first and last
/// non-whitespace characters: what precedes and follows is whitespace,
/// and the result neither begins nor ends with whitespace.
pub proof fn lemma_trimmed_is_inner_stretch(s: Seq<char>)
    ensures
        exists|a: int, b: int|
            {
                &&& 0 <= a <= b <= s.len()
                &&& trimmed(s) == s.subrange(a, b)
                &&& forall|i: int| 0 <= i < a ==> is_white_space(#[trigger] s[i])
                &&& forall|i: int| b <= i < s.len() ==> is_white_space(#[trigger] s[i])
            },
        trimmed(s).len() > 0 ==> !is_white_space(trimmed(s)[0]) && !is_white_space(
            trimmed(s).last(),
        ),
{
    let a = lemma_trim_front_suffix(s);
    let f = trim_front(s);
    let k = lemma_trim_back_prefix(f);
    assert(f.subrange(0, k) =~= s.subrange(a, a + k));
    assert forall|i: int| a + k <= i < s.len() implies is_white_space(#[trigger] s[i]) by {
        assert(s[i] == f[i - a]);
    }
    if k > 0 {
        assert(trimmed(s)[0] == s[a]);
    }
}

} // verus!
