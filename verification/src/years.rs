use vstd::prelude::*;

verus! {

/// The Unicode white-space characters, the set std documents for
/// `char::is_whitespace`.
pub open spec fn is_space_char(c: char) -> bool {
    ||| c as u32 == 0x20
    ||| 0x09 <= c as u32 && c as u32 <= 0x0D
    ||| c as u32 == 0x85
    ||| c as u32 == 0xA0
    ||| c as u32 == 0x1680
    ||| 0x2000 <= c as u32 && c as u32 <= 0x200A
    ||| c as u32 == 0x2028
    ||| c as u32 == 0x2029
    ||| c as u32 == 0x202F
    ||| c as u32 == 0x205F
    ||| c as u32 == 0x3000
}

/// A year range separates birth from death with a hyphen or an en dash.
pub open spec fn is_year_sep(c: char) -> bool {
    c == '-' || c == '\u{2013}'
}

pub open spec fn has_year_sep(s: Seq<char>) -> bool {
    exists|i: int| 0 <= i < s.len() && is_year_sep(s[i])
}

/// Index of the first separator; meaningful only when one exists.
pub open spec fn first_sep(s: Seq<char>) -> int
    decreases s.len(),
{
    if s.len() == 0 {
        0
    } else if is_year_sep(s[0]) {
        0
    } else {
        1 + first_sep(s.drop_first())
    }
}

/// How many white-space characters the text starts with.
pub open spec fn lead_spaces(s: Seq<char>) -> int
    decreases s.len(),
{
    if s.len() > 0 && is_space_char(s[0]) {
        1 + lead_spaces(s.drop_first())
    } else {
        0
    }
}

/// How many white-space characters the text ends with.
pub open spec fn tail_spaces(s: Seq<char>) -> int
    decreases s.len(),
{
    if s.len() > 0 && is_space_char(s[s.len() - 1]) {
        1 + tail_spaces(s.drop_last())
    } else {
        0
    }
}

/// What trimming leaves: the text without leading and trailing white space.
pub open spec fn trim_spec(s: Seq<char>) -> Seq<char> {
    let t = s.skip(lead_spaces(s));
    t.take(t.len() - tail_spaces(t))
}

pub open spec fn all_space(s: Seq<char>) -> bool {
    forall|k: int| 0 <= k < s.len() ==> is_space_char(s[k])
}

fn is_space(c: char) -> (r: bool)
    ensures
        r == is_space_char(c),
{
    let u = c as u32;
    u == 0x20 || (0x09 <= u && u <= 0x0D) || u == 0x85 || u == 0xA0 || u == 0x1680 || (0x2000 <= u
        && u <= 0x200A) || u == 0x2028 || u == 0x2029 || u == 0x202F || u == 0x205F || u == 0x3000
}

fn is_sep(c: char) -> (r: bool)
    ensures
        r == is_year_sep(c),
{
    c == '-' || c == '\u{2013}'
}

proof fn lemma_lead_spaces_at(s: Seq<char>, i: int)
    requires
        0 <= i <= s.len(),
        forall|k: int| 0 <= k < i ==> is_space_char(s[k]),
        i == s.len() || !is_space_char(s[i]),
    ensures
        lead_spaces(s) == i,
    decreases i,
{
    if i > 0 {
        assert(is_space_char(s[0]));
        assert forall|k: int| 0 <= k < i - 1 implies is_space_char(s.drop_first()[k]) by {
            assert(s.drop_first()[k] == s[k + 1]);
        }
        if i < s.len() {
            assert(s.drop_first()[i - 1] == s[i]);
        }
        lemma_lead_spaces_at(s.drop_first(), i - 1);
    }
}

proof fn lemma_tail_spaces_at(s: Seq<char>, j: int)
    requires
        0 <= j <= s.len(),
        forall|k: int| j <= k < s.len() ==> is_space_char(s[k]),
        j == 0 || !is_space_char(s[j - 1]),
    ensures
        tail_spaces(s) == s.len() - j,
    decreases s.len() - j,
{
    if j < s.len() {
        assert(is_space_char(s[s.len() - 1]));
        assert forall|k: int| j <= k < s.len() - 1 implies is_space_char(s.drop_last()[k]) by {
            assert(s.drop_last()[k] == s[k]);
        }
        lemma_tail_spaces_at(s.drop_last(), j);
    }
}

proof fn lemma_first_sep_at(s: Seq<char>, i: int)
    requires
        0 <= i < s.len(),
        forall|k: int| 0 <= k < i ==> !is_year_sep(s[k]),
        is_year_sep(s[i]),
    ensures
        first_sep(s) == i,
        has_year_sep(s),
    decreases i,
{
    if i > 0 {
        assert(!is_year_sep(s[0]));
        assert forall|k: int| 0 <= k < i - 1 implies !is_year_sep(s.drop_first()[k]) by {
            assert(s.drop_first()[k] == s[k + 1]);
        }
        assert(s.drop_first()[i - 1] == s[i]);
        lemma_first_sep_at(s.drop_first(), i - 1);
    }
}

proof fn lemma_lead_spaces_bounds(s: Seq<char>)
    ensures
        0 <= lead_spaces(s) <= s.len(),
        forall|k: int| 0 <= k < lead_spaces(s) ==> is_space_char(s[k]),
        lead_spaces(s) < s.len() ==> !is_space_char(s[lead_spaces(s)]),
    decreases s.len(),
{
    if s.len() > 0 && is_space_char(s[0]) {
        lemma_lead_spaces_bounds(s.drop_first());
        assert forall|k: int| 0 <= k < lead_spaces(s) implies is_space_char(s[k]) by {
            if k > 0 {
                assert(s.drop_first()[k - 1] == s[k]);
            }
        }
        if lead_spaces(s) < s.len() {
            assert(s.drop_first()[lead_spaces(s) - 1] == s[lead_spaces(s)]);
        }
    }
}

proof fn lemma_tail_spaces_bounds(s: Seq<char>)
    ensures
        0 <= tail_spaces(s) <= s.len(),
        forall|k: int| s.len() - tail_spaces(s) <= k < s.len() ==> is_space_char(s[k]),
        tail_spaces(s) < s.len() ==> !is_space_char(s[s.len() - tail_spaces(s) - 1]),
    decreases s.len(),
{
    if s.len() > 0 && is_space_char(s[s.len() - 1]) {
        lemma_tail_spaces_bounds(s.drop_last());
        assert forall|k: int| s.len() - tail_spaces(s) <= k < s.len() implies is_space_char(
            s[k],
        ) by {
            if k < s.len() - 1 {
                assert(s.drop_last()[k] == s[k]);
            }
        }
        if tail_spaces(s) < s.len() {
            assert(s.drop_last()[s.len() - tail_spaces(s) - 1] == s[s.len() - tail_spaces(s) - 1]);
        }
    }
}

/// Law: trimming text that holds at least one non-space character keeps a
/// non-empty contiguous middle, space-free at both ends, and the input is
/// exactly white space, that middle, white space.
pub proof fn lemma_trim_decomposition(s: Seq<char>)
    requires
        exists|k: int| 0 <= k < s.len() && !is_space_char(s[k]),
    ensures
        ({
            let b = trim_spec(s);
            &&& b.len() > 0
            &&& !is_space_char(b[0])
            &&& !is_space_char(b[b.len() - 1])
            &&& exists|p: Seq<char>, q: Seq<char>|
                all_space(p) && all_space(q) && s =~= p + b + q
        }),
{
    lemma_lead_spaces_bounds(s);
    let lo = lead_spaces(s);
    let k = choose|k: int| 0 <= k < s.len() && !is_space_char(s[k]);
    assert(lo <= k);
    let t = s.skip(lo);
    lemma_tail_spaces_bounds(t);
    assert(t[0] == s[lo]);
    assert(tail_spaces(t) < t.len()) by {
        if tail_spaces(t) == t.len() {
            assert(is_space_char(t[0]));
        }
    }
    let b = trim_spec(s);
    assert(b =~= s.subrange(lo, s.len() - tail_spaces(t)));
    assert(b[0] == t[0]);
    assert(b[b.len() - 1] == t[t.len() - tail_spaces(t) - 1]);
    let p = s.take(lo);
    let q = s.skip(s.len() - tail_spaces(t));
    assert(all_space(q)) by {
        assert forall|m: int| 0 <= m < q.len() implies is_space_char(q[m]) by {
            assert(q[m] == t[m + (s.len() - tail_spaces(t)) - lo]);
        }
    }
    assert(s =~= p + b + q);
    assert(exists|p2: Seq<char>, q2: Seq<char>|
        all_space(p2) && all_space(q2) && s =~= p2 + b + q2) by {
        assert(all_space(p) && all_space(q) && s =~= p + b + q);
    }
}

proof fn lemma_first_sep_bounds(s: Seq<char>)
    requires
        has_year_sep(s),
    ensures
        0 <= first_sep(s) < s.len(),
        is_year_sep(s[first_sep(s)]),
    decreases s.len(),
{
    if s.len() > 0 && !is_year_sep(s[0]) {
        let k = choose|k: int| 0 <= k < s.len() && is_year_sep(s[k]);
        assert(s.drop_first()[k - 1] == s[k]);
        assert(has_year_sep(s.drop_first()));
        lemma_first_sep_bounds(s.drop_first());
        assert(s.drop_first()[first_sep(s.drop_first())] == s[1 + first_sep(s.drop_first())]);
    }
}

/// Law: for a well-formed year range (a separator with visible text on both
/// sides), the split yields non-empty born and died texts, free of white
/// space at their ends, and the input reconstructs exactly as padding, born,
/// padding, the separator, padding, died, padding, where every padding piece
/// is white space only.
pub proof fn lemma_split_years_round_trip(s: Seq<char>)
    requires
        has_year_sep(s),
        exists|k: int| 0 <= k < first_sep(s) && !is_space_char(s[k]),
        exists|k: int| first_sep(s) < k < s.len() && !is_space_char(s[k]),
    ensures
        ({
            let i = first_sep(s);
            let b = trim_spec(s.take(i));
            let d = trim_spec(s.skip(i + 1));
            &&& 0 <= i < s.len() && is_year_sep(s[i])
            &&& b.len() > 0 && d.len() > 0
            &&& !is_space_char(b[0]) && !is_space_char(b[b.len() - 1])
            &&& !is_space_char(d[0]) && !is_space_char(d[d.len() - 1])
            &&& exists|p1: Seq<char>, p2: Seq<char>, p3: Seq<char>, p4: Seq<char>|
                all_space(p1) && all_space(p2) && all_space(p3) && all_space(p4) && s =~= p1 + b
                    + p2 + seq![s[i]] + p3 + d + p4
        }),
{
    lemma_first_sep_bounds(s);
    let i = first_sep(s);
    let u = s.take(i);
    let v = s.skip(i + 1);
    assert(exists|k: int| 0 <= k < u.len() && !is_space_char(u[k])) by {
        let k = choose|k: int| 0 <= k < i && !is_space_char(s[k]);
        assert(u[k] == s[k]);
    }
    assert(exists|k: int| 0 <= k < v.len() && !is_space_char(v[k])) by {
        let k = choose|k: int| i < k < s.len() && !is_space_char(s[k]);
        assert(v[k - i - 1] == s[k]);
    }
    lemma_trim_decomposition(u);
    lemma_trim_decomposition(v);
    let b = trim_spec(u);
    let d = trim_spec(v);
    let (p1, p2): (Seq<char>, Seq<char>) = choose|p: Seq<char>, q: Seq<char>|
        all_space(p) && all_space(q) && u =~= p + b + q;
    let (p3, p4): (Seq<char>, Seq<char>) = choose|p: Seq<char>, q: Seq<char>|
        all_space(p) && all_space(q) && v =~= p + d + q;
    assert(s =~= u + seq![s[i]] + v);
    assert(s =~= p1 + b + p2 + seq![s[i]] + p3 + d + p4);
}

/// Trim leading and trailing white space from a string.
fn trimmed(s: &str) -> (r: String)
    ensures
        r@ == trim_spec(s@),
{
    let n = s.unicode_len();
    let mut lo: usize = 0;
    while lo < n && is_space(s.get_char(lo))
        invariant
            0 <= lo <= n,
            n == s@.len(),
            forall|k: int| 0 <= k < lo ==> is_space_char(s@[k]),
        decreases n - lo,
    {
        lo = lo + 1;
    }
    let mut hi: usize = n;
    while hi > lo && is_space(s.get_char(hi - 1))
        invariant
            lo <= hi <= n,
            n == s@.len(),
            forall|k: int| hi <= k < n ==> is_space_char(s@[k]),
        decreases hi,
    {
        hi = hi - 1;
    }
    proof {
        lemma_lead_spaces_at(s@, lo as int);
        let t = s@.skip(lo as int);
        assert forall|k: int| hi - lo <= k < t.len() implies is_space_char(t[k]) by {
            assert(t[k] == s@[k + lo]);
        }
        if hi > lo {
            assert(t[hi - lo - 1] == s@[hi - 1]);
        }
        lemma_tail_spaces_at(t, hi - lo);
        assert(trim_spec(s@) =~= s@.subrange(lo as int, hi as int));
    }
    s.substring_char(lo, hi).to_owned()
}

/// Split a free-text year range on the first hyphen or en dash and trim
/// white space from both halves. `None` exactly when no separator occurs.
pub fn split_years(years: &str) -> (r: Option<(String, String)>)
    ensures
        has_year_sep(years@) ==> (r matches Some(p) && p.0@ == trim_spec(
            years@.take(first_sep(years@)),
        ) && p.1@ == trim_spec(years@.skip(first_sep(years@) + 1))),
        !has_year_sep(years@) ==> r is None,
{
    let n = years.unicode_len();
    let mut i: usize = 0;
    while i < n && !is_sep(years.get_char(i))
        invariant
            0 <= i <= n,
            n == years@.len(),
            forall|k: int| 0 <= k < i ==> !is_year_sep(years@[k]),
        decreases n - i,
    {
        i = i + 1;
    }
    if i == n {
        proof {
            assert(!has_year_sep(years@));
        }
        None
    } else {
        proof {
            lemma_first_sep_at(years@, i as int);
        }
        let born = trimmed(years.substring_char(0, i));
        let died = trimmed(years.substring_char(i + 1, n));
        proof {
            assert(years@.subrange(0, i as int) =~= years@.take(i as int));
            assert(years@.subrange(i + 1, n as int) =~= years@.skip(i + 1));
        }
        Some((born, died))
    }
}

} // verus!
