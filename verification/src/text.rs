//! Text clean-up for captured process output: which characters count as
//! whitespace, and trimming them from both ends of a string.
use vstd::prelude::*;

verus! {

/// Whether `c` has the Unicode property `White_Space`.
pub open spec fn white_space(c: char) -> bool {
    let n = c as u32;
    ||| 0x0009 <= n <= 0x000D
    ||| n == 0x0020
    ||| n == 0x0085
    ||| n == 0x00A0
    ||| n == 0x1680
    ||| 0x2000 <= n <= 0x200A
    ||| n == 0x2028
    ||| n == 0x2029
    ||| n == 0x202F
    ||| n == 0x205F
    ||| n == 0x3000
}

/// Every character of `s` is whitespace.
pub open spec fn all_white_space(s: Seq<char>) -> bool {
    forall|i: int| 0 <= i < s.len() ==> white_space(#[trigger] s[i])
}

/// `s` neither begins nor ends with whitespace.
pub open spec fn is_trimmed(s: Seq<char>) -> bool {
    s.len() > 0 ==> !white_space(s.first()) && !white_space(s.last())
}

/// `s` without its leading whitespace.
pub open spec fn trim_start(s: Seq<char>) -> Seq<char>
    decreases s.len(),
{
    if s.len() > 0 && white_space(s.first()) {
        trim_start(s.drop_first())
    } else {
        s
    }
}

/// `s` without its trailing whitespace.
pub open spec fn trim_end(s: Seq<char>) -> Seq<char>
    decreases s.len(),
{
    if s.len() > 0 && white_space(s.last()) {
        trim_end(s.drop_last())
    } else {
        s
    }
}

/// `s` without its leading and trailing whitespace.
pub open spec fn trimmed(s: Seq<char>) -> Seq<char> {
    trim_end(trim_start(s))
}

/// Leading whitespace in front of something that does not start with
/// whitespace is exactly what `trim_start` removes.
pub proof fn lemma_trim_start_strips(lead: Seq<char>, rest: Seq<char>)
    requires
        all_white_space(lead),
        rest.len() > 0 ==> !white_space(rest.first()),
    ensures
        trim_start(lead + rest) == rest,
    decreases lead.len(),
{
    if lead.len() > 0 {
        assert(white_space(lead[0]));
        assert((lead + rest).drop_first() =~= lead.drop_first() + rest);
        assert(all_white_space(lead.drop_first())) by {
            assert forall|i: int| 0 <= i < lead.drop_first().len() implies white_space(
                #[trigger] lead.drop_first()[i],
            ) by {
                assert(lead.drop_first()[i] == lead[i + 1]);
            }
        }
        lemma_trim_start_strips(lead.drop_first(), rest);
    } else {
        assert(lead + rest =~= rest);
    }
}

/// Trailing whitespace behind something that does not end with whitespace
/// is exactly what `trim_end` removes.
pub proof fn lemma_trim_end_strips(rest: Seq<char>, trail: Seq<char>)
    requires
        all_white_space(trail),
        rest.len() > 0 ==> !white_space(rest.last()),
    ensures
        trim_end(rest + trail) == rest,
    decreases trail.len(),
{
    if trail.len() > 0 {
        assert(white_space(trail[trail.len() - 1]));
        assert((rest + trail).drop_last() =~= rest + trail.drop_last());
        assert(all_white_space(trail.drop_last())) by {
            assert forall|i: int| 0 <= i < trail.drop_last().len() implies white_space(
                #[trigger] trail.drop_last()[i],
            ) by {
                assert(trail.drop_last()[i] == trail[i]);
            }
        }
        lemma_trim_end_strips(rest, trail.drop_last());
    } else {
        assert(rest + trail =~= rest);
    }
}

/// Trimming removes the whitespace around a core and leaves the core as it
/// is, whitespace inside it included: if `lead` and `trail` are whitespace
/// and `core` neither begins nor ends with whitespace, then trimming
/// `lead + core + trail` gives `core`.
pub proof fn lemma_trimmed_strips(lead: Seq<char>, core: Seq<char>, trail: Seq<char>)
    requires
        all_white_space(lead),
        all_white_space(trail),
        is_trimmed(core),
    ensures
        trimmed(lead + core + trail) == core,
{
    if core.len() > 0 {
        assert(lead + core + trail =~= lead + (core + trail));
        assert((core + trail).first() == core.first());
        lemma_trim_start_strips(lead, core + trail);
        lemma_trim_end_strips(core, trail);
    } else {
        assert(lead + core + trail =~= (lead + trail) + core);
        assert(all_white_space(lead + trail));
        lemma_trim_start_strips(lead + trail, core);
        assert(trim_end(core) == core);
    }
}

/// What `trim_start` leaves is the end of `s`; all it drops is whitespace,
/// and what is left does not begin with whitespace.
pub proof fn lemma_trim_start_shape(s: Seq<char>)
    ensures
        trim_start(s).len() <= s.len(),
        trim_start(s) == s.subrange(s.len() - trim_start(s).len(), s.len() as int),
        all_white_space(s.subrange(0, s.len() - trim_start(s).len())),
        trim_start(s).len() > 0 ==> !white_space(trim_start(s).first()),
    decreases s.len(),
{
    if s.len() > 0 && white_space(s.first()) {
        let r = s.drop_first();
        lemma_trim_start_shape(r);
        let k = r.len() - trim_start(r).len();
        assert(r.subrange(k, r.len() as int) =~= s.subrange(k + 1, s.len() as int));
        assert forall|i: int| 0 <= i < k + 1 implies white_space(
            #[trigger] s.subrange(0, k + 1)[i],
        ) by {
            if i > 0 {
                assert(s.subrange(0, k + 1)[i] == r.subrange(0, k)[i - 1]);
            }
        }
    } else {
        assert(s.subrange(0, s.len() as int) =~= s);
    }
}

/// What `trim_end` leaves is the beginning of `s`; all it drops is
/// whitespace, and what is left does not end with whitespace.
pub proof fn lemma_trim_end_shape(s: Seq<char>)
    ensures
        trim_end(s).len() <= s.len(),
        trim_end(s) == s.subrange(0, trim_end(s).len() as int),
        all_white_space(s.subrange(trim_end(s).len() as int, s.len() as int)),
        trim_end(s).len() > 0 ==> !white_space(trim_end(s).last()),
    decreases s.len(),
{
    if s.len() > 0 && white_space(s.last()) {
        let r = s.drop_last();
        lemma_trim_end_shape(r);
        let k = trim_end(r).len() as int;
        assert(r.subrange(0, k) =~= s.subrange(0, k));
        assert forall|i: int| 0 <= i < s.len() - k implies white_space(
            #[trigger] s.subrange(k, s.len() as int)[i],
        ) by {
            if i < r.len() - k {
                assert(s.subrange(k, s.len() as int)[i] == r.subrange(k, r.len() as int)[i]);
            }
        }
    } else {
        assert(s.subrange(0, s.len() as int) =~= s);
    }
}

/// The trimmed text is a stretch of `s` with nothing but whitespace before
/// and after it, and it neither begins nor ends with whitespace.
pub proof fn lemma_trimmed_shape(s: Seq<char>)
    ensures
        is_trimmed(trimmed(s)),
        exists|i: int, j: int|
            0 <= i <= j <= s.len() && trimmed(s) == #[trigger] s.subrange(i, j) && all_white_space(
                s.subrange(0, i),
            ) && all_white_space(s.subrange(j, s.len() as int)),
{
    let m = trim_start(s);
    let t = trim_end(m);
    lemma_trim_start_shape(s);
    lemma_trim_end_shape(m);
    let i = s.len() - m.len();
    let j = i + t.len();
    assert(t =~= s.subrange(i, j));
    assert(s.subrange(j, s.len() as int) =~= m.subrange(t.len() as int, m.len() as int));
    if t.len() > 0 {
        assert(t.first() == m.first());
    }
}

/// Trimming twice is trimming once.
pub proof fn lemma_trimmed_idempotent(s: Seq<char>)
    ensures
        trimmed(trimmed(s)) == trimmed(s),
{
    lemma_trimmed_shape(s);
    let t = trimmed(s);
    assert(Seq::<char>::empty() + t + Seq::<char>::empty() =~= t);
    lemma_trimmed_strips(Seq::empty(), t, Seq::empty());
}

/// Whether `c` has the Unicode property `White_Space`.
pub fn is_whitespace(c: char) -> (b: bool)
    ensures
        b == white_space(c),
{
    let n: u32 = c as u32;
    (0x0009 <= n && n <= 0x000D) || n == 0x0020 || n == 0x0085 || n == 0x00A0 || n == 0x1680 || (
    0x2000 <= n && n <= 0x200A) || n == 0x2028 || n == 0x2029 || n == 0x202F || n == 0x205F || n
        == 0x3000
}

/// The part of `s` between its leading and its trailing whitespace.
pub fn trim(s: &str) -> (t: &str)
    ensures
        t@ == trimmed(s@),
{
    let n: usize = s.unicode_len();
    let mut start: usize = 0;
    let mut end: usize = 0;
    let mut i: usize = 0;
    for c in it: s.chars()
        invariant
            it.seq() == s@,
            n == s@.len(),
            i == it.index(),
            start <= end <= i,
            start < end ==> !white_space(s@[start as int]) && !white_space(s@[end - 1]),
            start == end ==> start == 0,
            forall|k: int| 0 <= k < start ==> white_space(#[trigger] s@[k]),
            forall|k: int| end <= k < i ==> white_space(#[trigger] s@[k]),
            start == end ==> forall|k: int| 0 <= k < i ==> white_space(#[trigger] s@[k]),
    {
        if !is_whitespace(c) {
            if start == end {
                start = i;
            }
            end = i + 1;
        }
        i += 1;
    }
    proof {
        let lead = s@.subrange(0, start as int);
        let core = s@.subrange(start as int, end as int);
        let trail = s@.subrange(end as int, s@.len() as int);
        assert(s@ =~= lead + core + trail);
        lemma_trimmed_strips(lead, core, trail);
    }
    s.substring_char(start, end)
}

} // verus!
