//! Decimal digits and rendering of unsigned numbers as text.
//!
//! Everything the crate prints or scans goes through the spec functions
//! here, so that the contracts of the command assembler and the display
//! scanner can speak about exact character sequences.

use vstd::prelude::*;
use vstd::string::StrSliceExecFns;
use vstd::string::StringExecFns;

verus! {

/// Whether `c` is one of the ten ASCII decimal digits.
pub open spec fn is_digit(c: char) -> bool {
    48 <= c as u32 <= 57
}

/// The numeric value of a decimal digit character.
pub open spec fn digit_val(c: char) -> nat {
    (c as u32 - 48) as nat
}

/// The digit character for a value below ten.
pub open spec fn digit_char(d: nat) -> char {
    if d == 0 {
        '0'
    } else if d == 1 {
        '1'
    } else if d == 2 {
        '2'
    } else if d == 3 {
        '3'
    } else if d == 4 {
        '4'
    } else if d == 5 {
        '5'
    } else if d == 6 {
        '6'
    } else if d == 7 {
        '7'
    } else if d == 8 {
        '8'
    } else {
        '9'
    }
}

/// The value of a sequence of digit characters read in base ten.
pub open spec fn digits_val(s: Seq<char>) -> nat
    decreases s.len(),
{
    if s.len() == 0 {
        0
    } else {
        digits_val(s.drop_last()) * 10 + digit_val(s.last())
    }
}

/// The decimal rendering of `n`, without leading zeros (a single `'0'` for zero).
pub open spec fn dec_str(n: nat) -> Seq<char>
    decreases n,
{
    if n < 10 {
        seq![digit_char(n)]
    } else {
        dec_str(n / 10).push(digit_char(n % 10))
    }
}

/// Appends the decimal rendering of `n` to `out`.
pub fn append_dec_u64(out: &mut String, n: u64)
    ensures
        final(out)@ == old(out)@ + dec_str(n as nat),
    decreases n,
{
    if n >= 10 {
        append_dec_u64(out, n / 10);
    }
    append_digit(out, n % 10);
    proof {
        if n >= 10 {
            assert(dec_str(n as nat) == dec_str(n as nat / 10).push(digit_char(n as nat % 10)));
            assert(out@ =~= old(out)@ + dec_str(n as nat));
        } else {
            assert(dec_str(n as nat) =~= seq![digit_char(n as nat)]);
            assert(out@ =~= old(out)@ + dec_str(n as nat));
        }
    }
}

/// Appends the single digit character for `d` to `out`.
fn append_digit(out: &mut String, d: u64)
    requires
        d < 10,
    ensures
        final(out)@ == old(out)@ + seq![digit_char(d as nat)],
{
    if d == 0 {
        proof {
            reveal_strlit("0");
        }
        out.append("0");
    } else if d == 1 {
        proof {
            reveal_strlit("1");
        }
        out.append("1");
    } else if d == 2 {
        proof {
            reveal_strlit("2");
        }
        out.append("2");
    } else if d == 3 {
        proof {
            reveal_strlit("3");
        }
        out.append("3");
    } else if d == 4 {
        proof {
            reveal_strlit("4");
        }
        out.append("4");
    } else if d == 5 {
        proof {
            reveal_strlit("5");
        }
        out.append("5");
    } else if d == 6 {
        proof {
            reveal_strlit("6");
        }
        out.append("6");
    } else if d == 7 {
        proof {
            reveal_strlit("7");
        }
        out.append("7");
    } else if d == 8 {
        proof {
            reveal_strlit("8");
        }
        out.append("8");
    } else {
        proof {
            reveal_strlit("9");
        }
        out.append("9");
    }
    proof {
        assert(out@ =~= old(out)@ + seq![digit_char(d as nat)]);
    }
}

/// Whether the two string slices hold the same characters.
pub fn str_eq(a: &str, b: &str) -> (r: bool)
    ensures
        r == (a@ == b@),
{
    let a_len = a.unicode_len();
    let b_len = b.unicode_len();
    if a_len != b_len {
        proof {
            assert(a@ != b@);
        }
        return false;
    }
    let mut i: usize = 0;
    while i < a_len
        invariant
            a_len == a@.len(),
            b_len == b@.len(),
            a_len == b_len,
            i <= a_len,
            forall|j: int| 0 <= j < i ==> a@[j] == b@[j],
        decreases a_len - i,
    {
        if a.get_char(i) != b.get_char(i) {
            proof {
                assert(a@[i as int] != b@[i as int]);
            }
            return false;
        }
        i = i + 1;
    }
    proof {
        assert(a@ =~= b@);
    }
    true
}

/// Whether `pat` occurs in `s` starting at position `i`.
pub open spec fn matches_at(s: Seq<char>, pat: Seq<char>, i: int) -> bool {
    0 <= i && i + pat.len() <= s.len() && s.subrange(i, i + pat.len()) == pat
}

/// The length of the run of digit characters in `s` beginning at `i`.
pub open spec fn digit_run_len(s: Seq<char>, i: int) -> nat
    decreases s.len() - i when 0 <= i <= s.len()
{
    if i >= s.len() || !is_digit(s[i]) {
        0
    } else {
        1 + digit_run_len(s, i + 1)
    }
}

/// Whether `marker` occurs at `i` in `s` with a digit right after it.
pub open spec fn marker_match_at(s: Seq<char>, marker: Seq<char>, i: int) -> bool {
    matches_at(s, marker, i) && i + marker.len() < s.len() && is_digit(s[i + marker.len()])
}

/// The first position at or after `i` where `marker` is followed by a digit.
pub open spec fn first_marker_match_from(s: Seq<char>, marker: Seq<char>, i: int) -> Option<int>
    decreases s.len() - i when 0 <= i
{
    if i + marker.len() >= s.len() {
        None
    } else if marker_match_at(s, marker, i) {
        Some(i)
    } else {
        first_marker_match_from(s, marker, i + 1)
    }
}

/// The value of the digit run that follows the first occurrence of `marker`
/// in `s`, if the marker occurs with a digit after it and the run's value
/// fits in 32 bits.
pub open spec fn marker_number(s: Seq<char>, marker: Seq<char>) -> Option<u32> {
    match first_marker_match_from(s, marker, 0) {
        None => None,
        Some(i) => {
            let start = i + marker.len();
            let v = digits_val(s.subrange(start, start + digit_run_len(s, start)));
            if v <= u32::MAX {
                Some(v as u32)
            } else {
                None
            }
        },
    }
}

/// Reading one more digit can only grow the value of a digit run.
proof fn lemma_digits_val_prefix_grows(s: Seq<char>, j: int)
    requires
        0 <= j < s.len(),
    ensures
        digits_val(s.subrange(0, j)) <= digits_val(s.subrange(0, j + 1)),
{
    let p = s.subrange(0, j + 1);
    assert(p.drop_last() =~= s.subrange(0, j));
    let v = digits_val(s.subrange(0, j));
    assert(digits_val(p) == v * 10 + digit_val(p.last()));
    assert(v <= v * 10) by (nonlinear_arith);
}

/// A digit run's value only grows as the run is extended.
proof fn lemma_digits_val_monotone(s: Seq<char>, start: int, j: int, e: int)
    requires
        0 <= start <= j <= e <= s.len(),
    ensures
        digits_val(s.subrange(start, j)) <= digits_val(s.subrange(start, e)),
    decreases e - j,
{
    if j < e {
        let t = s.subrange(start, e);
        assert(t.subrange(0, j - start) =~= s.subrange(start, j));
        assert(t.subrange(0, j - start + 1) =~= s.subrange(start, j + 1));
        lemma_digits_val_prefix_grows(t, j - start);
        lemma_digits_val_monotone(s, start, j + 1, e);
    } else {
        assert(s.subrange(start, j) =~= s.subrange(start, e));
    }
}

/// Where the run of digit characters beginning at `start` ends.
pub fn digit_run_end(s: &str, s_len: usize, start: usize) -> (e: usize)
    requires
        s_len == s@.len(),
        start <= s_len,
    ensures
        e == start + digit_run_len(s@, start as int),
{
    let mut j: usize = start;
    while j < s_len && is_digit_exec(s.get_char(j))
        invariant
            s_len == s@.len(),
            start <= j <= s_len,
            digit_run_len(s@, start as int) == (j - start) + digit_run_len(s@, j as int),
        decreases s_len - j,
    {
        j = j + 1;
    }
    j
}

/// The value of the digit run beginning at `start`, if it is nonempty and
/// fits in 32 bits.
pub fn parse_digit_run(s: &str, s_len: usize, start: usize) -> (r: Option<u32>)
    requires
        s_len == s@.len(),
        start < s_len,
        is_digit(s@[start as int]),
    ensures
        ({
            let v = digits_val(s@.subrange(start as int, start + digit_run_len(s@, start as int)));
            if v <= u32::MAX {
                r == Some(v as u32)
            } else {
                r is None
            }
        }),
{
    let ghost run_end: int = start + digit_run_len(s@, start as int);
    proof {
        lemma_digit_run_end(s@, start as int);
    }
    let mut acc: u64 = 0;
    let mut j: usize = start;
    while j < s_len && is_digit_exec(s.get_char(j))
        invariant
            s_len == s@.len(),
            start <= j <= s_len,
            start + digit_run_len(s@, start as int) == run_end,
            run_end <= s_len,
            j <= run_end ==> acc == digits_val(s@.subrange(start as int, j as int)),
            j <= run_end,
            acc <= u32::MAX,
            forall|k: int| start <= k < j ==> is_digit(s@[k]),
        decreases s_len - j,
    {
        let d = s.get_char(j);
        proof {
            assert(is_digit(s@[j as int]));
            assert(j < run_end) by {
                lemma_digit_run_extends(s@, start as int, j as int);
            }
            assert(s@.subrange(start as int, j + 1).drop_last() =~= s@.subrange(
                start as int,
                j as int,
            ));
        }
        let dv: u64 = (d as u32) as u64 - 48;
        acc = acc * 10 + dv;
        j = j + 1;
        if acc > u32::MAX as u64 {
            proof {
                lemma_digits_val_monotone(s@, start as int, j as int, run_end);
            }
            return None;
        }
    }
    proof {
        assert(j == run_end) by {
            if j < run_end {
                lemma_digit_run_extends(s@, start as int, j as int);
            }
        }
    }
    Some(acc as u32)
}

/// Every position strictly inside a digit run holds a digit.
proof fn lemma_digit_run_extends(s: Seq<char>, start: int, j: int)
    requires
        0 <= start <= j <= s.len(),
        forall|k: int| start <= k < j ==> is_digit(s[k]),
        j < s.len() && is_digit(s[j]) || j < start + digit_run_len(s, start),
    ensures
        j < s.len() && is_digit(s[j]),
        j < start + digit_run_len(s, start),
    decreases j - start,
{
    if start < j {
        assert(is_digit(s[start]));
        lemma_digit_run_extends(s, start + 1, j);
    }
}

/// A digit run ends inside the string, at a non-digit or at the end.
proof fn lemma_digit_run_end(s: Seq<char>, start: int)
    requires
        0 <= start <= s.len(),
    ensures
        start + digit_run_len(s, start) <= s.len(),
        forall|k: int| start <= k < start + digit_run_len(s, start) ==> is_digit(s[k]),
    decreases s.len() - start,
{
    if start < s.len() && is_digit(s[start]) {
        lemma_digit_run_end(s, start + 1);
    }
}

/// Whether `marker` occurs in `s` at position `i`, checked character by character.
pub fn matches_marker_at(s: &str, marker: &str, s_len: usize, m_len: usize, i: usize) -> (r:
    bool)
    requires
        s_len == s@.len(),
        m_len == marker@.len(),
        i + m_len <= s_len,
    ensures
        r == matches_at(s@, marker@, i as int),
{
    let mut k: usize = 0;
    while k < m_len
        invariant
            s_len == s@.len(),
            m_len == marker@.len(),
            i + m_len <= s_len,
            k <= m_len,
            forall|j: int| 0 <= j < k ==> s@[i + j] == marker@[j],
        decreases m_len - k,
    {
        if s.get_char(i + k) != marker.get_char(k) {
            proof {
                assert(s@.subrange(i as int, i + marker@.len())[k as int] != marker@[k as int]);
            }
            return false;
        }
        k = k + 1;
    }
    proof {
        assert(s@.subrange(i as int, i + marker@.len()) =~= marker@);
    }
    true
}

/// The number announced after the first occurrence of `marker` in `s`,
/// as `marker_number` defines it.
pub fn find_marker_number(s: &str, marker: &str) -> (r: Option<u32>)
    ensures
        r == marker_number(s@, marker@),
{
    let s_len = s.unicode_len();
    let m_len = marker.unicode_len();
    let mut i: usize = 0;
    while m_len < s_len - i
        invariant
            s_len == s@.len(),
            m_len == marker@.len(),
            i <= s_len,
            first_marker_match_from(s@, marker@, 0) == first_marker_match_from(
                s@,
                marker@,
                i as int,
            ),
        decreases s_len - i,
    {
        let is_match = matches_marker_at(s, marker, s_len, m_len, i) && is_digit_exec(
            s.get_char(i + m_len),
        );
        if is_match {
            proof {
                assert(marker_match_at(s@, marker@, i as int));
                assert(first_marker_match_from(s@, marker@, i as int) == Some(i as int));
            }
            return parse_digit_run(s, s_len, i + m_len);
        }
        proof {
            assert(!marker_match_at(s@, marker@, i as int));
            assert(first_marker_match_from(s@, marker@, i as int) == first_marker_match_from(
                s@,
                marker@,
                i + 1,
            ));
        }
        i = i + 1;
    }
    proof {
        assert(first_marker_match_from(s@, marker@, i as int) is None);
    }
    None
}

/// The position of the last occurrence of `c` in `s`, if any.
pub open spec fn last_char_pos(s: Seq<char>, c: char) -> Option<int>
    decreases s.len(),
{
    if s.len() == 0 {
        None
    } else if s.last() == c {
        Some(s.len() - 1)
    } else {
        last_char_pos(s.drop_last(), c)
    }
}

/// The fragments joined with single spaces, with no leading or trailing space.
pub open spec fn join_spaced(fs: Seq<Seq<char>>) -> Seq<char>
    decreases fs.len(),
{
    if fs.len() == 0 {
        Seq::empty()
    } else if fs.len() == 1 {
        fs[0]
    } else {
        join_spaced(fs.drop_last()) + seq![' '] + fs.last()
    }
}

/// Joins the fragments with single spaces.
pub fn join_fragments(fragments: &Vec<String>) -> (r: String)
    ensures
        r@ == join_spaced(fragments.deep_view()),
{
    let ghost fs = fragments.deep_view();
    let mut out = String::new();
    let mut i: usize = 0;
    while i < fragments.len()
        invariant
            fs == fragments.deep_view(),
            fs.len() == fragments@.len(),
            i <= fragments@.len(),
            out@ == join_spaced(fs.take(i as int)),
        decreases fragments@.len() - i,
    {
        if i > 0 {
            proof {
                reveal_strlit(" ");
            }
            out.append(" ");
        }
        out.append(fragments[i].as_str());
        proof {
            assert(fs[i as int] == fragments@[i as int]@);
            assert(fs.take(i + 1).drop_last() =~= fs.take(i as int));
            assert(fs.take(i + 1).last() == fs[i as int]);
            if i > 0 {
                assert(out@ =~= join_spaced(fs.take(i + 1)));
            } else {
                assert(out@ =~= join_spaced(fs.take(1)));
            }
        }
        i = i + 1;
    }
    proof {
        assert(fs.take(fs.len() as int) =~= fs);
    }
    out
}

/// Executable digit test, equal to the spec `is_digit`.
pub fn is_digit_exec(c: char) -> (r: bool)
    ensures
        r == is_digit(c),
{
    let v = c as u32;
    48 <= v && v <= 57
}

} // verus!
