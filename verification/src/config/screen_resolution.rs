//! The screen resolution the compositor renders the game at: the display's
//! own ("native") resolution, or an explicit width and height.
//!
//! The native resolution has to be read from the running display server, so
//! the caller queries it and passes the outcome in; rendering the flag is
//! verified here.

use crate::text::dec_str;
use crate::text::digit_run_end;
use crate::text::digit_run_len;
use crate::text::digits_val;
use crate::text::is_digit;
use crate::text::is_digit_exec;
use crate::text::matches_at;
use crate::text::matches_marker_at;
use crate::text::parse_digit_run;
use vstd::prelude::*;
use vstd::string::StrSliceExecFns;
use vstd::string::StringExecFns;

verus! {

#[derive(Debug, PartialEq, Eq, Structural, Clone, Copy)]
pub enum ScreenResolution {
    Native,
    Custom(u16, u16),
}

/// The compositor flag for an explicit width and height: `-w W -h H`.
pub open spec fn resolution_argument(w: nat, h: nat) -> Seq<char> {
    "-w "@ + dec_str(w) + " -h "@ + dec_str(h)
}

/// The flag a resolution setting produces, given the outcome of querying the
/// display for its native resolution; `None` when the native resolution is
/// required but could not be determined.
pub open spec fn resolution_argument_of(
    r: ScreenResolution,
    native: Option<(u16, u16)>,
) -> Option<Seq<char>> {
    match r {
        ScreenResolution::Custom(w, h) => Some(resolution_argument(w as nat, h as nat)),
        ScreenResolution::Native => match native {
            Some(wh) => Some(resolution_argument(wh.0 as nat, wh.1 as nat)),
            None => None,
        },
    }
}

impl Default for ScreenResolution {
    /// The default resolution mode: the display's native resolution.
    fn default() -> (r: Self)
        ensures
            r == ScreenResolution::Native,
    {
        ScreenResolution::Native
    }
}

impl ScreenResolution {
    /// The compositor's resolution flag, built from this setting and the
    /// queried native resolution.
    pub fn as_gamescope_command_argument(&self, native: Option<(u16, u16)>) -> (r: Option<String>)
        ensures
            match resolution_argument_of(*self, native) {
                Some(arg) => r matches Some(s) && s@ == arg,
                None => r is None,
            },
    {
        let wh: (u16, u16) = match self {
            ScreenResolution::Custom(w, h) => (*w, *h),
            ScreenResolution::Native => {
                match native {
                    Some(wh) => wh,
                    None => {
                        return None;
                    },
                }
            },
        };
        proof {
            reveal_strlit("-w ");
            reveal_strlit(" -h ");
        }
        let mut out = "-w ".to_owned();
        crate::text::append_dec_u64(&mut out, wh.0 as u64);
        out.append(" -h ");
        crate::text::append_dec_u64(&mut out, wh.1 as u64);
        proof {
            assert(out@ =~= resolution_argument(wh.0 as nat, wh.1 as nat));
        }
        Some(out)
    }
}

/// The text that precedes a monitor's mode in the display server's report.
pub open spec fn xrandr_marker() -> Seq<char> {
    "connected "@
}

/// Whether the report announces a resolution at position `i`: the marker,
/// a width as a digit run, the letter `x`, and a height beginning with a
/// digit.
pub open spec fn xrandr_match_at(s: Seq<char>, i: int) -> bool {
    let ws = i + xrandr_marker().len();
    let xp = ws + digit_run_len(s, ws);
    &&& matches_at(s, xrandr_marker(), i)
    &&& ws < s.len() && is_digit(s[ws])
    &&& xp < s.len() && s[xp] == 'x'
    &&& xp + 1 < s.len() && is_digit(s[xp + 1])
}

/// The first position at or after `i` where the report announces a
/// resolution.
pub open spec fn first_xrandr_match_from(s: Seq<char>, i: int) -> Option<int>
    decreases s.len() - i when 0 <= i
{
    if i >= s.len() {
        None
    } else if xrandr_match_at(s, i) {
        Some(i)
    } else {
        first_xrandr_match_from(s, i + 1)
    }
}

/// The resolution the display server's report names first, if both its
/// width and height fit in 16 bits.
pub open spec fn xrandr_resolution_of(s: Seq<char>) -> Option<(u16, u16)> {
    match first_xrandr_match_from(s, 0) {
        None => None,
        Some(i) => {
            let ws = i + xrandr_marker().len();
            let wlen = digit_run_len(s, ws);
            let w = digits_val(s.subrange(ws, ws + wlen));
            let hs = ws + wlen + 1;
            let h = digits_val(s.subrange(hs, hs + digit_run_len(s, hs)));
            if w <= u16::MAX && h <= u16::MAX {
                Some(((w as u16), (h as u16)))
            } else {
                None
            }
        },
    }
}

/// Whether the report announces a resolution at position `i`.
fn is_xrandr_match(s: &str, s_len: usize, m_len: usize, i: usize) -> (r: bool)
    requires
        s_len == s@.len(),
        m_len == xrandr_marker().len(),
        i < s_len,
    ensures
        r == xrandr_match_at(s@, i as int),
{
    if s_len - i < m_len {
        return false;
    }
    if !matches_marker_at(s, "connected ", s_len, m_len, i) {
        return false;
    }
    let ws = i + m_len;
    if ws >= s_len || !is_digit_exec(s.get_char(ws)) {
        return false;
    }
    let xp = digit_run_end(s, s_len, ws);
    if xp >= s_len || s.get_char(xp) != 'x' {
        return false;
    }
    if xp + 1 >= s_len || !is_digit_exec(s.get_char(xp + 1)) {
        return false;
    }
    true
}

/// The resolution the display server's report names first, as
/// `xrandr_resolution_of` defines it.
pub fn parse_xrandr_resolution(output: &str) -> (r: Option<(u16, u16)>)
    ensures
        r == xrandr_resolution_of(output@),
{
    let s_len = output.unicode_len();
    let m_len = "connected ".unicode_len();
    proof {
        reveal_strlit("connected ");
    }
    let mut i: usize = 0;
    while i < s_len
        invariant
            s_len == output@.len(),
            m_len == xrandr_marker().len(),
            i <= s_len,
            first_xrandr_match_from(output@, 0) == first_xrandr_match_from(output@, i as int),
        decreases s_len - i,
    {
        if is_xrandr_match(output, s_len, m_len, i) {
            proof {
                assert(first_xrandr_match_from(output@, i as int) == Some(i as int));
            }
            let ws = i + m_len;
            let w = parse_digit_run(output, s_len, ws);
            let xp = digit_run_end(output, s_len, ws);
            let h = parse_digit_run(output, s_len, xp + 1);
            if let Some(wv) = w {
                if let Some(hv) = h {
                    if wv <= u16::MAX as u32 && hv <= u16::MAX as u32 {
                        return Some((wv as u16, hv as u16));
                    }
                }
            }
            return None;
        }
        proof {
            assert(first_xrandr_match_from(output@, i as int) == first_xrandr_match_from(
                output@,
                i + 1,
            ));
        }
        i = i + 1;
    }
    proof {
        assert(first_xrandr_match_from(output@, i as int) is None);
    }
    None
}

} // verus!
