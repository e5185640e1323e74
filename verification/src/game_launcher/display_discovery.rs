//! Discovery of the nested display endpoint the compositor announces.
//!
//! The compositor writes a line naming the display it started for the game
//! to its error stream. The scanner here is fed that stream line by line:
//! it answers with the display's number the moment an announcing line
//! arrives, and with an explicit "not found" when the stream ends without
//! one. Which lines precede or follow the first announcing line cannot
//! change the answer.

use crate::text::find_marker_number;
use crate::text::marker_number;
use vstd::prelude::*;

verus! {

/// The text an announcing line holds right before the display's number.
pub open spec fn display_marker() -> Seq<char> {
    "Starting Xwayland on :"@
}

/// The display a single line announces, if any.
pub open spec fn line_announcement(line: Seq<char>) -> Option<u32> {
    marker_number(line, display_marker())
}

/// The display a single line announces, if any.
pub fn parse_display_announcement(line: &str) -> (r: Option<u32>)
    ensures
        r == line_announcement(line@),
{
    find_marker_number(line, "Starting Xwayland on :")
}

/// The first announcing line at or after position `i`, with the display it
/// announces.
pub open spec fn first_announcement_from(lines: Seq<Seq<char>>, i: int) -> Option<(int, u32)>
    decreases lines.len() - i when 0 <= i
{
    if i >= lines.len() {
        None
    } else {
        match line_announcement(lines[i]) {
            Some(v) => Some((i, v)),
            None => first_announcement_from(lines, i + 1),
        }
    }
}

/// The first announcing line of the stream, with the display it announces.
pub open spec fn first_announcement(lines: Seq<Seq<char>>) -> Option<(int, u32)> {
    first_announcement_from(lines, 0)
}

/// What display discovery reports: the announced display's number, or an
/// explicit absence, which is a valid outcome and not a failure.
#[derive(Debug, PartialEq, Eq, Structural, Clone, Copy)]
pub enum DiscoveryOutcome {
    Found(u32),
    NotFound,
}

/// Unrolls the scan from `i` to `k` across non-announcing lines.
proof fn lemma_skip_step(lines: Seq<Seq<char>>, i: int, k: int)
    requires
        0 <= i <= k <= lines.len(),
        forall|j: int| i <= j < k ==> line_announcement(#[trigger] lines[j]) is None,
    ensures
        first_announcement_from(lines, i) == first_announcement_from(lines, k),
    decreases k - i,
{
    if i < k {
        lemma_skip_step(lines, i + 1, k);
    }
}

/// The law display discovery obeys: the outcome is fixed by the first
/// announcing line alone. If every line before `k` announces nothing and
/// line `k` announces `v`, the stream's outcome is `v` found at `k`,
/// whatever lines follow.
pub proof fn lemma_discovery_fixed_by_first_match(lines: Seq<Seq<char>>, k: int, v: u32)
    requires
        0 <= k < lines.len(),
        forall|j: int| 0 <= j < k ==> line_announcement(#[trigger] lines[j]) is None,
        line_announcement(lines[k]) == Some(v),
    ensures
        first_announcement(lines) == Some((k, v)),
{
    lemma_skip_step(lines, 0, k);
}

/// The law for a stream that ends without a match: if no line announces a
/// display, the outcome is an explicit absence.
pub proof fn lemma_discovery_not_found(lines: Seq<Seq<char>>)
    requires
        forall|j: int| 0 <= j < lines.len() ==> line_announcement(#[trigger] lines[j]) is None,
    ensures
        first_announcement(lines) is None,
{
    lemma_skip_step(lines, 0, lines.len() as int);
}

/// Two streams whose first announcing line is the same line report the same
/// display, no matter how many lines precede or follow it in each.
pub proof fn lemma_discovery_identifier_independent(
    a: Seq<Seq<char>>,
    b: Seq<Seq<char>>,
    ka: int,
    kb: int,
)
    requires
        0 <= ka < a.len(),
        0 <= kb < b.len(),
        forall|j: int| 0 <= j < ka ==> line_announcement(#[trigger] a[j]) is None,
        forall|j: int| 0 <= j < kb ==> line_announcement(#[trigger] b[j]) is None,
        a[ka] == b[kb],
        line_announcement(a[ka]) is Some,
    ensures
        ({
            let ra = first_announcement(a);
            let rb = first_announcement(b);
            ra matches Some(pa) && rb matches Some(pb) && pa.1 == pb.1
        }),
{
    let v = line_announcement(a[ka]).unwrap();
    lemma_discovery_fixed_by_first_match(a, ka, v);
    lemma_discovery_fixed_by_first_match(b, kb, v);
}

/// The incremental scanner a caller feeds the compositor's error stream
/// into, line by line.
pub struct DisplayDiscoveryTask {
    /// The display found so far.
    outcome: Option<u32>,
    /// Whether scanning is over: a display was found or the stream ended.
    finished: bool,
    /// How many lines have been fed in.
    lines_read: usize,
    /// The lines fed in so far.
    lines: Ghost<Seq<Seq<char>>>,
}

impl DisplayDiscoveryTask {
    /// The lines fed in so far.
    pub closed spec fn lines_spec(self) -> Seq<Seq<char>> {
        self.lines@
    }

    /// The display found so far.
    pub closed spec fn found(self) -> Option<u32> {
        self.outcome
    }

    /// Whether scanning is over.
    pub closed spec fn is_finished(self) -> bool {
        self.finished
    }

    /// How many lines have been fed in.
    pub closed spec fn lines_read_spec(self) -> int {
        self.lines_read as int
    }

    /// The scanner's invariant: what it has found is exactly what the
    /// stream fed so far announces, and it stops at the first match.
    pub closed spec fn wf(self) -> bool {
        &&& self.lines_read == self.lines@.len()
        &&& match self.outcome {
            Some(v) => {
                &&& self.finished
                &&& self.lines@.len() > 0
                &&& first_announcement(self.lines@) == Some(
                    (self.lines@.len() - 1, v),
                )
            },
            None => first_announcement(self.lines@) is None,
        }
    }

    /// A scanner that has seen no lines yet.
    pub fn new() -> (t: DisplayDiscoveryTask)
        ensures
            t.wf(),
            !t.is_finished(),
            t.lines_spec() == Seq::<Seq<char>>::empty(),
            t.found() is None,
    {
        DisplayDiscoveryTask {
            outcome: None,
            finished: false,
            lines_read: 0,
            lines: Ghost(Seq::empty()),
        }
    }

    /// Feeds the next line of the stream. Answers with the announced
    /// display the moment an announcing line arrives; scanning then stops.
    pub fn feed_line(&mut self, line: &str) -> (r: Option<u32>)
        requires
            old(self).wf(),
            !old(self).is_finished(),
            old(self).lines_read_spec() < usize::MAX,
        ensures
            final(self).wf(),
            final(self).lines_spec() == old(self).lines_spec().push(line@),
            final(self).lines_read_spec() == old(self).lines_read_spec() + 1,
            r == line_announcement(line@),
            final(self).found() == r,
            final(self).is_finished() == (r is Some),
    {
        let r = parse_display_announcement(line);
        proof {
            let fed = self.lines@.push(line@);
            assert(fed.subrange(0, fed.len() - 1) =~= self.lines@);
            lemma_feed_extends(self.lines@, line@);
        }
        self.lines = Ghost(self.lines@.push(line@));
        self.lines_read = self.lines_read + 1;
        if let Some(v) = r {
            self.outcome = Some(v);
            self.finished = true;
            Some(v)
        } else {
            None
        }
    }

    /// The stream ended. Scanning is over; what was not found by now is
    /// explicitly absent.
    pub fn end_of_stream(&mut self) -> (r: DiscoveryOutcome)
        requires
            old(self).wf(),
            !old(self).is_finished(),
        ensures
            final(self).wf(),
            final(self).is_finished(),
            final(self).lines_spec() == old(self).lines_spec(),
            r == DiscoveryOutcome::NotFound,
            final(self).found() is None,
    {
        self.finished = true;
        DiscoveryOutcome::NotFound
    }

    /// What discovery reported, once scanning is over.
    pub fn outcome(&self) -> (r: DiscoveryOutcome)
        requires
            self.wf(),
            self.is_finished(),
        ensures
            match self.found() {
                Some(v) => r == DiscoveryOutcome::Found(v),
                None => r == DiscoveryOutcome::NotFound,
            },
    {
        match self.outcome {
            Some(v) => DiscoveryOutcome::Found(v),
            None => DiscoveryOutcome::NotFound,
        }
    }
}

/// Extending a stream that announced nothing by one line moves the first
/// announcement, if any, to that line.
proof fn lemma_feed_extends(lines: Seq<Seq<char>>, line: Seq<char>)
    requires
        first_announcement(lines) is None,
    ensures
        ({
            let fed = lines.push(line);
            match line_announcement(line) {
                Some(v) => first_announcement(fed) == Some((fed.len() - 1, v)),
                None => first_announcement(fed) is None,
            }
        }),
{
    let fed = lines.push(line);
    assert forall|j: int| 0 <= j < lines.len() implies line_announcement(
        #[trigger] fed[j],
    ) is None by {
        lemma_prefix_no_announcement(lines, j);
        assert(fed[j] == lines[j]);
    }
    match line_announcement(line) {
        Some(v) => {
            assert(fed[lines.len() as int] == line);
            lemma_discovery_fixed_by_first_match(fed, lines.len() as int, v);
        },
        None => {
            lemma_discovery_not_found(fed);
        },
    }
}

/// A stream with no first announcement has no announcing line at all.
proof fn lemma_prefix_no_announcement(lines: Seq<Seq<char>>, j: int)
    requires
        first_announcement(lines) is None,
        0 <= j < lines.len(),
    ensures
        line_announcement(lines[j]) is None,
{
    lemma_no_announcement_all(lines, 0, j);
}

/// If scanning from `i` finds nothing, no line at or after `i` announces.
proof fn lemma_no_announcement_all(lines: Seq<Seq<char>>, i: int, j: int)
    requires
        0 <= i <= j < lines.len(),
        first_announcement_from(lines, i) is None,
    ensures
        line_announcement(lines[j]) is None,
    decreases j - i,
{
    if i < j {
        lemma_no_announcement_all(lines, i + 1, j);
    }
}

/// Scans a whole stream: the announced display of the first announcing
/// line, read up to and including that line, or an explicit absence after
/// reading every line.
pub fn scan_lines(lines: &Vec<String>) -> (r: (DiscoveryOutcome, usize))
    ensures
        match first_announcement(lines.deep_view()) {
            Some(kv) => r.0 == DiscoveryOutcome::Found(kv.1) && r.1 == kv.0 + 1,
            None => r.0 == DiscoveryOutcome::NotFound && r.1 == lines@.len(),
        },
{
    let ghost ls = lines.deep_view();
    let mut task = DisplayDiscoveryTask::new();
    let mut i: usize = 0;
    while i < lines.len()
        invariant
            ls == lines.deep_view(),
            ls.len() == lines@.len(),
            i <= lines@.len(),
            task.wf(),
            !task.is_finished(),
            task.found() is None,
            task.lines_spec() =~= ls.take(i as int),
            task.lines_read_spec() == i as int,
        decreases lines@.len() - i,
    {
        let line = &lines[i];
        let fed = task.feed_line(line.as_str());
        proof {
            assert(ls.take(i + 1) =~= ls.take(i as int).push(ls[i as int]));
        }
        if let Some(v) = fed {
            proof {
                lemma_take_preserves_first(ls, i + 1);
            }
            return (DiscoveryOutcome::Found(v), i + 1);
        }
        i = i + 1;
    }
    proof {
        assert(ls.take(ls.len() as int) =~= ls);
    }
    let outcome = task.end_of_stream();
    (outcome, i)
}

/// Once a prefix of the stream announces, the whole stream announces the
/// same line and display.
proof fn lemma_take_preserves_first(lines: Seq<Seq<char>>, n: int)
    requires
        0 <= n <= lines.len(),
        first_announcement(lines.take(n)) is Some,
    ensures
        first_announcement(lines) == first_announcement(lines.take(n)),
{
    let p = lines.take(n);
    let kv = first_announcement(p).unwrap();
    lemma_first_some_bounds(p, 0);
    assert forall|j: int| 0 <= j < kv.0 implies line_announcement(
        #[trigger] lines[j],
    ) is None by {
        lemma_no_prior_announcement(p, 0, j);
        assert(lines[j] == p[j]);
    }
    assert(lines[kv.0] == p[kv.0]);
    lemma_announce_at_first(p, 0);
    lemma_discovery_fixed_by_first_match(lines, kv.0, kv.1);
}

/// A found announcement lies within the stream, at or after the scan start.
proof fn lemma_first_some_bounds(lines: Seq<Seq<char>>, i: int)
    requires
        0 <= i,
        first_announcement_from(lines, i) is Some,
    ensures
        i <= first_announcement_from(lines, i).unwrap().0 < lines.len(),
    decreases lines.len() - i,
{
    if i < lines.len() && line_announcement(lines[i]) is None {
        lemma_first_some_bounds(lines, i + 1);
    }
}

/// No line before a found announcement announces.
proof fn lemma_no_prior_announcement(lines: Seq<Seq<char>>, i: int, j: int)
    requires
        0 <= i <= j,
        first_announcement_from(lines, i) is Some,
        j < first_announcement_from(lines, i).unwrap().0,
    ensures
        line_announcement(lines[j]) is None,
    decreases j - i,
{
    lemma_first_some_bounds(lines, i);
    if i < j {
        lemma_no_prior_announcement(lines, i + 1, j);
    }
}

/// The found line itself announces the found display.
proof fn lemma_announce_at_first(lines: Seq<Seq<char>>, i: int)
    requires
        0 <= i,
        first_announcement_from(lines, i) is Some,
    ensures
        ({
            let kv = first_announcement_from(lines, i).unwrap();
            line_announcement(lines[kv.0]) == Some(kv.1)
        }),
    decreases lines.len() - i,
{
    lemma_first_some_bounds(lines, i);
    if line_announcement(lines[i]) is None {
        lemma_announce_at_first(lines, i + 1);
    }
}

} // verus!
