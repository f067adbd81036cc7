//! Hierarchical timing: paired begin/end marks collected during a frame
//! and folded into a tree of measures afterwards.
//!
//! A timeline is a flat list of marks; `complete` parses it into the
//! measure tree exactly when the marks nest properly — every prefix has
//! at least as many begins as ends, and the whole has equally many.

use vstd::prelude::*;

verus! {

/// One mark: the start of a named span, or the end of the innermost
/// open span.
#[derive(Debug)]
pub enum Marker {
    Begin(String),
    End,
}

impl Marker {
    /// Whether this mark opens a span.
    pub fn is_begin(&self) -> (r: bool)
        ensures
            r == (self is Begin),
    {
        match self {
            Marker::Begin(_) => true,
            _ => false,
        }
    }

    /// Whether this mark closes a span.
    pub fn is_end(&self) -> (r: bool)
        ensures
            r == (self is End),
    {
        match self {
            Marker::End => true,
            _ => false,
        }
    }
}

/// One recorded mark with its instant, in nanoseconds on the caller's
/// monotone clock.
pub struct Timestamp {
    pub stat: Marker,
    pub time: u64,
}

/// A timing span: its name, how long it took, and the spans nested
/// inside it.
#[derive(Debug)]
pub struct Measure {
    pub name: String,
    pub duration: u64,
    pub sub: Vec<Measure>,
}

/// A fully parsed timeline: one root measure spanning the whole.
#[derive(Debug)]
pub struct CompleteTimeline {
    pub total: Measure,
}

/// Begins minus ends among the marks in `[i, j)`.
pub open spec fn seg_excess(s: Seq<Timestamp>, i: int, j: int) -> int
    decreases j - i,
{
    if j <= i {
        0
    } else {
        seg_excess(s, i, j - 1) + (if s[j - 1].stat is Begin {
            1int
        } else {
            -1int
        })
    }
}

/// Position `j` is where a forest parse started at `i` stops: the marks
/// in between balance out, and what follows is an end mark or nothing.
pub open spec fn spec_stop_at(s: Seq<Timestamp>, i: int, j: int) -> bool {
    seg_excess(s, i, j) == 0 && (j == s.len() || s[j].stat is End)
}

/// The whole timeline nests properly: no prefix closes more spans than
/// it opened, and everything opened is closed.
pub open spec fn spec_balanced(s: Seq<Timestamp>) -> bool {
    (forall|n: int| 0 <= n <= s.len() ==> seg_excess(s, 0, n) >= 0) && seg_excess(
        s,
        0,
        s.len() as int,
    ) == 0
}

/// Mark times never decrease.
pub open spec fn spec_times_sorted(s: Seq<Timestamp>) -> bool {
    forall|i: int, j: int| 0 <= i <= j < s.len() ==> s[i].time <= s[j].time
}

/// The measure list describes the mark segment: a partition into
/// consecutive spans, one per measure, in order. Each span opens with a
/// begin mark carrying the measure's name, closes with an end mark,
/// lasted from the one to the other, and the measure's children
/// describe what lies between.
pub open spec fn spec_forest_matches(f: Seq<Measure>, s: Seq<Timestamp>) -> bool
    decreases f, f.len(),
{
    if f.len() == 0 {
        s.len() == 0
    } else {
        exists|k: int|
            #![trigger s.skip(k)]
            2 <= k <= s.len() && (s[0].stat matches Marker::Begin(n) && n@ == f[0].name@) && s[k
                - 1].stat is End && f[0].duration == s[k - 1].time - s[0].time
                && spec_forest_matches(f[0].sub@, s.subrange(1, k - 1)) && spec_forest_matches(
                f.skip(1),
                s.skip(k),
            )
    }
}

/// The measure describes exactly the mark segment `s`: it opens with a
/// begin mark carrying its name, closes with an end mark, lasted from
/// the one to the other, and its children describe what lies between.
pub open spec fn spec_measure_matches(m: Measure, s: Seq<Timestamp>) -> bool {
    &&& s.len() >= 2
    &&& (s[0].stat matches Marker::Begin(n) && n@ == m.name@)
    &&& s.last().stat is End
    &&& m.duration == s.last().time - s[0].time
    &&& spec_forest_matches(m.sub@, s.subrange(1, s.len() - 1))
}

/// Excess over a segment splits at any midpoint.
proof fn lemma_excess_split(s: Seq<Timestamp>, i: int, m: int, j: int)
    requires
        i <= m <= j,
    ensures
        seg_excess(s, i, j) == seg_excess(s, i, m) + seg_excess(s, m, j),
    decreases j - m,
{
    if j > m {
        lemma_excess_split(s, i, m, j - 1);
    }
}

/// One mark's own excess contribution.
proof fn lemma_excess_unit(s: Seq<Timestamp>, k: int)
    ensures
        seg_excess(s, k, k + 1) == (if s[k].stat is Begin {
            1int
        } else {
            -1int
        }),
{
    assert(seg_excess(s, k, k) == 0);
}

/// A segment whose excess goes negative passes through a stop: some
/// earlier point balances out right before an end mark.
proof fn lemma_negative_excess_has_stop(s: Seq<Timestamp>, i: int, j: int)
    requires
        i <= j <= s.len(),
        seg_excess(s, i, j) < 0,
    ensures
        exists|m: int|
            i <= m < j && seg_excess(s, i, m) == 0 && (#[trigger] s[m].stat) is End,
    decreases j - i,
{
    if seg_excess(s, i, j - 1) < 0 {
        lemma_negative_excess_has_stop(s, i, j - 1);
    } else {
        assert(seg_excess(s, i, j - 1) == 0 && s[j - 1].stat is End);
    }
}

/// A measure followed by a matching rest makes a matching forest.
proof fn lemma_forest_cons(f: Seq<Measure>, s: Seq<Timestamp>, k: int)
    requires
        f.len() >= 1,
        2 <= k <= s.len(),
        spec_measure_matches(f[0], s.take(k)),
        spec_forest_matches(f.skip(1), s.skip(k)),
    ensures
        spec_forest_matches(f, s),
{
    let head = s.take(k);
    assert(head[0] == s[0]);
    assert(head.last() == s[k - 1]);
    assert(head.subrange(1, k - 1) =~= s.subrange(1, k - 1));
    assert(spec_forest_matches(f[0].sub@, s.subrange(1, k - 1)));
}

/// Below a never-closed begin mark no stop exists: if nothing stops a
/// parse of the marks after the begin before the very end, nothing stops
/// a parse from the begin at all.
proof fn lemma_unclosed_no_stop(s: Seq<Timestamp>, i: int)
    requires
        0 <= i < s.len(),
        s[i].stat is Begin,
        forall|n: int| i + 1 <= n < s.len() ==> !(#[trigger] spec_stop_at(s, i + 1, n)),
    ensures
        forall|n: int| i <= n <= s.len() ==> !(#[trigger] spec_stop_at(s, i, n)),
{
    lemma_excess_unit(s, i);
    assert forall|n: int| i <= n <= s.len() implies !spec_stop_at(s, i, n) by {
        if spec_stop_at(s, i, n) {
            assert(n > i);
            lemma_excess_split(s, i, i + 1, n);
            assert(seg_excess(s, i + 1, n) == -1);
            lemma_negative_excess_has_stop(s, i + 1, n);
            let m = choose|m: int|
                i + 1 <= m < n && seg_excess(s, i + 1, m) == 0 && (#[trigger] s[m].stat) is End;
            assert(spec_stop_at(s, i + 1, m));
        }
    }
}

/// A parsed span and the parsed rest combine: the whole stops exactly
/// where the rest stops, and nowhere earlier.
proof fn lemma_span_stops(s: Seq<Timestamp>, i: int, j: int, j2: int)
    requires
        0 <= i < s.len(),
        s[i].stat is Begin,
        i + 1 <= j < s.len(),
        s[j].stat is End,
        spec_stop_at(s, i + 1, j),
        forall|n: int| i + 1 <= n < j ==> !(#[trigger] spec_stop_at(s, i + 1, n)),
        j + 1 <= j2 <= s.len(),
        spec_stop_at(s, j + 1, j2),
        forall|n: int| j + 1 <= n < j2 ==> !(#[trigger] spec_stop_at(s, j + 1, n)),
    ensures
        spec_stop_at(s, i, j2),
        forall|n: int| i <= n < j2 ==> !(#[trigger] spec_stop_at(s, i, n)),
{
    lemma_excess_unit(s, i);
    lemma_excess_unit(s, j);
    lemma_excess_split(s, i, i + 1, j + 1);
    lemma_excess_split(s, i + 1, j, j + 1);
    lemma_excess_split(s, i, j + 1, j2);
    assert(seg_excess(s, i, j + 1) == 0);
    assert(spec_stop_at(s, i, j2));
    assert forall|n: int| i <= n < j2 implies !spec_stop_at(s, i, n) by {
        if spec_stop_at(s, i, n) {
            assert(n > i);
            if n <= j {
                lemma_excess_split(s, i, i + 1, n);
                assert(seg_excess(s, i + 1, n) == -1);
                lemma_negative_excess_has_stop(s, i + 1, n);
                let m = choose|m: int|
                    i + 1 <= m < n && seg_excess(s, i + 1, m) == 0 && (#[trigger] s[m].stat) is End;
                assert(spec_stop_at(s, i + 1, m));
                assert(m < j);
            } else {
                lemma_excess_split(s, i, j + 1, n);
                assert(seg_excess(s, j + 1, n) == 0);
                assert(spec_stop_at(s, j + 1, n));
            }
        }
    }
}

/// How many measures a list holds, nested ones included.
pub open spec fn spec_forest_count(f: Seq<Measure>) -> int
    decreases f, f.len(),
{
    if f.len() == 0 {
        0
    } else {
        spec_forest_count(f.drop_last()) + 1 + spec_forest_count(f.last().sub@)
    }
}

/// How many measures a tree holds, itself included.
pub open spec fn spec_measure_count(m: Measure) -> int {
    1 + spec_forest_count(m.sub@)
}

/// Relies on `str::repeat`: the tree-drawing indent of a report line,
/// one seven-character column per nesting level. The bound keeps the
/// repeated length within `usize`, where `repeat` would panic.
#[verifier::external_body]
fn indent_for(depth: usize) -> (r: String)
    requires
        depth <= usize::MAX / 7,
    ensures
        r@.len() == 7 * depth,
{
    "|      ".repeat(depth)
}

/// Relies on the `format` macro: renders one report line from the
/// already-computed indent, percentage (whole part and hundredths),
/// duration and name.
#[verifier::external_body]
fn render_line(indent: &String, pct_whole: u64, pct_frac: u64, nanos: u64, name: &String) -> (r:
    String) {
    format!("{}{}.{:02}%: {}ns - {}", indent, pct_whole, pct_frac, nanos, name)
}

impl CompleteTimeline {
    /// Renders the report: one line per measure, parents before their
    /// children, each line carrying the measure's share of its parent.
    pub fn print(&self) -> (lines: Vec<String>)
        ensures
            lines@.len() == spec_measure_count(self.total),
    {
        Self::print_measure(&self.total, 0, self.total.duration)
    }

    /// Renders one measure and, below it, its children.
    fn print_measure(measure: &Measure, depth: usize, parent_duration: u64) -> (lines: Vec<String>)
        requires
            depth <= usize::MAX / 7,
        ensures
            lines@.len() == spec_measure_count(*measure),
        decreases *measure,
    {
        let pct_bp: u64 = if parent_duration == 0 {
            0
        } else {
            let wide: u128 = (measure.duration as u128) * 10000 / (parent_duration as u128);
            if wide > u64::MAX as u128 {
                u64::MAX
            } else {
                wide as u64
            }
        };
        let indent = indent_for(depth);
        let mut lines: Vec<String> = Vec::new();
        lines.push(
            render_line(&indent, pct_bp / 100, pct_bp % 100, measure.duration, &measure.name),
        );
        let n = measure.sub.len();
        let mut i: usize = 0;
        while i < n
            invariant
                i <= n,
                n == measure.sub@.len(),
                depth <= usize::MAX / 7,
                lines@.len() == 1 + spec_forest_count(measure.sub@.take(i as int)),
            decreases n - i,
        {
            proof {
                lemma_forest_count_take(measure.sub@, i as int);
                lemma_forest_count_nonneg(measure.sub@[i as int].sub@);
            }
            let next_depth: usize = if depth < usize::MAX / 7 {
                depth + 1
            } else {
                depth
            };
            let mut sub_lines = Self::print_measure(&measure.sub[i], next_depth, measure.duration);
            lines.append(&mut sub_lines);
            proof {
                assert(measure.sub@.take(i + 1).drop_last() =~= measure.sub@.take(i as int));
                assert(measure.sub@.take(i + 1).last() == measure.sub@[i as int]);
            }
            i = i + 1;
        }
        proof {
            assert(measure.sub@.take(n as int) =~= measure.sub@);
        }
        lines
    }
}

/// A measure count is never negative.
proof fn lemma_forest_count_nonneg(f: Seq<Measure>)
    ensures
        spec_forest_count(f) >= 0,
    decreases f, f.len(),
{
    if f.len() > 0 {
        lemma_forest_count_nonneg(f.drop_last());
        lemma_forest_count_nonneg(f.last().sub@);
    }
}

/// Extending a prefix by one measure adds that measure's count.
proof fn lemma_forest_count_take(f: Seq<Measure>, i: int)
    requires
        0 <= i < f.len(),
    ensures
        spec_forest_count(f.take(i + 1)) == spec_forest_count(f.take(i)) + 1 + spec_forest_count(
            f[i].sub@,
        ),
{
    assert(f.take(i + 1).drop_last() =~= f.take(i));
    assert(f.take(i + 1).last() == f[i]);
}

/// A timeline of marks being collected.
pub struct ActiveTimeline {
    stamps: Vec<Timestamp>,
}

impl ActiveTimeline {
    /// The recorded marks, in order.
    pub closed spec fn spec_stamps(&self) -> Seq<Timestamp> {
        self.stamps@
    }

    /// Mark times never decrease.
    pub open spec fn wf(&self) -> bool {
        spec_times_sorted(self.spec_stamps())
    }

    /// An empty timeline.
    pub fn new() -> (t: ActiveTimeline)
        ensures
            t.wf(),
            t.spec_stamps() == Seq::<Timestamp>::empty(),
    {
        Self::with_capacity(20)
    }

    /// An empty timeline with room reserved for `capacity` marks.
    pub fn with_capacity(capacity: usize) -> (t: ActiveTimeline)
        ensures
            t.wf(),
            t.spec_stamps() == Seq::<Timestamp>::empty(),
    {
        let t = ActiveTimeline { stamps: Vec::with_capacity(capacity) };
        proof {
            assert(t.stamps@ =~= Seq::<Timestamp>::empty());
        }
        t
    }

    /// Opens a named span at instant `now`.
    pub fn begin(&mut self, name: &str, now: u64)
        requires
            old(self).wf(),
            old(self).spec_stamps().len() > 0 ==> now >= old(self).spec_stamps().last().time,
        ensures
            final(self).wf(),
            final(self).spec_stamps().len() == old(self).spec_stamps().len() + 1,
            forall|i: int|
                0 <= i < old(self).spec_stamps().len() ==> final(self).spec_stamps()[i] == old(
                    self,
                ).spec_stamps()[i],
            final(self).spec_stamps().last().stat matches Marker::Begin(n) && n@ == name@,
            final(self).spec_stamps().last().time == now,
    {
        self.stamps.push(Timestamp { stat: Marker::Begin(name.to_owned()), time: now });
    }

    /// Closes the innermost open span at instant `now`.
    pub fn end(&mut self, now: u64)
        requires
            old(self).wf(),
            old(self).spec_stamps().len() > 0 ==> now >= old(self).spec_stamps().last().time,
        ensures
            final(self).wf(),
            final(self).spec_stamps().len() == old(self).spec_stamps().len() + 1,
            forall|i: int|
                0 <= i < old(self).spec_stamps().len() ==> final(self).spec_stamps()[i] == old(
                    self,
                ).spec_stamps()[i],
            final(self).spec_stamps().last().stat is End,
            final(self).spec_stamps().last().time == now,
    {
        self.stamps.push(Timestamp { stat: Marker::End, time: now });
    }

    /// Folds the marks into the measure tree. Succeeds exactly when the
    /// marks nest properly; the root spans the first to the last mark
    /// and its children describe the whole timeline.
    pub fn complete(self) -> (r: Result<CompleteTimeline, &'static str>)
        requires
            self.wf(),
            self.spec_stamps().len() > 0,
        ensures
            r is Ok <==> spec_balanced(self.spec_stamps()),
            r matches Ok(t) ==> t.total.name@ == "Total"@ && t.total.duration == self.spec_stamps().last().time
                - self.spec_stamps()[0].time && spec_forest_matches(
                t.total.sub@,
                self.spec_stamps(),
            ),
    {
        let ghost s = self.stamps@;
        let begin = self.stamps[0].time;
        let last = self.stamps.len() - 1;
        let end = self.stamps[last].time;
        proof {
            assert(s.subrange(0, s.len() as int) =~= s);
        }
        match Self::parse_forest(&self.stamps, 0) {
            Some((j, sub)) => {
                if j != self.stamps.len() {
                    proof {
                        // The parse stopped at a surplus end mark: the
                        // prefix before it balances, so the next mark
                        // drives the excess negative.
                        assert(seg_excess(s, 0, j + 1) == -1) by {
                            lemma_excess_split(s, 0, j as int, j + 1);
                            lemma_excess_unit(s, j as int);
                        }
                        assert(!spec_balanced(s));
                    }
                    Err("Invalid Timeline")
                } else {
                    proof {
                        assert(seg_excess(s, 0, s.len() as int) == 0);
                        assert forall|n: int| 0 <= n <= s.len() implies seg_excess(s, 0, n)
                            >= 0 by {
                            if seg_excess(s, 0, n) < 0 {
                                lemma_negative_excess_has_stop(s, 0, n);
                                let m = choose|m: int|
                                    0 <= m < n && seg_excess(s, 0, m) == 0 && (
                                    #[trigger] s[m].stat) is End;
                                assert(spec_stop_at(s, 0, m));
                            }
                        }
                        assert(spec_balanced(s));
                    }
                    let mut total = Measure {
                        name: "Total".to_owned(),
                        duration: end - begin,
                        sub,
                    };
                    Ok(CompleteTimeline { total })
                }
            },
            Option::None => {
                proof {
                    if spec_balanced(s) {
                        assert(spec_stop_at(s, 0, s.len() as int));
                    }
                }
                Err("Invalid Timeline")
            },
        }
    }

    /// Parses the longest well-nested run of spans from position `i`:
    /// hands back where it stopped — just before an end mark or at the
    /// very end — and the measures for what it consumed, or nothing when
    /// an opened span is never closed.
    fn parse_forest(stamps: &Vec<Timestamp>, i: usize) -> (r: Option<(usize, Vec<Measure>)>)
        requires
            spec_times_sorted(stamps@),
            i <= stamps@.len(),
        ensures
            r matches Some(p) ==> i <= p.0 <= stamps@.len(),
            r matches Some(p) ==> spec_stop_at(stamps@, i as int, p.0 as int),
            r matches Some(p) ==> forall|n: int| i <= n < p.0 ==> !spec_stop_at(stamps@, i as int, n),
            r matches Some(p) ==> spec_forest_matches(p.1@, stamps@.subrange(i as int, p.0 as int)),
            r is None ==> forall|n: int|
                i <= n <= stamps@.len() ==> !spec_stop_at(stamps@, i as int, n),
        decreases stamps@.len() - i,
    {
        let ghost s = stamps@;
        let len = stamps.len();
        if i == len {
            let f: Vec<Measure> = Vec::new();
            proof {
                assert(f@ =~= Seq::<Measure>::empty());
                assert(s.subrange(i as int, i as int) =~= Seq::<Timestamp>::empty());
            }
            return Some((i, f));
        }
        let opens = match &stamps[i].stat {
            Marker::Begin(_) => true,
            Marker::End => false,
        };
        if !opens {
            let f: Vec<Measure> = Vec::new();
            proof {
                assert(f@ =~= Seq::<Measure>::empty());
                assert(s.subrange(i as int, i as int) =~= Seq::<Timestamp>::empty());
            }
            return Some((i, f));
        }
        // An open mark: parse its children, expect the closing mark,
        // then parse the spans that follow.
        let child = Self::parse_forest(stamps, i + 1);
        match child {
            Option::None => {
                proof {
                    lemma_unclosed_no_stop(s, i as int);
                }
                Option::None
            },
            Some((j, kids)) => {
                if j == len {
                    // The children never closed: an unmatched begin.
                    proof {
                        lemma_unclosed_no_stop(s, i as int);
                    }
                    return Option::None;
                }
                // The mark at j closes this span.
                let name = match &stamps[i].stat {
                    Marker::Begin(n) => n.clone(),
                    Marker::End => {
                        proof {
                            assert(false);
                        }
                        String::new()
                    },
                };
                let begin_time = stamps[i].time;
                let end_time = stamps[j].time;
                let mut measure = Measure { name, duration: end_time - begin_time, sub: kids };
                let rest = Self::parse_forest(stamps, j + 1);
                match rest {
                    Option::None => {
                        proof {
                            // No stop exists anywhere past this span's
                            // end, so none exists for the whole either:
                            // treat the rest as an unclosed suffix.
                            lemma_excess_unit(s, i as int);
                            lemma_excess_unit(s, j as int);
                            lemma_excess_split(s, i as int, i + 1, j + 1);
                            lemma_excess_split(s, i + 1, j as int, j + 1);
                            assert forall|n: int| i <= n <= s.len() implies !spec_stop_at(
                                s,
                                i as int,
                                n,
                            ) by {
                                if spec_stop_at(s, i as int, n) {
                                    assert(n > i);
                                    if n <= j {
                                        lemma_excess_split(s, i as int, i + 1, n);
                                        assert(seg_excess(s, i + 1, n) == -1);
                                        lemma_negative_excess_has_stop(s, i + 1, n);
                                        let m = choose|m: int|
                                            i + 1 <= m < n && seg_excess(s, i + 1, m) == 0 && (
                                            #[trigger] s[m].stat) is End;
                                        assert(spec_stop_at(s, i + 1, m));
                                        assert(m < j);
                                    } else {
                                        lemma_excess_split(s, i as int, j + 1, n);
                                        assert(seg_excess(s, j + 1, n) == 0);
                                        assert(spec_stop_at(s, j + 1, n));
                                    }
                                }
                            }
                        }
                        Option::None
                    },
                    Some((j2, rest_forest)) => {
                        let ghost m_snapshot = measure;
                        let ghost rf = rest_forest@;
                        let mut f: Vec<Measure> = Vec::new();
                        f.push(measure);
                        let mut rest_forest = rest_forest;
                        f.append(&mut rest_forest);
                        proof {
                            let seg = s.subrange(i as int, j2 as int);
                            let k = j + 1 - i as int;
                            assert(f@ =~= seq![m_snapshot] + rf);
                            // The head measure covers [i, j] and the
                            // rest covers what follows.
                            assert(seg.take(k) =~= s.subrange(i as int, j + 1));
                            assert(seg.skip(k) =~= s.subrange(j + 1, j2 as int));
                            assert(s.subrange(i as int, j + 1).subrange(
                                1,
                                s.subrange(i as int, j + 1).len() - 1,
                            ) =~= s.subrange(i + 1, j as int));
                            assert(spec_measure_matches(f@[0], seg.take(k)));
                            assert(f@.skip(1) =~= rf);
                            assert(spec_forest_matches(f@.skip(1), seg.skip(k)));
                            lemma_forest_cons(f@, seg, k);
                            lemma_span_stops(s, i as int, j as int, j2 as int);
                        }
                        Some((j2, f))
                    },
                }
            },
        }
    }
}

} // verus!
