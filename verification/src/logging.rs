//! Sorting regor's diagnostics into log records.
//!
//! regor writes its diagnostics through a single, process-global writer
//! function, in chunks that do not align with line boundaries, and with no
//! severity alongside the text. This module holds what is decided about that
//! stream: how chunks become whole lines ([`LineBuffer`]), which severity a
//! line is given ([`classify`]), the filter and format handed to regor, and
//! whether a request to install the writer goes through ([`InstallState`]).

use vstd::prelude::*;
use crate::sys::regor_logging_format_t;
use crate::text::{chars_of, decode_utf8_lossy, trim_end, trim_start, utf8_lossy, white_space};

verus! {

/// Logging output format.
#[derive(Debug, Clone, Copy, PartialEq, Eq, Hash, Structural)]
pub enum LogFormat {
    /// Plain text (no ANSI escapes).
    Text,
    /// Terminal-friendly with ANSI colour codes.
    ///
    /// Rarely what you want when forwarding to a logging facade: the escape
    /// sequences end up embedded in the record's message and will be written
    /// verbatim into log files.
    Terminal,
}

impl Default for LogFormat {
    fn default() -> (f: LogFormat)
        ensures
            f == LogFormat::Text,
    {
        LogFormat::Text
    }
}

impl LogFormat {
    /// The number regor's C interface takes for this format.
    pub fn to_raw(self) -> (v: u32)
        ensures
            v == match self {
                LogFormat::Text => 0u32,
                LogFormat::Terminal => 1u32,
            },
    {
        match self {
            LogFormat::Text => regor_logging_format_t::REGOR_LOG_FORMAT_TEXT.value(),
            LogFormat::Terminal => regor_logging_format_t::REGOR_LOG_FORMAT_TERMINAL.value(),
        }
    }
}

/// Bitmask selecting which log categories regor emits.
///
/// The bit assignments are defined by the regor C library. Combine filters
/// with `|`; pass `LogFilter::all()` to see everything.
#[derive(Debug, Clone, Copy, PartialEq, Eq, Hash)]
pub struct LogFilter {
    bits: u32,
}

impl View for LogFilter {
    type V = u32;

    closed spec fn view(&self) -> u32 {
        self.bits
    }
}

impl LogFilter {
    /// Errors.
    pub fn error() -> (f: LogFilter)
        ensures
            f@ == 1,
    {
        LogFilter { bits: 1 }
    }

    /// Warnings.
    pub fn warning() -> (f: LogFilter)
        ensures
            f@ == 2,
    {
        LogFilter { bits: 2 }
    }

    /// Information.
    pub fn info() -> (f: LogFilter)
        ensures
            f@ == 4,
    {
        LogFilter { bits: 4 }
    }

    /// Debug output.
    pub fn debug() -> (f: LogFilter)
        ensures
            f@ == 8,
    {
        LogFilter { bits: 8 }
    }

    /// No category: regor emits nothing.
    pub fn empty() -> (f: LogFilter)
        ensures
            f@ == 0,
    {
        LogFilter { bits: 0 }
    }

    /// Every category.
    pub fn all() -> (f: LogFilter)
        ensures
            f@ == 15,
    {
        LogFilter { bits: 15 }
    }

    /// The mask handed to regor.
    pub fn bits(&self) -> (b: u32)
        ensures
            b == self@,
    {
        self.bits
    }

    /// Whether no category is selected.
    pub fn is_empty(&self) -> (b: bool)
        ensures
            b == (self@ == 0),
    {
        self.bits == 0
    }

    /// Whether every category of `other` is selected.
    pub fn contains(&self, other: LogFilter) -> (b: bool)
        ensures
            b == (self@ & other@ == other@),
    {
        self.bits & other.bits == other.bits
    }

    /// The categories of both filters.
    pub fn union(self, other: LogFilter) -> (f: LogFilter)
        ensures
            f@ == self@ | other@,
    {
        LogFilter { bits: self.bits | other.bits }
    }
}

impl core::ops::BitOr for LogFilter {
    type Output = LogFilter;

    fn bitor(self, other: LogFilter) -> (f: LogFilter)
        ensures
            f@ == self@ | other@,
    {
        LogFilter { bits: self.bits | other.bits }
    }
}

impl vstd::std_specs::ops::BitOrSpecImpl for LogFilter {
    open spec fn obeys_bitor_spec() -> bool {
        true
    }

    open spec fn bitor_req(self, other: LogFilter) -> bool {
        true
    }

    closed spec fn bitor_spec(self, other: LogFilter) -> LogFilter {
        LogFilter { bits: self.bits | other.bits }
    }
}

impl Default for LogFilter {
    fn default() -> (f: LogFilter)
        ensures
            f@ == 0,
    {
        LogFilter { bits: 0 }
    }
}

/// The bit of each log category, in declaration order.
pub open spec fn filter_bit(i: int) -> u32 {
    if i == 0 {
        1
    } else if i == 1 {
        2
    } else if i == 2 {
        4
    } else {
        8
    }
}

/// The bits of the named flags that `bits` holds, in declaration order.
pub open spec fn filter_bits(bits: u32, n: int) -> Seq<u32>
    decreases n,
{
    if n <= 0 {
        Seq::empty()
    } else if bits & filter_bit(n - 1) == filter_bit(n - 1) {
        filter_bits(bits, n - 1).push(filter_bit(n - 1))
    } else {
        filter_bits(bits, n - 1)
    }
}

impl LogFilter {
    /// The set with exactly `bits`, or `None` where `bits` holds a bit that
    /// names no flag.
    pub fn from_bits(bits: u32) -> (r: Option<LogFilter>)
        ensures
            r matches Some(f) ==> f@ == bits,
            r is Some <==> bits & 0xFFFF_FFF0u32 == 0,
    {
        if bits & 0xFFFF_FFF0u32 == 0 {
            Some(LogFilter { bits })
        } else {
            None
        }
    }

    /// The set with the bits of `bits` that name flags, the others dropped.
    pub fn from_bits_truncate(bits: u32) -> (f: LogFilter)
        ensures
            f@ == bits & 0xFu32,
    {
        LogFilter { bits: bits & 0xFu32 }
    }

    /// Whether the two sets share a flag.
    pub fn intersects(&self, other: LogFilter) -> (b: bool)
        ensures
            b == (self@ & other@ != 0),
    {
        self.bits & other.bits != 0
    }

    /// The flags in both sets.
    pub fn intersection(self, other: LogFilter) -> (f: LogFilter)
        ensures
            f@ == self@ & other@,
    {
        LogFilter { bits: self.bits & other.bits }
    }

    /// The flags of this set that `other` does not hold.
    pub fn difference(self, other: LogFilter) -> (f: LogFilter)
        ensures
            f@ == self@ & !other@,
    {
        LogFilter { bits: self.bits & !other.bits }
    }

    /// The named flags this set does not hold.
    pub fn complement(self) -> (f: LogFilter)
        ensures
            f@ == !self@ & 0xFu32,
    {
        LogFilter { bits: !self.bits & 0xFu32 }
    }

    /// Add the flags of `other`.
    pub fn insert(&mut self, other: LogFilter)
        ensures
            final(self)@ == old(self)@ | other@,
    {
        self.bits = self.bits | other.bits;
    }

    /// Take out the flags of `other`.
    pub fn remove(&mut self, other: LogFilter)
        ensures
            final(self)@ == old(self)@ & !other@,
    {
        self.bits = self.bits & !other.bits;
    }

    /// Flip the flags of `other`.
    pub fn toggle(&mut self, other: LogFilter)
        ensures
            final(self)@ == old(self)@ ^ other@,
    {
        self.bits = self.bits ^ other.bits;
    }

    /// The flags of the set one by one, in declaration order, followed by
    /// the bits that name no flag, together, where there are any.
    pub fn iter(&self) -> (v: Vec<LogFilter>)
        ensures
            v@.map_values(|f: LogFilter| f@) == filter_bits(self@, 4) + if self@ & 0xFFFF_FFF0u32 != 0 {
                seq![self@ & 0xFFFF_FFF0u32]
            } else {
                Seq::<u32>::empty()
            },
    {
        let mut v: Vec<LogFilter> = Vec::new();
        if self.contains(Self::error()) {
            v.push(Self::error());
        }
        if self.contains(Self::warning()) {
            v.push(Self::warning());
        }
        if self.contains(Self::info()) {
            v.push(Self::info());
        }
        if self.contains(Self::debug()) {
            v.push(Self::debug());
        }
        let rest = self.bits & 0xFFFF_FFF0u32;
        if rest != 0 {
            v.push(LogFilter { bits: rest });
        }
        proof {
            reveal_with_fuel(filter_bits, 5);
        }
        assert(v@.map_values(|f: LogFilter| f@) =~= filter_bits(self@, 4) + if self@ & 0xFFFF_FFF0u32 != 0 {
            seq![self@ & 0xFFFF_FFF0u32]
        } else {
            Seq::<u32>::empty()
        });
        v
    }
}

impl core::ops::BitAnd for LogFilter {
    type Output = LogFilter;

    fn bitand(self, other: LogFilter) -> (f: LogFilter)
        ensures
            f@ == self@ & other@,
    {
        LogFilter { bits: self.bits & other.bits }
    }
}

impl vstd::std_specs::ops::BitAndSpecImpl for LogFilter {
    open spec fn obeys_bitand_spec() -> bool {
        true
    }

    open spec fn bitand_req(self, other: LogFilter) -> bool {
        true
    }

    closed spec fn bitand_spec(self, other: LogFilter) -> LogFilter {
        LogFilter { bits: self.bits & other.bits }
    }
}

impl core::ops::Sub for LogFilter {
    type Output = LogFilter;

    fn sub(self, other: LogFilter) -> (f: LogFilter)
        ensures
            f@ == self@ & !other@,
    {
        LogFilter { bits: self.bits & !other.bits }
    }
}

impl vstd::std_specs::ops::SubSpecImpl for LogFilter {
    open spec fn obeys_sub_spec() -> bool {
        true
    }

    open spec fn sub_req(self, other: LogFilter) -> bool {
        true
    }

    closed spec fn sub_spec(self, other: LogFilter) -> LogFilter {
        LogFilter { bits: self.bits & !other.bits }
    }
}

impl core::ops::Not for LogFilter {
    type Output = LogFilter;

    fn not(self) -> (f: LogFilter)
        ensures
            f@ == !self@ & 0xFu32,
    {
        LogFilter { bits: !self.bits & 0xFu32 }
    }
}

impl vstd::std_specs::ops::NotSpecImpl for LogFilter {
    open spec fn obeys_not_spec() -> bool {
        true
    }

    open spec fn not_req(self) -> bool {
        true
    }

    closed spec fn not_spec(self) -> LogFilter {
        LogFilter { bits: !self.bits & 0xFu32 }
    }
}

/// Severity assigned to a forwarded line.
#[derive(Debug, Clone, Copy, PartialEq, Eq, Structural)]
pub enum Level {
    Error,
    Warning,
    Info,
    Debug,
}

/// `s` without the `[` and `(` at its start.
pub open spec fn trim_open_brackets(s: Seq<char>) -> Seq<char>
    decreases s.len(),
{
    if s.len() > 0 && (s[0] == '[' || s[0] == '(') {
        trim_open_brackets(s.drop_first())
    } else {
        s
    }
}

/// A character with ASCII upper case letters lowered.
pub open spec fn ascii_lower(c: char) -> char {
    if 'A' <= c <= 'Z' {
        ((c as u8) + 32) as char
    } else {
        c
    }
}

/// Whether `s` starts with `p`.
pub open spec fn starts_with(s: Seq<char>, p: Seq<char>) -> bool {
    p.len() <= s.len() && s.take(p.len() as int) == p
}

/// The head of a line that its severity is read from: the line without
/// leading white space and opening brackets, with ASCII letters lowered.
pub open spec fn line_head(line: Seq<char>) -> Seq<char> {
    trim_open_brackets(trim_start(line)).map_values(|c: char| ascii_lower(c))
}

/// The severity of a line, read from its prefix: `error` and `fatal` are
/// errors, `warn` a warning, `debug` and `trace` debug output, in any case
/// and after white space and opening brackets; any other line is
/// information.
pub open spec fn severity(line: Seq<char>) -> Level {
    let head = line_head(line);
    if starts_with(head, "error"@) || starts_with(head, "fatal"@) {
        Level::Error
    } else if starts_with(head, "warn"@) {
        Level::Warning
    } else if starts_with(head, "debug"@) || starts_with(head, "trace"@) {
        Level::Debug
    } else {
        Level::Info
    }
}

/// Whether `s` starts with the characters of `p`.
fn has_prefix(s: &Vec<char>, p: &str) -> (b: bool)
    ensures
        b == starts_with(s@, p@),
{
    let q = chars_of(p);
    if q.len() > s.len() {
        return false;
    }
    let mut i: usize = 0;
    while i < q.len()
        invariant
            q@ == p@,
            q.len() <= s.len(),
            0 <= i <= q.len(),
            forall|j: int| 0 <= j < i ==> s@[j] == q@[j],
        decreases q.len() - i,
    {
        if s[i] != q[i] {
            assert(s@.take(q@.len() as int)[i as int] != q@[i as int]);
            return false;
        }
        i += 1;
    }
    assert(s@.take(q@.len() as int) =~= q@);
    true
}

/// The head of `line` that its severity is read from.
fn head_of(line: &str) -> (h: Vec<char>)
    ensures
        h@ == line_head(line@),
{
    let chars = chars_of(line);
    let mut start: usize = 0;
    assert(chars@.skip(0) =~= chars@);
    while start < chars.len() && white_space(chars[start])
        invariant
            chars@ == line@,
            0 <= start <= chars.len(),
            trim_start(chars@.skip(start as int)) == trim_start(line@),
        decreases chars.len() - start,
    {
        assert(chars@.skip(start as int).drop_first() =~= chars@.skip(start + 1));
        start += 1;
    }
    assert(trim_start(chars@.skip(start as int)) == chars@.skip(start as int));
    while start < chars.len() && (chars[start] == '[' || chars[start] == '(')
        invariant
            chars@ == line@,
            0 <= start <= chars.len(),
            trim_open_brackets(chars@.skip(start as int)) == trim_open_brackets(trim_start(line@)),
        decreases chars.len() - start,
    {
        assert(chars@.skip(start as int).drop_first() =~= chars@.skip(start + 1));
        start += 1;
    }
    let ghost rest = chars@.skip(start as int);
    assert(trim_open_brackets(rest) == rest);
    let mut head: Vec<char> = Vec::new();
    let mut i: usize = start;
    while i < chars.len()
        invariant
            chars@ == line@,
            start <= i <= chars.len(),
            rest == chars@.skip(start as int),
            head@ == chars@.subrange(start as int, i as int).map_values(|c: char| ascii_lower(c)),
        decreases chars.len() - i,
    {
        let c = chars[i];
        let lowered = if 'A' <= c && c <= 'Z' {
            ((c as u8) + 32) as char
        } else {
            c
        };
        head.push(lowered);
        assert(chars@.subrange(start as int, i + 1).map_values(|c: char| ascii_lower(c))
            =~= chars@.subrange(start as int, i as int).map_values(|c: char| ascii_lower(c)).push(
            ascii_lower(c),
        ));
        i += 1;
    }
    assert(chars@.subrange(start as int, chars@.len() as int) =~= rest);
    head
}

/// Guess a severity for a line.
///
/// regor's writer receives already-formatted text and no severity alongside
/// it; the filter mask controls what is produced, not what each chunk was.
/// The prefix is the only signal available, so lines that do not announce
/// themselves are reported at info.
pub fn classify(line: &str) -> (l: Level)
    ensures
        l == severity(line@),
{
    let head = head_of(line);
    if has_prefix(&head, "error") || has_prefix(&head, "fatal") {
        Level::Error
    } else if has_prefix(&head, "warn") {
        Level::Warning
    } else if has_prefix(&head, "debug") || has_prefix(&head, "trace") {
        Level::Debug
    } else {
        Level::Info
    }
}

/// Feeding `text` to a line buffer holding `buffer`: the lines that a
/// newline completes, in order, and what is left waiting for one.
pub open spec fn feed(buffer: Seq<char>, text: Seq<char>) -> (Seq<Seq<char>>, Seq<char>)
    decreases text.len(),
{
    if text.len() == 0 {
        (Seq::empty(), buffer)
    } else {
        let (lines, rest) = feed(buffer, text.drop_last());
        if text.last() == '\n' {
            (lines.push(rest), Seq::empty())
        } else {
            (lines, rest.push(text.last()))
        }
    }
}

/// The records forwarded for completed lines: each line without its
/// trailing white space, with its severity, skipping the lines that are
/// left empty.
pub open spec fn records(lines: Seq<Seq<char>>) -> Seq<(Level, Seq<char>)>
    decreases lines.len(),
{
    if lines.len() == 0 {
        Seq::empty()
    } else {
        let t = trim_end(lines.last());
        records(lines.drop_last()) + if t.len() > 0 {
            seq![(severity(t), t)]
        } else {
            Seq::empty()
        }
    }
}

/// The records a list of emitted pairs holds, by their texts.
pub open spec fn record_texts(v: Seq<(Level, String)>) -> Seq<(Level, Seq<char>)> {
    v.map_values(|r: (Level, String)| (r.0, r.1@))
}

/// Buffers a partial line between writes.
///
/// regor writes in arbitrary chunks that do not align with line boundaries,
/// so emitting one record per write would shred messages across records.
pub struct LineBuffer {
    pending: Vec<char>,
}

impl View for LineBuffer {
    type V = Seq<char>;

    closed spec fn view(&self) -> Seq<char> {
        self.pending@
    }
}

/// `line` without its trailing white space.
fn trimmed(line: &Vec<char>) -> (s: String)
    ensures
        s@ == trim_end(line@),
{
    let mut end: usize = line.len();
    assert(line@.take(end as int) =~= line@);
    while end > 0 && white_space(line[end - 1])
        invariant
            0 <= end <= line.len(),
            trim_end(line@.take(end as int)) == trim_end(line@),
        decreases end,
    {
        assert(line@.take(end as int).drop_last() =~= line@.take(end - 1));
        end -= 1;
    }
    assert(trim_end(line@.take(end as int)) == line@.take(end as int));
    let mut s = String::new();
    let mut i: usize = 0;
    while i < end
        invariant
            0 <= i <= end <= line.len(),
            s@ == line@.take(i as int),
        decreases end - i,
    {
        crate::text::push_char(&mut s, line[i]);
        assert(line@.take(i + 1) =~= line@.take(i as int).push(line@[i as int]));
        i += 1;
    }
    s
}

impl LineBuffer {
    /// A buffer holding nothing.
    pub fn new() -> (b: LineBuffer)
        ensures
            b@ == Seq::<char>::empty(),
    {
        LineBuffer { pending: Vec::new() }
    }

    /// Add `text` to what is buffered and take out the lines it completes,
    /// each as a record to forward.
    pub fn push_text(&mut self, text: &str) -> (out: Vec<(Level, String)>)
        ensures
            final(self)@ == feed(old(self)@, text@).1,
            record_texts(out@) == records(feed(old(self)@, text@).0),
    {
        let chars = chars_of(text);
        let ghost start = self.pending@;
        let ghost mut lines: Seq<Seq<char>> = Seq::empty();
        let mut out: Vec<(Level, String)> = Vec::new();
        let mut i: usize = 0;
        assert(record_texts(out@) =~= Seq::empty());
        while i < chars.len()
            invariant
                chars@ == text@,
                0 <= i <= chars.len(),
                feed(start, text@.take(i as int)) == (lines, self.pending@),
                record_texts(out@) == records(lines),
            decreases chars.len() - i,
        {
            let c = chars[i];
            assert(text@.take(i + 1).drop_last() =~= text@.take(i as int));
            if c == '\n' {
                let ghost old_lines = lines;
                let ghost p = self.pending@;
                let line = trimmed(&self.pending);
                proof {
                    lines = lines.push(p);
                    assert(lines.drop_last() =~= old_lines);
                    assert(lines.last() == p);
                }
                if line.unicode_len() > 0 {
                    let level = classify(line.as_str());
                    let ghost before = out@;
                    out.push((level, line));
                    assert(record_texts(out@) =~= record_texts(before).push((level, trim_end(p))));
                    assert(records(lines) =~= records(old_lines) + seq![(level, trim_end(p))]);
                } else {
                    assert(records(lines) =~= records(old_lines));
                }
                self.pending = Vec::new();
            } else {
                self.pending.push(c);
            }
            i += 1;
        }
        assert(text@.take(chars.len() as int) =~= text@);
        out
    }

    /// Add a chunk of bytes as regor wrote it, decoded as UTF-8 with invalid
    /// sequences replaced (a chunk boundary can split a multi-byte
    /// sequence), and take out the lines it completes.
    pub fn push_bytes(&mut self, chunk: &[u8]) -> (out: Vec<(Level, String)>)
        ensures
            final(self)@ == feed(old(self)@, utf8_lossy(chunk@)).1,
            record_texts(out@) == records(feed(old(self)@, utf8_lossy(chunk@)).0),
    {
        let text = decode_utf8_lossy(chunk);
        self.push_text(text.as_str())
    }
}

/// Whether the writer is installed and whether a caller chose the filter,
/// so that the implicit installation done when a compiler is created cannot
/// silently undo an explicit one.
#[derive(Debug, Clone, Copy, PartialEq, Eq, Structural)]
pub struct InstallState {
    pub installed: bool,
    pub explicit: bool,
}

/// Whether a request to install the writer goes through: an explicit one
/// always does, an implicit one only while no writer is installed and no
/// caller has chosen a filter.
pub open spec fn install_goes_through(state: InstallState, explicit: bool) -> bool {
    explicit || !(state.installed || state.explicit)
}

/// The state once regor has accepted a writer.
pub open spec fn installed_state(state: InstallState, explicit: bool) -> InstallState {
    InstallState { installed: true, explicit: state.explicit || explicit }
}

impl InstallState {
    /// Nothing installed yet.
    pub fn new() -> (s: InstallState)
        ensures
            s == (InstallState { installed: false, explicit: false }),
    {
        InstallState { installed: false, explicit: false }
    }

    /// Whether a request, explicit or implicit, should install the writer.
    pub fn should_install(&self, explicit: bool) -> (b: bool)
        ensures
            b == install_goes_through(*self, explicit),
    {
        explicit || !(self.installed || self.explicit)
    }

    /// Record that regor accepted the writer for such a request.
    pub fn record_installed(&mut self, explicit: bool)
        ensures
            *final(self) == installed_state(*old(self), explicit),
    {
        self.installed = true;
        self.explicit = self.explicit || explicit;
    }
}

/// Feeding two pieces of text one after the other completes the same lines,
/// and leaves the same text waiting, as feeding them at once: how regor cuts
/// its output into chunks does not change the lines.
pub proof fn law_lines_do_not_depend_on_chunking(buffer: Seq<char>, x: Seq<char>, y: Seq<char>)
    ensures
        feed(buffer, x + y).0 == feed(buffer, x).0 + feed(feed(buffer, x).1, y).0,
        feed(buffer, x + y).1 == feed(feed(buffer, x).1, y).1,
    decreases y.len(),
{
    if y.len() == 0 {
        assert(x + y =~= x);
        assert(feed(buffer, x).0 + feed(feed(buffer, x).1, y).0 =~= feed(buffer, x).0);
    } else {
        law_lines_do_not_depend_on_chunking(buffer, x, y.drop_last());
        assert((x + y).drop_last() =~= x + y.drop_last());
        assert((x + y).last() == y.last());
        let first = feed(buffer, x).0;
        let rest = feed(feed(buffer, x).1, y.drop_last());
        if y.last() == '\n' {
            assert(first + rest.0.push(rest.1) =~= (first + rest.0).push(rest.1));
        }
    }
}

/// The records forwarded for two runs of lines are those of the first run
/// followed by those of the second.
pub proof fn law_records_of_joined_lines(a: Seq<Seq<char>>, b: Seq<Seq<char>>)
    ensures
        records(a + b) == records(a) + records(b),
    decreases b.len(),
{
    if b.len() == 0 {
        assert(a + b =~= a);
        assert(records(a) + records(b) =~= records(a));
    } else {
        law_records_of_joined_lines(a, b.drop_last());
        assert((a + b).drop_last() =~= a + b.drop_last());
        assert((a + b).last() == b.last());
        let t = trim_end(b.last());
        let piece: Seq<(Level, Seq<char>)> = if t.len() > 0 {
            seq![(severity(t), t)]
        } else {
            Seq::empty()
        };
        assert(records(a) + records(b.drop_last()) + piece =~= records(a) + (records(b.drop_last())
            + piece));
    }
}

/// Feeding text keeps every character it is given: the completed lines and
/// what is left waiting, put back together with a newline between
/// neighbours, are exactly what was buffered followed by the text, and no
/// piece holds a newline. So the completed lines are the newline-separated
/// pieces of the buffered text and the new text, nothing dropped or added.
pub proof fn law_fed_text_is_kept(buffer: Seq<char>, text: Seq<char>)
    requires
        !buffer.contains('\n'),
    ensures
        crate::text::join(feed(buffer, text).0.push(feed(buffer, text).1), "\n"@) == buffer + text,
        forall|i: int|
            0 <= i < feed(buffer, text).0.len() ==> !(#[trigger] feed(buffer, text).0[i]).contains(
                '\n',
            ),
        !feed(buffer, text).1.contains('\n'),
    decreases text.len(),
{
    reveal_strlit("\n");
    if text.len() == 0 {
        assert(Seq::<Seq<char>>::empty().push(buffer).len() == 1);
        assert(buffer + text =~= buffer);
    } else {
        let t = text.drop_last();
        let c = text.last();
        law_fed_text_is_kept(buffer, t);
        let (lines, rest) = feed(buffer, t);
        assert(t + seq![c] =~= text);
        assert(buffer + text =~= (buffer + t).push(c));
        if c == '\n' {
            let parts = lines.push(rest).push(Seq::empty());
            assert(parts.drop_last() =~= lines.push(rest));
            assert(crate::text::join(parts, "\n"@) =~= (buffer + t) + "\n"@ + Seq::<char>::empty());
            assert forall|i: int| 0 <= i < lines.push(rest).len() implies !(#[trigger] lines.push(
                rest,
            )[i]).contains('\n') by {
                if i < lines.len() {
                    assert(lines.push(rest)[i] == lines[i]);
                }
            }
        } else {
            let parts = lines.push(rest.push(c));
            if lines.len() == 0 {
                assert(parts.len() == 1);
                assert(lines.push(rest).len() == 1);
                assert(crate::text::join(parts, "\n"@) == rest.push(c));
                assert(crate::text::join(lines.push(rest), "\n"@) == rest);
            } else {
                assert(parts.drop_last() =~= lines);
                assert(lines.push(rest).drop_last() =~= lines);
                assert(crate::text::join(parts, "\n"@) =~= crate::text::join(lines, "\n"@) + "\n"@
                    + rest.push(c));
            }
            assert forall|k: int| 0 <= k < rest.push(c).len() implies rest.push(c)[k] != '\n' by {
                if k < rest.len() {
                    assert(rest.push(c)[k] == rest[k]);
                }
            }
        }
    }
}

/// A record's text is its line with the trailing white space taken off and
/// nothing else: it is a prefix of the line, everything after it is white
/// space, and it does not itself end in white space.
pub proof fn law_trim_end_drops_only_trailing_white_space(s: Seq<char>)
    ensures
        trim_end(s).len() <= s.len(),
        trim_end(s) == s.take(trim_end(s).len() as int),
        forall|i: int| trim_end(s).len() <= i < s.len() ==> crate::text::is_white_space(#[trigger] s[i]),
        trim_end(s).len() > 0 ==> !crate::text::is_white_space(trim_end(s).last()),
    decreases s.len(),
{
    if s.len() > 0 && crate::text::is_white_space(s.last()) {
        law_trim_end_drops_only_trailing_white_space(s.drop_last());
        let t = trim_end(s.drop_last());
        assert(s.drop_last().take(t.len() as int) =~= s.take(t.len() as int));
        assert forall|i: int| t.len() <= i < s.len() implies crate::text::is_white_space(
            #[trigger] s[i],
        ) by {
            if i < s.len() - 1 {
                assert(s[i] == s.drop_last()[i]);
            }
        }
    } else {
        assert(s.take(s.len() as int) =~= s);
    }
}

/// An explicit request always installs the writer; an implicit one never
/// replaces a writer already installed, so it cannot undo the filter a
/// caller chose.
pub proof fn law_implicit_install_never_overrides(state: InstallState)
    ensures
        install_goes_through(state, true),
        state.installed || state.explicit ==> !install_goes_through(state, false),
        !install_goes_through(installed_state(state, false), false),
        installed_state(state, true).explicit,
{
}

} // verus!
