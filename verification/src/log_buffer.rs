//! The bounded log that the supervisor and the output readers write to.

use vstd::prelude::*;
use crate::clock::is_clock_label;
use crate::clock::local_time_label;

verus! {

/// The number of lines that a log retains.
pub const LOG_CAPACITY: usize = 100;

/// The output stream of the worker that a line was read from.
#[derive(Clone, Copy, Debug, PartialEq, Eq, Structural)]
pub enum Stream {
    Stdout,
    Stderr,
}

/// The texts of a vector of strings.
pub open spec fn texts(lines: Seq<String>) -> Seq<Seq<char>> {
    lines.map_values(|line: String| line@)
}

/// The last `n` entries of `s`, in their order; all of `s` if it has no more
/// than `n`.
pub open spec fn keep_last<T>(s: Seq<T>, n: nat) -> Seq<T> {
    if s.len() <= n {
        s
    } else {
        s.subrange(s.len() - n, s.len() as int)
    }
}

/// The log after `line` was appended to `log`: the line goes to the end, and
/// the oldest lines leave until no more than `LOG_CAPACITY` remain.
pub open spec fn appended(log: Seq<Seq<char>>, line: Seq<char>) -> Seq<Seq<char>> {
    keep_last(log.push(line), LOG_CAPACITY as nat)
}

/// The log after each of `lines` was appended to `log`, first to last.
pub open spec fn appended_all(log: Seq<Seq<char>>, lines: Seq<Seq<char>>) -> Seq<Seq<char>>
    decreases lines.len(),
{
    if lines.len() == 0 {
        log
    } else {
        appended_all(appended(log, lines[0]), lines.drop_first())
    }
}

/// The text that marks a line as read from `stream`.
pub open spec fn stream_prefix(stream: Stream) -> Seq<char> {
    match stream {
        Stream::Stdout => "xmrig: "@,
        Stream::Stderr => "xmrig err: "@,
    }
}

/// A line of worker output as the log holds it.
pub open spec fn tagged(stream: Stream, line: Seq<char>) -> Seq<char> {
    stream_prefix(stream) + line
}

/// An event of the supervisor as the log holds it: the time in square
/// brackets, a space, and the message.
pub open spec fn event_line(stamp: Seq<char>, message: Seq<char>) -> Seq<char> {
    seq!['['] + stamp + seq![']', ' '] + message
}

/// Whether `line` records the event `message` at some time of day.
pub open spec fn is_event(line: Seq<char>, message: Seq<char>) -> bool {
    exists|stamp: Seq<char>| is_clock_label(stamp) && line == event_line(stamp, message)
}

/// Whether `after` is `before` with one event `message` appended.
pub open spec fn logged(
    before: Seq<Seq<char>>,
    after: Seq<Seq<char>>,
    message: Seq<char>,
) -> bool {
    exists|line: Seq<char>| is_event(line, message) && after == appended(before, line)
}

/// Marks `line` as read from `stream`.
pub fn tag_line(stream: Stream, line: &str) -> (text: String)
    ensures
        text@ == tagged(stream, line@),
{
    let mut text: String = match stream {
        Stream::Stdout => String::from_str("xmrig: "),
        Stream::Stderr => String::from_str("xmrig err: "),
    };
    text.append(line);
    text
}

/// Writes the log line of the event `message` that happened at `stamp`.
pub fn format_event(stamp: &str, message: &str) -> (text: String)
    ensures
        text@ == event_line(stamp@, message@),
{
    proof {
        reveal_strlit("[");
        reveal_strlit("] ");
    }
    let mut text: String = String::from_str("[");
    text.append(stamp);
    text.append("] ");
    text.append(message);
    assert(text@ =~= event_line(stamp@, message@));
    text
}

/// An ordered log of text lines that keeps the `LOG_CAPACITY` most recent.
pub struct LogBuffer {
    lines: Vec<String>,
}

impl View for LogBuffer {
    type V = Seq<Seq<char>>;

    closed spec fn view(&self) -> Seq<Seq<char>> {
        texts(self.lines@)
    }
}

impl LogBuffer {
    /// No log holds more lines than `LOG_CAPACITY`.
    #[verifier::type_invariant]
    pub open spec fn within_capacity(&self) -> bool {
        self@.len() <= LOG_CAPACITY
    }

    /// An empty log.
    pub fn new() -> (log: Self)
        ensures
            log@ == Seq::<Seq<char>>::empty(),
    {
        let log = LogBuffer { lines: Vec::new() };
        assert(log@ =~= Seq::<Seq<char>>::empty());
        log
    }

    /// The number of lines held.
    pub fn len(&self) -> (n: usize)
        ensures
            n == self@.len(),
            n <= LOG_CAPACITY,
    {
        proof {
            use_type_invariant(self);
        }
        self.lines.len()
    }

    /// Whether the log holds no line.
    pub fn is_empty(&self) -> (empty: bool)
        ensures
            empty == (self@.len() == 0),
    {
        self.lines.len() == 0
    }

    /// Appends `line`, then drops the oldest lines beyond the capacity.
    pub fn append_log(&mut self, line: String)
        ensures
            final(self)@ == appended(old(self)@, line@),
            final(self)@.len() <= LOG_CAPACITY,
    {
        proof {
            use_type_invariant(&*self);
        }
        let mut lines: Vec<String> = Vec::new();
        std::mem::swap(&mut lines, &mut self.lines);
        lines.push(line);
        let n: usize = lines.len();
        if n > LOG_CAPACITY {
            let kept: Vec<String> = lines.split_off(n - LOG_CAPACITY);
            lines = kept;
        }
        self.lines = lines;
        assert(self@ =~= appended(old(self)@, line@));
    }

    /// Records one read from an output stream of the worker: a line is tagged
    /// with its stream and appended; a failed read is skipped.
    pub fn record_output<E>(&mut self, stream: Stream, read: Result<String, E>)
        ensures
            match read {
                Ok(line) => final(self)@ == appended(old(self)@, tagged(stream, line@)),
                Err(_) => final(self)@ == old(self)@,
            },
            final(self)@.len() <= LOG_CAPACITY,
    {
        proof {
            use_type_invariant(&*self);
        }
        match read {
            Ok(line) => {
                let text: String = tag_line(stream, line.as_str());
                self.append_log(text);
            },
            Err(_) => {},
        }
    }

    /// Appends the event `message` as having happened at `stamp`.
    pub fn log_event_at(&mut self, stamp: &str, message: &str)
        ensures
            final(self)@ == appended(old(self)@, event_line(stamp@, message@)),
            final(self)@.len() <= LOG_CAPACITY,
    {
        let text: String = format_event(stamp, message);
        self.append_log(text);
    }

    /// Appends the event `message` with the current local time of day.
    pub fn log_event(&mut self, message: &str)
        ensures
            logged(old(self)@, final(self)@, message@),
            final(self)@.len() <= LOG_CAPACITY,
    {
        let stamp: String = local_time_label();
        self.log_event_at(stamp.as_str(), message);
        assert(is_event(event_line(stamp@, message@), message@));
    }

    /// A copy of the lines held, oldest first.
    pub fn snapshot_logs(&self) -> (lines: Vec<String>)
        ensures
            texts(lines@) == self@,
    {
        let mut lines: Vec<String> = Vec::new();
        let mut i: usize = 0;
        while i < self.lines.len()
            invariant
                i <= self.lines@.len(),
                lines@.len() == i,
                forall|k: int| 0 <= k < i ==> lines@[k]@ == self.lines@[k]@,
            decreases self.lines@.len() - i,
        {
            lines.push(self.lines[i].clone());
            i = i + 1;
        }
        assert(texts(lines@) =~= self@);
        lines
    }
}

/// Trimming before more entries arrive changes nothing: what `keep_last`
/// drops from `a` would not have survived the trim of `a + b` either.
pub proof fn lemma_keep_last_absorbs<T>(a: Seq<T>, b: Seq<T>, n: nat)
    ensures
        keep_last(keep_last(a, n) + b, n) == keep_last(a + b, n),
{
    assert(keep_last(keep_last(a, n) + b, n) =~= keep_last(a + b, n));
}

/// An append leaves the log within its capacity: it grows by one line until
/// it is full and keeps its length from then on.
pub proof fn law_append_stays_bounded(log: Seq<Seq<char>>, line: Seq<char>)
    ensures
        appended(log, line).len() <= LOG_CAPACITY,
        appended(log, line).len() == if log.len() < LOG_CAPACITY {
            log.len() + 1
        } else {
            LOG_CAPACITY as nat
        },
{
}

/// An append never reorders: the new line is the last entry, and the entries
/// before it are the most recent of the old log, each as far from the end as
/// it was.
pub proof fn law_append_keeps_order(log: Seq<Seq<char>>, line: Seq<char>)
    ensures
        appended(log, line).len() >= 1,
        appended(log, line).last() == line,
        appended(log, line).drop_last() == keep_last(log, (appended(log, line).len() - 1) as nat),
{
    let after = appended(log, line);
    assert(after.drop_last() =~= keep_last(log, (after.len() - 1) as nat));
}

/// Appending line by line retains the most recent `LOG_CAPACITY` entries of
/// all that the log held and received, in the order in which they came.
pub proof fn law_appends_retain_most_recent(log: Seq<Seq<char>>, lines: Seq<Seq<char>>)
    requires
        log.len() <= LOG_CAPACITY,
    ensures
        appended_all(log, lines) == keep_last(log + lines, LOG_CAPACITY as nat),
    decreases lines.len(),
{
    if lines.len() == 0 {
        assert(log + lines =~= log);
    } else {
        let first = lines[0];
        let rest = lines.drop_first();
        law_appends_retain_most_recent(appended(log, first), rest);
        lemma_keep_last_absorbs(log.push(first), rest, LOG_CAPACITY as nat);
        assert(log.push(first) + rest =~= log + lines);
    }
}

/// The log bound: once at least `LOG_CAPACITY` lines were appended, the log
/// holds exactly the last `LOG_CAPACITY` of them, in their order, whatever it
/// held before.
pub proof fn law_log_bound(log: Seq<Seq<char>>, lines: Seq<Seq<char>>)
    requires
        log.len() <= LOG_CAPACITY,
        lines.len() >= LOG_CAPACITY,
    ensures
        appended_all(log, lines).len() == LOG_CAPACITY,
        appended_all(log, lines) == lines.subrange(
            lines.len() - LOG_CAPACITY,
            lines.len() as int,
        ),
{
    law_appends_retain_most_recent(log, lines);
    assert(keep_last(log + lines, LOG_CAPACITY as nat) =~= lines.subrange(
        lines.len() - LOG_CAPACITY,
        lines.len() as int,
    ));
}

/// Lines read from one stream stay in their order: after up to
/// `LOG_CAPACITY` lines of `stream` were recorded one by one, they are the
/// last entries of the log, first to last, each tagged with the stream.
pub proof fn law_stream_lines_in_order(log: Seq<Seq<char>>, stream: Stream, lines: Seq<Seq<char>>)
    requires
        log.len() <= LOG_CAPACITY,
        lines.len() <= LOG_CAPACITY,
    ensures
        ({
            let after = appended_all(log, lines.map_values(|line: Seq<char>| tagged(stream, line)));
            &&& after.len() >= lines.len()
            &&& forall|i: int|
                0 <= i < lines.len() ==> #[trigger] after[after.len() - lines.len() + i] == tagged(
                    stream,
                    lines[i],
                )
        }),
{
    law_appends_retain_most_recent(log, lines.map_values(|line: Seq<char>| tagged(stream, line)));
}

/// A logged event leaves the log within its capacity, with the event as its
/// last entry.
pub proof fn law_logged_event_is_last(
    before: Seq<Seq<char>>,
    after: Seq<Seq<char>>,
    message: Seq<char>,
)
    requires
        logged(before, after, message),
    ensures
        1 <= after.len() <= LOG_CAPACITY,
        is_event(after.last(), message),
        after.drop_last() == keep_last(before, (after.len() - 1) as nat),
{
    let line = choose|line: Seq<char>| is_event(line, message) && after == appended(before, line);
    law_append_keeps_order(before, line);
}

} // verus!
