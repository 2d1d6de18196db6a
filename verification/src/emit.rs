use vstd::prelude::*;

verus! {

/// One log event: a timestamp in milliseconds since the Unix epoch and a
/// message. Built fresh for every message sent, never stored.
pub struct LogEvent {
    /// Milliseconds since the Unix epoch.
    pub timestamp: i64,
    /// The event's text.
    pub message: String,
}

/// How a run produces events: one fixed message at startup, or one event
/// per non-empty line read from input.
pub enum EmitMode {
    /// Send exactly one event carrying this message, then stop.
    FixedMessage(String),
    /// Forward input lines one by one until an empty read.
    PassThroughLines,
}

/// What to do with one line read from input.
pub enum LineStep {
    /// Send one event carrying the line; echo the line when asked.
    Emit { message: String, echo: bool },
    /// End of input: stop without sending.
    Stop,
}

/// The event for one message at the given wall-clock reading.
pub fn make_event(timestamp: i64, message: &str) -> (e: LogEvent)
    ensures
        e.timestamp == timestamp,
        e.message@ == message@,
{
    LogEvent { timestamp, message: message.to_owned() }
}

/// The decision for one input read: an empty read ends the run; any other
/// line becomes one event with the line as its message, echoed exactly when
/// `pass_through` is set.
pub fn process_line(line: &str, pass_through: bool) -> (r: LineStep)
    ensures
        line@.len() == 0 ==> r is Stop,
        line@.len() > 0 ==> (r matches LineStep::Emit { message, echo }
            && message@ == line@ && echo == pass_through),
{
    if line.is_empty() {
        LineStep::Stop
    } else {
        LineStep::Emit { message: line.to_owned(), echo: pass_through }
    }
}

/// The events sent at startup: exactly one, carrying the configured message
/// and the startup clock reading, in fixed-message mode; none in
/// pass-through mode, where the input loop sends them instead.
pub fn startup_events(mode: &EmitMode, now_millis: i64) -> (v: Vec<LogEvent>)
    ensures
        mode matches EmitMode::FixedMessage(m) ==> v@.len() == 1
            && v@[0].message@ == m@ && v@[0].timestamp == now_millis,
        mode is PassThroughLines ==> v@.len() == 0,
{
    match mode {
        EmitMode::FixedMessage(m) => {
            let mut v: Vec<LogEvent> = Vec::new();
            v.push(make_event(now_millis, m.as_str()));
            v
        },
        EmitMode::PassThroughLines => Vec::new(),
    }
}

/// The messages forwarded for a sequence of reads: every line before the
/// first empty read, in order.
pub open spec fn spec_forwarded_messages(reads: Seq<Seq<char>>) -> Seq<Seq<char>>
    decreases reads.len(),
{
    if reads.len() == 0 || reads[0].len() == 0 {
        seq![]
    } else {
        seq![reads[0]] + spec_forwarded_messages(reads.drop_first())
    }
}

/// The lines echoed to standard output: the forwarded lines when
/// `pass_through` is set, none otherwise.
pub open spec fn spec_echoed_lines(reads: Seq<Seq<char>>, pass_through: bool) -> Seq<Seq<char>> {
    if pass_through {
        spec_forwarded_messages(reads)
    } else {
        seq![]
    }
}

/// Feeding any sequence of non-empty lines followed by an empty read
/// forwards exactly those lines, one event per line, each message equal to
/// its line, in order; with `pass_through` set, the same lines are echoed to
/// standard output in the same order.
pub proof fn lemma_forward_each_line(lines: Seq<Seq<char>>)
    requires
        forall|i: int| 0 <= i < lines.len() ==> #[trigger] lines[i].len() > 0,
    ensures
        spec_forwarded_messages(lines.push(seq![])) =~= lines,
        spec_echoed_lines(lines.push(seq![]), true) =~= lines,
        spec_echoed_lines(lines.push(seq![]), false) =~= Seq::<Seq<char>>::empty(),
    decreases lines.len(),
{
    let reads = lines.push(seq![]);
    if lines.len() == 0 {
        assert(reads[0].len() == 0);
    } else {
        assert(reads[0] == lines[0]);
        assert(reads.drop_first() =~= lines.drop_first().push(seq![]));
        lemma_forward_each_line(lines.drop_first());
        assert(spec_forwarded_messages(reads) =~= seq![lines[0]] + lines.drop_first());
        assert(seq![lines[0]] + lines.drop_first() =~= lines);
    }
}

} // verus!
