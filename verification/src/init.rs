use vstd::prelude::*;

verus! {

/// One remote call of the initialization policy.
#[derive(Clone, Copy, Debug, PartialEq, Eq, Structural)]
pub enum RemoteCall {
    /// Ask whether a group matching the name exists.
    DescribeGroups,
    /// Create the log group.
    CreateGroup,
    /// Ask which streams under the group share the stream name as a prefix.
    DescribeStreams,
    /// Create the log stream.
    CreateStream,
    /// Delete the log stream.
    DeleteStream,
}

/// The outcome of one remote call, handed back to the policy.
#[derive(Clone, Copy, Debug, PartialEq, Eq, Structural)]
pub enum CallOutcome {
    /// A group query answered; `exists` says whether any matching group came back.
    GroupQuery { exists: bool },
    /// A stream query answered; `exists` says whether a stream with exactly the
    /// effective name came back.
    StreamQuery { exists: bool },
    /// A create or delete call succeeded.
    Accepted,
    /// The call failed.
    Failed,
}

/// Where the initialization policy stands, named by the call it is waiting on.
#[derive(Clone, Copy, Debug, PartialEq, Eq, Structural)]
pub enum InitPhase {
    /// Waiting on the group query.
    CheckingGroup,
    /// Waiting on group creation.
    CreatingGroup,
    /// Waiting on the stream query.
    CheckingStream,
    /// Waiting on stream deletion.
    DeletingStream,
    /// Waiting on stream creation.
    CreatingStream,
    /// Initialization finished.
    Done,
    /// A remote call failed; the run stops.
    Failed,
}

/// The initialization policy: it makes sure the group exists, then the
/// stream, deleting and recreating the stream on request. It issues one call
/// at a time and is fed each call's outcome before it chooses the next.
pub struct InitMachine {
    /// Recreate the stream when one with the effective name already exists.
    pub remake_log_stream: bool,
    /// Where the policy stands.
    pub phase: InitPhase,
}

/// The call the policy waits on in each phase; none once done or failed.
pub open spec fn spec_pending_call(m: InitMachine) -> Option<RemoteCall> {
    match m.phase {
        InitPhase::CheckingGroup => Some(RemoteCall::DescribeGroups),
        InitPhase::CreatingGroup => Some(RemoteCall::CreateGroup),
        InitPhase::CheckingStream => Some(RemoteCall::DescribeStreams),
        InitPhase::DeletingStream => Some(RemoteCall::DeleteStream),
        InitPhase::CreatingStream => Some(RemoteCall::CreateStream),
        InitPhase::Done => None,
        InitPhase::Failed => None,
    }
}

/// Whether `outcome` can answer the call `c`.
pub open spec fn spec_outcome_answers(c: RemoteCall, outcome: CallOutcome) -> bool {
    match outcome {
        CallOutcome::GroupQuery { exists: _ } => c == RemoteCall::DescribeGroups,
        CallOutcome::StreamQuery { exists: _ } => c == RemoteCall::DescribeStreams,
        CallOutcome::Accepted => c == RemoteCall::CreateGroup
            || c == RemoteCall::CreateStream
            || c == RemoteCall::DeleteStream,
        CallOutcome::Failed => true,
    }
}

/// The policy's move on one outcome: a failure ends the run; a group found
/// missing is created; a stream found missing is created; a stream found
/// present is deleted and recreated when `remake_log_stream` asks, and left
/// alone otherwise.
pub open spec fn spec_step(m: InitMachine, outcome: CallOutcome) -> InitMachine {
    let phase = if outcome == CallOutcome::Failed {
        InitPhase::Failed
    } else {
        match (m.phase, outcome) {
            (InitPhase::CheckingGroup, CallOutcome::GroupQuery { exists }) =>
                if exists { InitPhase::CheckingStream } else { InitPhase::CreatingGroup },
            (InitPhase::CreatingGroup, CallOutcome::Accepted) => InitPhase::CheckingStream,
            (InitPhase::CheckingStream, CallOutcome::StreamQuery { exists }) =>
                if !exists {
                    InitPhase::CreatingStream
                } else if m.remake_log_stream {
                    InitPhase::DeletingStream
                } else {
                    InitPhase::Done
                },
            (InitPhase::DeletingStream, CallOutcome::Accepted) => InitPhase::CreatingStream,
            (InitPhase::CreatingStream, CallOutcome::Accepted) => InitPhase::Done,
            _ => m.phase,
        }
    };
    InitMachine { remake_log_stream: m.remake_log_stream, phase }
}

impl InitMachine {
    /// A fresh policy, about to check whether the group exists.
    pub fn start(remake_log_stream: bool) -> (m: Self)
        ensures
            m.remake_log_stream == remake_log_stream,
            m.phase == InitPhase::CheckingGroup,
    {
        InitMachine { remake_log_stream, phase: InitPhase::CheckingGroup }
    }

    /// The next remote call to issue; none once done or failed.
    pub fn pending_call(&self) -> (r: Option<RemoteCall>)
        ensures
            r == spec_pending_call(*self),
    {
        match self.phase {
            InitPhase::CheckingGroup => Some(RemoteCall::DescribeGroups),
            InitPhase::CreatingGroup => Some(RemoteCall::CreateGroup),
            InitPhase::CheckingStream => Some(RemoteCall::DescribeStreams),
            InitPhase::DeletingStream => Some(RemoteCall::DeleteStream),
            InitPhase::CreatingStream => Some(RemoteCall::CreateStream),
            InitPhase::Done => None,
            InitPhase::Failed => None,
        }
    }

    /// Feeds the outcome of the pending call back into the policy.
    pub fn on_outcome(&mut self, outcome: CallOutcome)
        requires
            spec_pending_call(*old(self)) matches Some(c) && spec_outcome_answers(c, outcome),
        ensures
            *final(self) == spec_step(*old(self), outcome),
    {
        let phase = if outcome == CallOutcome::Failed {
            InitPhase::Failed
        } else {
            match (self.phase, outcome) {
                (InitPhase::CheckingGroup, CallOutcome::GroupQuery { exists }) =>
                    if exists { InitPhase::CheckingStream } else { InitPhase::CreatingGroup },
                (InitPhase::CreatingGroup, CallOutcome::Accepted) => InitPhase::CheckingStream,
                (InitPhase::CheckingStream, CallOutcome::StreamQuery { exists }) =>
                    if !exists {
                        InitPhase::CreatingStream
                    } else if self.remake_log_stream {
                        InitPhase::DeletingStream
                    } else {
                        InitPhase::Done
                    },
                (InitPhase::DeletingStream, CallOutcome::Accepted) => InitPhase::CreatingStream,
                (InitPhase::CreatingStream, CallOutcome::Accepted) => InitPhase::Done,
                _ => self.phase,
            }
        };
        self.phase = phase;
    }

    /// Whether initialization completed.
    pub fn is_done(&self) -> (r: bool)
        ensures
            r == (self.phase == InitPhase::Done),
    {
        matches!(self.phase, InitPhase::Done)
    }

    /// Whether a remote call failed; no further call is issued after this.
    pub fn is_failed(&self) -> (r: bool)
        ensures
            r == (self.phase == InitPhase::Failed),
    {
        matches!(self.phase, InitPhase::Failed)
    }
}

/// The calls the policy is meant to make for a given world: check the group
/// and create it only when absent; check the stream, then create it when
/// absent, delete and recreate it when present and `remake` asks, and leave
/// it untouched when present otherwise.
pub open spec fn spec_init_plan(group_exists: bool, stream_exists: bool, remake: bool) -> Seq<RemoteCall> {
    seq![RemoteCall::DescribeGroups]
        + (if group_exists { seq![] } else { seq![RemoteCall::CreateGroup] })
        + seq![RemoteCall::DescribeStreams]
        + (if stream_exists {
            if remake {
                seq![RemoteCall::DeleteStream, RemoteCall::CreateStream]
            } else {
                seq![]
            }
        } else {
            seq![RemoteCall::CreateStream]
        })
}

/// The outcome with which an environment where every call succeeds answers
/// the call `c`, when the group exists iff `group_exists` and a stream with
/// the effective name exists iff `stream_exists`.
pub open spec fn spec_success_outcome(c: RemoteCall, group_exists: bool, stream_exists: bool) -> CallOutcome {
    match c {
        RemoteCall::DescribeGroups => CallOutcome::GroupQuery { exists: group_exists },
        RemoteCall::DescribeStreams => CallOutcome::StreamQuery { exists: stream_exists },
        RemoteCall::CreateGroup => CallOutcome::Accepted,
        RemoteCall::CreateStream => CallOutcome::Accepted,
        RemoteCall::DeleteStream => CallOutcome::Accepted,
    }
}

/// How many calls the policy can still make from phase `p`.
pub open spec fn spec_phase_rank(p: InitPhase) -> nat {
    match p {
        InitPhase::CheckingGroup => 5,
        InitPhase::CreatingGroup => 4,
        InitPhase::CheckingStream => 3,
        InitPhase::DeletingStream => 2,
        InitPhase::CreatingStream => 1,
        InitPhase::Done => 0,
        InitPhase::Failed => 0,
    }
}

/// The calls the policy issues from `m` on, in order, when every call
/// succeeds and the world answers the queries as the two flags say.
pub open spec fn spec_success_trace(m: InitMachine, group_exists: bool, stream_exists: bool) -> Seq<RemoteCall>
    decreases spec_phase_rank(m.phase),
{
    match spec_pending_call(m) {
        None => seq![],
        Some(c) => {
            let next = spec_step(m, spec_success_outcome(c, group_exists, stream_exists));
            if spec_phase_rank(next.phase) < spec_phase_rank(m.phase) {
                seq![c] + spec_success_trace(next, group_exists, stream_exists)
            } else {
                seq![c]
            }
        },
    }
}

/// Where the policy ends up from `m` when every call succeeds and the world
/// answers the queries as the two flags say.
pub open spec fn spec_success_run(m: InitMachine, group_exists: bool, stream_exists: bool) -> InitMachine
    decreases spec_phase_rank(m.phase),
{
    match spec_pending_call(m) {
        None => m,
        Some(c) => {
            let next = spec_step(m, spec_success_outcome(c, group_exists, stream_exists));
            if spec_phase_rank(next.phase) < spec_phase_rank(m.phase) {
                spec_success_run(next, group_exists, stream_exists)
            } else {
                next
            }
        },
    }
}

/// A fresh policy whose every call succeeds finishes done, whatever the
/// world answered: initialization cannot stall or fail on its own.
pub proof fn lemma_success_run_completes(remake: bool, group_exists: bool, stream_exists: bool)
    ensures
        spec_success_run(
            InitMachine { remake_log_stream: remake, phase: InitPhase::CheckingGroup },
            group_exists,
            stream_exists,
        ).phase == InitPhase::Done,
{
    reveal_with_fuel(spec_success_run, 7);
}

/// How many times the call `c` occurs in `calls`.
pub open spec fn spec_count_calls(calls: Seq<RemoteCall>, c: RemoteCall) -> nat
    decreases calls.len(),
{
    if calls.len() == 0 {
        0
    } else {
        (if calls[0] == c { 1nat } else { 0nat }) + spec_count_calls(calls.drop_first(), c)
    }
}

/// Counting calls distributes over concatenation.
pub proof fn lemma_count_calls_concat(s1: Seq<RemoteCall>, s2: Seq<RemoteCall>, c: RemoteCall)
    ensures
        spec_count_calls(s1 + s2, c) == spec_count_calls(s1, c) + spec_count_calls(s2, c),
    decreases s1.len(),
{
    if s1.len() == 0 {
        assert(s1 + s2 =~= s2);
    } else {
        assert((s1 + s2).drop_first() =~= s1.drop_first() + s2);
        lemma_count_calls_concat(s1.drop_first(), s2, c);
    }
}

/// A fresh policy, run with every call succeeding, issues exactly the
/// planned calls, in order.
pub proof fn lemma_success_trace_is_plan(remake: bool, group_exists: bool, stream_exists: bool)
    ensures
        spec_success_trace(
            InitMachine { remake_log_stream: remake, phase: InitPhase::CheckingGroup },
            group_exists,
            stream_exists,
        ) =~= spec_init_plan(group_exists, stream_exists, remake),
{
    reveal_with_fuel(spec_success_trace, 7);
}

/// Exactly one create-group call stands in the plan when the group is
/// absent, and none when it is present.
pub proof fn lemma_create_group_only_when_absent(group_exists: bool, stream_exists: bool, remake: bool)
    ensures
        spec_count_calls(spec_init_plan(group_exists, stream_exists, remake), RemoteCall::CreateGroup)
            == if group_exists { 0nat } else { 1nat },
{
    lemma_init_plan_counts(group_exists, stream_exists, remake);
}

/// Exactly one create-stream call stands in the plan when the stream is
/// absent, and no delete.
pub proof fn lemma_create_stream_when_absent(group_exists: bool, remake: bool)
    ensures
        spec_count_calls(spec_init_plan(group_exists, false, remake), RemoteCall::CreateStream) == 1,
        spec_count_calls(spec_init_plan(group_exists, false, remake), RemoteCall::DeleteStream) == 0,
{
    lemma_init_plan_counts(group_exists, false, remake);
}

/// When the stream exists and remake is not asked, the plan holds neither a
/// delete-stream nor a create-stream call.
pub proof fn lemma_existing_stream_left_alone(group_exists: bool)
    ensures
        spec_count_calls(spec_init_plan(group_exists, true, false), RemoteCall::CreateStream) == 0,
        spec_count_calls(spec_init_plan(group_exists, true, false), RemoteCall::DeleteStream) == 0,
{
    lemma_init_plan_counts(group_exists, true, false);
}

/// When the stream exists and remake is asked, the plan holds exactly one
/// delete-stream call immediately followed by exactly one create-stream
/// call, and they are its last two calls.
pub proof fn lemma_remake_deletes_then_creates(group_exists: bool)
    ensures
        spec_count_calls(spec_init_plan(group_exists, true, true), RemoteCall::DeleteStream) == 1,
        spec_count_calls(spec_init_plan(group_exists, true, true), RemoteCall::CreateStream) == 1,
        spec_init_plan(group_exists, true, true).len() >= 2,
        spec_init_plan(group_exists, true, true)[spec_init_plan(group_exists, true, true).len() - 2]
            == RemoteCall::DeleteStream,
        spec_init_plan(group_exists, true, true).last() == RemoteCall::CreateStream,
{
    lemma_init_plan_counts(group_exists, true, true);
}

/// The exact number of each kind of call in the plan, for every world.
pub proof fn lemma_init_plan_counts(group_exists: bool, stream_exists: bool, remake: bool)
    ensures
        spec_count_calls(spec_init_plan(group_exists, stream_exists, remake), RemoteCall::DescribeGroups) == 1,
        spec_count_calls(spec_init_plan(group_exists, stream_exists, remake), RemoteCall::DescribeStreams) == 1,
        spec_count_calls(spec_init_plan(group_exists, stream_exists, remake), RemoteCall::CreateGroup)
            == if group_exists { 0nat } else { 1nat },
        spec_count_calls(spec_init_plan(group_exists, stream_exists, remake), RemoteCall::CreateStream)
            == if !stream_exists || remake { 1nat } else { 0nat },
        spec_count_calls(spec_init_plan(group_exists, stream_exists, remake), RemoteCall::DeleteStream)
            == if stream_exists && remake { 1nat } else { 0nat },
{
    reveal_with_fuel(spec_count_calls, 4);
    let p1 = seq![RemoteCall::DescribeGroups];
    let p2: Seq<RemoteCall> = if group_exists { seq![] } else { seq![RemoteCall::CreateGroup] };
    let p3 = seq![RemoteCall::DescribeStreams];
    let p4: Seq<RemoteCall> = if stream_exists {
        if remake {
            seq![RemoteCall::DeleteStream, RemoteCall::CreateStream]
        } else {
            seq![]
        }
    } else {
        seq![RemoteCall::CreateStream]
    };
    lemma_count_pieces(p1, p2, p3, p4, RemoteCall::DescribeGroups);
    lemma_count_pieces(p1, p2, p3, p4, RemoteCall::DescribeStreams);
    lemma_count_pieces(p1, p2, p3, p4, RemoteCall::CreateGroup);
    lemma_count_pieces(p1, p2, p3, p4, RemoteCall::CreateStream);
    lemma_count_pieces(p1, p2, p3, p4, RemoteCall::DeleteStream);
    assert(seq![RemoteCall::DeleteStream, RemoteCall::CreateStream].drop_first()
        =~= seq![RemoteCall::CreateStream]);
    assert(seq![RemoteCall::DescribeGroups].drop_first() =~= Seq::<RemoteCall>::empty());
    assert(seq![RemoteCall::DescribeStreams].drop_first() =~= Seq::<RemoteCall>::empty());
    assert(seq![RemoteCall::CreateGroup].drop_first() =~= Seq::<RemoteCall>::empty());
    assert(seq![RemoteCall::CreateStream].drop_first() =~= Seq::<RemoteCall>::empty());
}

/// Counting over the plan's four pieces is the sum over each piece.
proof fn lemma_count_pieces(
    p1: Seq<RemoteCall>,
    p2: Seq<RemoteCall>,
    p3: Seq<RemoteCall>,
    p4: Seq<RemoteCall>,
    c: RemoteCall,
)
    ensures
        spec_count_calls(p1 + p2 + p3 + p4, c) == spec_count_calls(p1, c) + spec_count_calls(p2, c)
            + spec_count_calls(p3, c) + spec_count_calls(p4, c),
{
    lemma_count_calls_concat(p1 + p2 + p3, p4, c);
    lemma_count_calls_concat(p1 + p2, p3, c);
    lemma_count_calls_concat(p1, p2, c);
}

/// A failed call moves the policy to its failed phase, whatever it was
/// doing, and no further call is pending from there on.
pub proof fn lemma_failure_stops_calls(m: InitMachine)
    ensures
        spec_step(m, CallOutcome::Failed).phase == InitPhase::Failed,
        spec_pending_call(spec_step(m, CallOutcome::Failed)) is None,
{
}

/// The policy's reading of a group query: some matching group came back.
pub fn group_query_outcome(groups_returned: usize) -> (r: CallOutcome)
    ensures
        r == (CallOutcome::GroupQuery { exists: groups_returned > 0 }),
{
    CallOutcome::GroupQuery { exists: groups_returned > 0 }
}

/// Whether some returned stream record carries exactly the name `target`.
pub open spec fn spec_some_name_matches(names: Seq<Option<String>>, target: Seq<char>) -> bool {
    exists|i: int| 0 <= i < names.len() && ((#[trigger] names[i]) matches Some(n) && n@ == target)
}

/// The policy's reading of a stream query: the prefix-filtered records hold
/// a stream whose name equals the effective name exactly.
pub fn stream_query_outcome(names: &Vec<Option<String>>, target: &str) -> (r: CallOutcome)
    ensures
        r == (CallOutcome::StreamQuery { exists: spec_some_name_matches(names@, target@) }),
{
    let target_owned: String = target.to_owned();
    let mut found = false;
    let mut i: usize = 0;
    while i < names.len()
        invariant
            0 <= i <= names@.len(),
            target_owned@ == target@,
            found == spec_some_name_matches(names@.take(i as int), target@),
        decreases names@.len() - i,
    {
        match &names[i] {
            Some(n) => {
                if n.eq(&target_owned) {
                    found = true;
                }
            },
            None => {},
        }
        proof {
            assert(names@.take(i + 1 as int).drop_last() =~= names@.take(i as int));
            assert(names@.take(i + 1 as int).last() == names@[i as int]);
        }
        i = i + 1;
    }
    proof {
        assert(names@.take(names@.len() as int) =~= names@);
    }
    CallOutcome::StreamQuery { exists: found }
}

} // verus!
