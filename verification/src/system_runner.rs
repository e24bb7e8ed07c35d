//! Rerunning the current program under the `LocalSystem` account
//!
//! The program is run several times in stages:
//! - "Initial": the first invocation of the program
//! - "Admin": running as Administrator
//! - "System": running under the `LocalSystem` account
//! - "Payload": running under the `LocalSystem` account again, with its standard IO forwarded to the initial stage
//!
//! The stage of a process, together with the id of the pipeline of processes it belongs to, is passed as the first
//! command line argument, in the form `__system_runner__.<pipeline id>.<stage id>`. The other arguments are passed on
//! verbatim. Each process waits for the next one and exits with its exit code.

use vstd::prelude::*;

use crate::text::{decimal_digits, digit_char, push_decimal_digits};

verus! {

/// The exit code by which a stage tells that rerunning the program failed
pub const INTERNAL_ERROR_CODE: i32 = -2147483648;

/// Whether `c` is an ASCII decimal digit
pub open spec fn is_digit(c: char) -> bool {
    48 <= (c as u32) && (c as u32) <= 57
}

/// Whether all characters of `s` are ASCII decimal digits
pub open spec fn all_digits(s: Seq<char>) -> bool {
    forall|i: int| 0 <= i < s.len() ==> is_digit(#[trigger] s[i])
}

/// The number written by the decimal digits `s`
pub open spec fn digits_value(s: Seq<char>) -> nat
    decreases s.len(),
{
    if s.len() == 0 {
        0
    } else {
        digits_value(s.drop_last()) * 10 + ((s.last() as u32) - 48) as nat
    }
}

/// The digits of a number written with an optional leading `+`
pub open spec fn unsigned_digits(s: Seq<char>) -> Seq<char> {
    if s.len() > 0 && s[0] == '+' {
        s.drop_first()
    } else {
        s
    }
}

/// The `u32` written in `s` in decimal, with an optional leading `+`, if any
pub open spec fn parse_u32(s: Seq<char>) -> Option<u32> {
    let d = unsigned_digits(s);
    if d.len() == 0 || !all_digits(d) || digits_value(d) > u32::MAX {
        None
    } else {
        Some(digits_value(d) as u32)
    }
}

/// The value of a prefix of digits is at most the value of all the digits
proof fn lemma_digits_value_prefix(s: Seq<char>, i: int)
    requires
        0 <= i <= s.len(),
        all_digits(s),
    ensures
        digits_value(s.take(i)) <= digits_value(s),
    decreases s.len() - i,
{
    if i < s.len() {
        lemma_digits_value_prefix(s, i + 1);
        assert(s.take(i + 1).drop_last() =~= s.take(i));
        assert(is_digit(s[i]));
    } else {
        assert(s.take(i) =~= s);
    }
}

/// Parses a `u32` written in decimal, with an optional leading `+`
fn parse_u32_exec(s: &str) -> (r: Option<u32>)
    ensures
        r == parse_u32(s@),
{
    let len = s.unicode_len();
    if len == 0 {
        return None;
    }
    let start: usize = if s.get_char(0) == '+' {
        1
    } else {
        0
    };
    let ghost d = unsigned_digits(s@);
    assert(d =~= s@.skip(start as int));
    if start == len {
        return None;
    }
    let mut i: usize = start;
    let mut value: u64 = 0;
    while i < len
        invariant
            len == s@.len(),
            start <= i <= len,
            d == s@.skip(start as int),
            d == unsigned_digits(s@),
            all_digits(d.take(i - start)),
            value == digits_value(d.take(i - start)),
            value <= u32::MAX,
        decreases len - i,
    {
        let c = s.get_char(i);
        let code = c as u32;
        if code < 48 || code > 57 {
            assert(!all_digits(d)) by {
                assert(d[i - start] == c);
            }
            return None;
        }
        assert(d.take(i + 1 - start).drop_last() =~= d.take(i - start));
        assert(d.take(i + 1 - start).last() == c);
        value = value * 10 + (code - 48) as u64;
        assert(value == digits_value(d.take(i + 1 - start)));
        assert(all_digits(d.take(i + 1 - start))) by {
            assert forall|j: int| 0 <= j < d.take(i + 1 - start).len() implies is_digit(
                #[trigger] d.take(i + 1 - start)[j],
            ) by {
                if j < i - start {
                    assert(d.take(i + 1 - start)[j] == d.take(i - start)[j]);
                }
            }
        }
        if value > 0xFFFF_FFFF {
            assert(!all_digits(d) || digits_value(d) > u32::MAX) by {
                if all_digits(d) {
                    lemma_digits_value_prefix(d, i + 1 - start);
                }
            }
            return None;
        }
        i += 1;
    }
    assert(d.take(len - start) =~= d);
    Some(value as u32)
}

/// The id of a pipeline of processes running the program in stages
#[derive(Clone, Copy, Debug, PartialEq, Eq, Structural)]
pub struct PipelineId(pub u32);

/// The name of a named pipe of a pipeline with the given id, for the given key
pub open spec fn pipe_name(id: u32, key: Seq<char>) -> Seq<char> {
    "__system_runner__."@ + decimal_digits(id as nat) + "."@ + key
}

impl PipelineId {
    /// Creates the id of a pipeline started by the process with the given id
    pub fn new(process_id: u32) -> (r: Self)
        ensures
            r.0 == process_id,
    {
        PipelineId(process_id)
    }

    /// Parses a pipeline id written in decimal
    pub fn from_str(s: &str) -> (r: Option<Self>)
        ensures
            r == match parse_u32(s@) {
                Some(id) => Some(PipelineId(id)),
                None => None::<PipelineId>,
            },
    {
        match parse_u32_exec(s) {
            Some(id) => Some(PipelineId(id)),
            None => None,
        }
    }

    /// Returns the name of the named pipe of this pipeline for the given key
    pub fn to_pipe_name(self, key: &str) -> (r: String)
        ensures
            r@ == pipe_name(self.0, key@),
    {
        let mut out = String::from_str("__system_runner__.");
        push_decimal_digits(&mut out, self.0 as u64);
        out.append(".");
        out.append(key);
        out
    }

    /// Renders this pipeline id in decimal
    pub fn to_string(&self) -> (r: String)
        ensures
            r@ == decimal_digits(self.0 as nat),
    {
        let mut out = String::new();
        push_decimal_digits(&mut out, self.0 as u64);
        assert(out@ =~= decimal_digits(self.0 as nat));
        out
    }
}

/// A stage of running the program
#[derive(Clone, Copy, Debug, PartialEq, Eq, Structural)]
pub enum Stage {
    /// The first invocation of the program
    Initial,
    /// Running as Administrator
    Admin,
    /// Running under the `LocalSystem` account
    System,
    /// Running under the `LocalSystem` account with standard IO forwarded to the initial stage
    Payload,
}

/// The id of a stage
pub open spec fn stage_id(stage: Stage) -> Seq<char> {
    match stage {
        Stage::Initial => seq!['0'],
        Stage::Admin => seq!['1'],
        Stage::System => seq!['2'],
        Stage::Payload => seq!['3'],
    }
}

/// The stage with the given id, if any
pub open spec fn stage_from_id(id: Seq<char>) -> Option<Stage> {
    if id == seq!['0'] {
        Some(Stage::Initial)
    } else if id == seq!['1'] {
        Some(Stage::Admin)
    } else if id == seq!['2'] {
        Some(Stage::System)
    } else if id == seq!['3'] {
        Some(Stage::Payload)
    } else {
        None
    }
}

/// The stage following the given one, if any
pub open spec fn next_stage(stage: Stage) -> Option<Stage> {
    match stage {
        Stage::Initial => Some(Stage::Admin),
        Stage::Admin => Some(Stage::System),
        Stage::System => Some(Stage::Payload),
        Stage::Payload => None,
    }
}

impl Stage {
    /// Returns the id of this stage
    pub fn id(self) -> (r: &'static str)
        ensures
            r@ == stage_id(self),
    {
        proof {
            reveal_strlit("0");
            reveal_strlit("1");
            reveal_strlit("2");
            reveal_strlit("3");
        }
        match self {
            Stage::Initial => "0",
            Stage::Admin => "1",
            Stage::System => "2",
            Stage::Payload => "3",
        }
    }

    /// Returns the stage with the given id, or `None` if there is none
    pub fn from_id(id: &str) -> (r: Option<Self>)
        ensures
            r == stage_from_id(id@),
    {
        if id.unicode_len() != 1 {
            assert(id@ != seq!['0'] && id@ != seq!['1'] && id@ != seq!['2'] && id@ != seq!['3']);
            return None;
        }
        let c = id.get_char(0);
        if c == '0' {
            assert(id@ =~= seq!['0']);
            Some(Stage::Initial)
        } else if c == '1' {
            assert(id@ =~= seq!['1']);
            Some(Stage::Admin)
        } else if c == '2' {
            assert(id@ =~= seq!['2']);
            Some(Stage::System)
        } else if c == '3' {
            assert(id@ =~= seq!['3']);
            Some(Stage::Payload)
        } else {
            assert(id@ != seq!['0'] && id@ != seq!['1'] && id@ != seq!['2'] && id@ != seq!['3']) by {
                assert(seq!['0'][0] == '0' && seq!['1'][0] == '1' && seq!['2'][0] == '2' && seq!['3'][0] == '3');
            }
            None
        }
    }

    /// Returns the stage following this one, or `None` for the last stage
    pub fn next(self) -> (r: Option<Self>)
        ensures
            r == next_stage(self),
    {
        match self {
            Stage::Initial => Some(Stage::Admin),
            Stage::Admin => Some(Stage::System),
            Stage::System => Some(Stage::Payload),
            Stage::Payload => None,
        }
    }
}

/// The stage of a process together with the id of its pipeline
#[derive(Clone, Copy, Debug, PartialEq, Eq, Structural)]
pub struct State {
    pub pipeline_id: PipelineId,
    pub stage: Stage,
}

/// Whether `i` is the index of the first `.` in `s`
pub open spec fn is_first_dot(s: Seq<char>, i: int) -> bool {
    0 <= i < s.len() && s[i] == '.' && forall|j: int| 0 <= j < i ==> s[j] != '.'
}

/// Whether `s` contains a `.`
pub open spec fn has_dot(s: Seq<char>) -> bool {
    exists|i: int| is_first_dot(s, i)
}

/// The index of the first `.` in `s`, if it has one
pub open spec fn first_dot(s: Seq<char>) -> int {
    choose|i: int| is_first_dot(s, i)
}

/// The part of `s` before its first `.`, or all of `s` if it has none
pub open spec fn before_dot(s: Seq<char>) -> Seq<char> {
    if has_dot(s) {
        s.take(first_dot(s))
    } else {
        s
    }
}

/// The state passed in the given argument, if it passes one
///
/// The argument consists of the prefix `__system_runner__.` and parts separated by `.`, of which the first is the
/// pipeline id and the second the stage id. Further parts are ignored.
pub open spec fn state_from_arg(arg: Seq<char>) -> Option<State> {
    let prefix = "__system_runner__."@;
    if arg.len() < prefix.len() || arg.take(prefix.len() as int) != prefix {
        None
    } else {
        let rest = arg.skip(prefix.len() as int);
        if !has_dot(rest) {
            None
        } else {
            let first = rest.take(first_dot(rest));
            let second = before_dot(rest.skip(first_dot(rest) + 1));
            match (parse_u32(first), stage_from_id(second)) {
                (Some(id), Some(stage)) => Some(State { pipeline_id: PipelineId(id), stage }),
                _ => None,
            }
        }
    }
}

/// The argument passing the given state
pub open spec fn state_arg(state: State) -> Seq<char> {
    "__system_runner__."@ + decimal_digits(state.pipeline_id.0 as nat) + "."@ + stage_id(state.stage)
}

/// The first `.` is unique
proof fn lemma_first_dot_unique(s: Seq<char>, i: int)
    requires
        is_first_dot(s, i),
    ensures
        has_dot(s),
        first_dot(s) == i,
{
    assert(has_dot(s));
    let k = first_dot(s);
    assert(is_first_dot(s, k));
    if k < i {
        assert(s[k] != '.');
    } else if i < k {
        assert(s[i] != '.');
    }
}

/// Finds the index of the first `.` in `s`, if any
fn find_dot(s: &str) -> (r: Option<usize>)
    ensures
        match r {
            Some(i) => is_first_dot(s@, i as int),
            None => !has_dot(s@),
        },
{
    let len = s.unicode_len();
    let mut i: usize = 0;
    while i < len
        invariant
            len == s@.len(),
            i <= len,
            forall|j: int| 0 <= j < i ==> s@[j] != '.',
        decreases len - i,
    {
        if s.get_char(i) == '.' {
            return Some(i);
        }
        i += 1;
    }
    assert(!has_dot(s@)) by {
        if has_dot(s@) {
            let k = choose|k: int| is_first_dot(s@, k);
            assert(s@[k] == '.');
        }
    }
    None
}

/// Returns whether `arg` starts with `prefix`
fn starts_with(arg: &str, prefix: &str) -> (r: bool)
    ensures
        r == (arg@.len() >= prefix@.len() && arg@.take(prefix@.len() as int) == prefix@),
{
    let n = prefix.unicode_len();
    if arg.unicode_len() < n {
        return false;
    }
    let mut i: usize = 0;
    while i < n
        invariant
            n == prefix@.len(),
            n <= arg@.len(),
            i <= n,
            forall|j: int| 0 <= j < i ==> arg@[j] == prefix@[j],
        decreases n - i,
    {
        if arg.get_char(i) != prefix.get_char(i) {
            assert(arg@.take(n as int)[i as int] != prefix@[i as int]);
            return false;
        }
        i += 1;
    }
    assert(arg@.take(n as int) =~= prefix@);
    true
}

impl State {
    /// Returns the state of the initial stage of a pipeline started by the process with the given id
    pub fn initial(process_id: u32) -> (r: Self)
        ensures
            r.pipeline_id.0 == process_id,
            r.stage == Stage::Initial,
    {
        State { pipeline_id: PipelineId::new(process_id), stage: Stage::Initial }
    }

    /// Returns the state of the next stage of the same pipeline, or `None` for the last stage
    pub fn next(self) -> (r: Option<Self>)
        ensures
            r == match next_stage(self.stage) {
                Some(stage) => Some(State { pipeline_id: self.pipeline_id, stage }),
                None => None::<State>,
            },
    {
        match self.stage.next() {
            Some(stage) => Some(State { pipeline_id: self.pipeline_id, stage }),
            None => None,
        }
    }

    /// Returns the state passed in the given argument, or `None` if it passes none
    pub fn from_arg(arg: &str) -> (r: Option<Self>)
        ensures
            r == state_from_arg(arg@),
    {
        let prefix = "__system_runner__.";
        if !starts_with(arg, prefix) {
            return None;
        }
        let n = prefix.unicode_len();
        let len = arg.unicode_len();
        let rest = arg.substring_char(n, len);
        assert(rest@ =~= arg@.skip(prefix@.len() as int));
        let k = match find_dot(rest) {
            Some(k) => k,
            None => return None,
        };
        proof {
            lemma_first_dot_unique(rest@, k as int);
        }
        let rest_len = rest.unicode_len();
        let first = rest.substring_char(0, k);
        let tail = rest.substring_char(k + 1, rest_len);
        assert(first@ =~= rest@.take(k as int));
        assert(tail@ =~= rest@.skip(k + 1));
        let second = match find_dot(tail) {
            Some(j) => {
                proof {
                    lemma_first_dot_unique(tail@, j as int);
                }
                let s = tail.substring_char(0, j);
                assert(s@ =~= tail@.take(j as int));
                s
            },
            None => tail,
        };
        let pipeline_id = match PipelineId::from_str(first) {
            Some(id) => id,
            None => return None,
        };
        let stage = match Stage::from_id(second) {
            Some(stage) => stage,
            None => return None,
        };
        Some(State { pipeline_id, stage })
    }

    /// Returns the argument passing this state
    pub fn to_arg(self) -> (r: String)
        ensures
            r@ == state_arg(self),
    {
        let mut out = String::from_str("__system_runner__.");
        let id = self.pipeline_id.to_string();
        out.append(id.as_str());
        out.append(".");
        out.append(self.stage.id());
        out
    }
}

/// The decimal digits of a number are digits and are read back as the number
proof fn lemma_decimal_digits(v: nat)
    ensures
        decimal_digits(v).len() > 0,
        all_digits(decimal_digits(v)),
        digits_value(decimal_digits(v)) == v,
    decreases v,
{
    let s = decimal_digits(v);
    if v < 10 {
        assert(s.drop_last() =~= Seq::<char>::empty());
        assert((s.last() as u32) == 48 + v);
        assert(digits_value(s) == digits_value(s.drop_last()) * 10 + ((s.last() as u32) - 48) as nat);
        assert(digits_value(s.drop_last()) == 0);
    } else {
        lemma_decimal_digits(v / 10);
        assert(s.drop_last() =~= decimal_digits(v / 10));
        assert(s.last() == digit_char(v % 10, true));
        assert((s.last() as u32) == 48 + v % 10);
        assert(digits_value(s) == digits_value(s.drop_last()) * 10 + ((s.last() as u32) - 48) as nat);
        assert(v == (v / 10) * 10 + v % 10) by (nonlinear_arith);
        assert(all_digits(s)) by {
            assert forall|i: int| 0 <= i < s.len() implies is_digit(#[trigger] s[i]) by {
                if i < s.len() - 1 {
                    assert(s[i] == decimal_digits(v / 10)[i]);
                }
            }
        }
    }
}

/// Reading a pipeline id back from its decimal rendering gives the pipeline id
pub proof fn lemma_pipeline_id_round_trip(id: PipelineId)
    ensures
        parse_u32(decimal_digits(id.0 as nat)) == Some(id.0),
{
    lemma_decimal_digits(id.0 as nat);
    let d = decimal_digits(id.0 as nat);
    assert(is_digit(d[0]));
    assert(unsigned_digits(d) == d);
}

/// Reading a stage back from its id gives the stage
pub proof fn lemma_stage_id_round_trip(stage: Stage)
    ensures
        stage_from_id(stage_id(stage)) == Some(stage),
{
    assert(seq!['0'] != seq!['1']) by {
        assert(seq!['0'][0] != seq!['1'][0]);
    }
    assert(seq!['0'] != seq!['2']) by {
        assert(seq!['0'][0] != seq!['2'][0]);
    }
    assert(seq!['0'] != seq!['3']) by {
        assert(seq!['0'][0] != seq!['3'][0]);
    }
    assert(seq!['1'] != seq!['2']) by {
        assert(seq!['1'][0] != seq!['2'][0]);
    }
    assert(seq!['1'] != seq!['3']) by {
        assert(seq!['1'][0] != seq!['3'][0]);
    }
    assert(seq!['2'] != seq!['3']) by {
        assert(seq!['2'][0] != seq!['3'][0]);
    }
}

/// Splitting the digits of a pipeline id and a stage id joined by a `.` gives them back
proof fn lemma_split_ids(digits: Seq<char>, id: Seq<char>)
    requires
        all_digits(digits),
        id.len() == 1,
        id[0] != '.',
    ensures
        has_dot(digits + seq!['.'] + id),
        (digits + seq!['.'] + id).take(first_dot(digits + seq!['.'] + id)) == digits,
        before_dot((digits + seq!['.'] + id).skip(first_dot(digits + seq!['.'] + id) + 1)) == id,
{
    let rest = digits + seq!['.'] + id;
    assert(is_first_dot(rest, digits.len() as int)) by {
        assert forall|j: int| 0 <= j < digits.len() implies rest[j] != '.' by {
            assert(rest[j] == digits[j]);
            assert(is_digit(digits[j]));
        }
    }
    lemma_first_dot_unique(rest, digits.len() as int);
    assert(rest.take(digits.len() as int) =~= digits);
    assert(rest.skip(digits.len() as int + 1) =~= id);
    assert(!has_dot(id)) by {
        if has_dot(id) {
            let k = first_dot(id);
            assert(is_first_dot(id, k));
        }
    }
}

/// Reading a state back from the argument passing it gives the state
pub proof fn lemma_state_arg_round_trip(state: State)
    ensures
        state_from_arg(state_arg(state)) == Some(state),
{
    reveal_strlit(".");
    let prefix = "__system_runner__."@;
    let digits = decimal_digits(state.pipeline_id.0 as nat);
    let id = stage_id(state.stage);
    let arg = state_arg(state);
    lemma_decimal_digits(state.pipeline_id.0 as nat);
    lemma_pipeline_id_round_trip(state.pipeline_id);
    lemma_stage_id_round_trip(state.stage);
    assert(id.len() == 1 && id[0] != '.');
    lemma_split_ids(digits, id);
    let rest = digits + seq!['.'] + id;
    assert(arg =~= prefix + rest);
    assert(arg.take(prefix.len() as int) =~= prefix);
    assert(arg.skip(prefix.len() as int) =~= rest);
}

/// A run of the program in some stage, with the arguments it passes on to the next stage
pub struct SystemRunner {
    /// The arguments passed on verbatim
    pub args: Vec<String>,
    /// The stage of this run and the id of its pipeline
    pub state: State,
}

/// What a run of the program does to ensure running under the `LocalSystem` account
pub enum RunnerStep {
    /// Rerun the program as Administrator with the given first argument and forward its standard IO; then exit with
    /// its exit code
    RerunAsAdmin { first_arg: String },
    /// Rerun the program under the `LocalSystem` account with the given first argument; then exit with its exit code
    RerunAsSystem { first_arg: String },
    /// Rerun the program with the given first argument and its standard IO forwarded to the initial stage; then exit
    /// with its exit code
    RerunPayload { first_arg: String },
    /// The program runs under the `LocalSystem` account: go on with its actual work
    Proceed,
}

/// Whether `step` is what a run of the program in the given state does
pub open spec fn runner_step_matches(state: State, step: RunnerStep) -> bool {
    let next = |stage: Stage| state_arg(State { pipeline_id: state.pipeline_id, stage });
    match state.stage {
        Stage::Initial => step matches RunnerStep::RerunAsAdmin { first_arg } && first_arg@ == next(Stage::Admin),
        Stage::Admin => step matches RunnerStep::RerunAsSystem { first_arg } && first_arg@ == next(Stage::System),
        Stage::System => step matches RunnerStep::RerunPayload { first_arg } && first_arg@ == next(Stage::Payload),
        Stage::Payload => step is Proceed,
    }
}

impl SystemRunner {
    /// Determines the run from the command line arguments, not counting the name of the program, and the id of the
    /// current process
    ///
    /// If the first argument passes a state, this is a later stage of a pipeline and the other arguments are passed
    /// on; otherwise this is the initial stage of a new pipeline and all arguments are passed on.
    pub fn from_args(args: Vec<String>, process_id: u32) -> (r: Self)
        ensures
            args@.len() > 0 && state_from_arg(args@[0]@) is Some ==> r.state == state_from_arg(args@[0]@)->Some_0
                && r.args@ == args@.drop_first(),
            !(args@.len() > 0 && state_from_arg(args@[0]@) is Some) ==> r.state == (State {
                pipeline_id: PipelineId(process_id),
                stage: Stage::Initial,
            }) && r.args@ == args@,
    {
        let ghost given = args@;
        let mut args = args;
        if args.len() > 0 {
            match State::from_arg(args[0].as_str()) {
                Some(state) => {
                    let _ = args.remove(0);
                    assert(args@ =~= given.drop_first());
                    return SystemRunner { args, state };
                },
                None => {},
            }
        }
        SystemRunner { args, state: State::initial(process_id) }
    }

    /// Decides what this run does to ensure running under the `LocalSystem` account
    ///
    /// Every stage but the last reruns the program in the next stage, passing the state of the next stage as the
    /// first argument.
    pub fn ensure_running_as_system(&self) -> (r: RunnerStep)
        ensures
            runner_step_matches(self.state, r),
    {
        match self.state.next() {
            None => RunnerStep::Proceed,
            Some(next) => {
                let first_arg = next.to_arg();
                match self.state.stage {
                    Stage::Initial => RunnerStep::RerunAsAdmin { first_arg },
                    Stage::Admin => RunnerStep::RerunAsSystem { first_arg },
                    _ => RunnerStep::RerunPayload { first_arg },
                }
            },
        }
    }
}

/// Decides what the current run of the program does to ensure running under the `LocalSystem` account, given its
/// command line arguments, not counting the name of the program, and the id of its process
pub fn ensure_running_as_system(args: Vec<String>, process_id: u32) -> (r: (SystemRunner, RunnerStep))
    ensures
        args@.len() > 0 && state_from_arg(args@[0]@) is Some ==> r.0.state == state_from_arg(args@[0]@)->Some_0
            && r.0.args@ == args@.drop_first(),
        !(args@.len() > 0 && state_from_arg(args@[0]@) is Some) ==> r.0.state == (State {
            pipeline_id: PipelineId(process_id),
            stage: Stage::Initial,
        }) && r.0.args@ == args@,
        runner_step_matches(r.0.state, r.1),
{
    let runner = SystemRunner::from_args(args, process_id);
    let step = runner.ensure_running_as_system();
    (runner, step)
}

/// The message of the error that the initial stage reports when a later stage failed to rerun the program
pub open spec fn rerun_failed_text() -> Seq<char> {
    "rerunning as system failed"@
}

/// The message of the error reported when rerunning under the `LocalSystem` account exited with the given code
pub open spec fn system_failed_text(exit_code: i32) -> Seq<char> {
    "PAExec failed with exit code -"@ + decimal_digits((-exit_code) as nat)
}

/// Decides how the initial stage ends, given the exit code of the stage it ran: exit with that code, or fail if a
/// later stage failed to rerun the program
pub fn initial_exit(exit_code: i32) -> (r: Result<i32, String>)
    ensures
        exit_code == INTERNAL_ERROR_CODE ==> (r matches Err(message) && message@ == rerun_failed_text()),
        exit_code != INTERNAL_ERROR_CODE ==> r == Ok::<i32, String>(exit_code),
{
    if exit_code == INTERNAL_ERROR_CODE {
        Err(String::from_str("rerunning as system failed"))
    } else {
        Ok(exit_code)
    }
}

/// Decides the outcome of rerunning the program under the `LocalSystem` account, given the exit code of the rerun
///
/// A negative exit code other than [`INTERNAL_ERROR_CODE`] comes from the tool that reruns the program, not from the
/// program, and tells that rerunning failed.
pub fn system_exit(exit_code: i32) -> (r: Result<i32, String>)
    ensures
        exit_code == INTERNAL_ERROR_CODE || exit_code >= 0 ==> r == Ok::<i32, String>(exit_code),
        !(exit_code == INTERNAL_ERROR_CODE || exit_code >= 0) ==> (r matches Err(message) && message@
            == system_failed_text(exit_code)),
{
    if exit_code == INTERNAL_ERROR_CODE || exit_code >= 0 {
        Ok(exit_code)
    } else {
        let mut message = String::from_str("PAExec failed with exit code -");
        let magnitude: i32 = -exit_code;
        push_decimal_digits(&mut message, magnitude as u64);
        Err(message)
    }
}

} // verus!
