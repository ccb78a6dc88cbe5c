//! Execution plans: the ordered steps that an operation has decided on, and the
//! runner that hands them out one at a time and stops at the first failure.

use vstd::prelude::*;
use vstd::string::*;
use crate::command::{preview_line, Call, Invocation};
use crate::error::{ErrorKind, Fault, MeshstackError};
use crate::text::{push_line, texts};

verus! {

/// One step of a plan.
#[derive(Debug)]
pub enum Step {
    /// A line for standard output.
    Say(String),
    /// A probe for a tool: a failure of the call means the tool is unavailable,
    /// and `remedy` is the message of that failure.
    Check { call: Invocation, remedy: String },
    /// An external process to run. On success `done` is reported, followed by
    /// what the process printed where `echo` is set.
    Spawn { call: Invocation, done: String, echo: bool },
    /// A call that is named and not run.
    Preview(Invocation),
    /// The base templates are copied into the project.
    SyncTemplates,
    /// The plan ends here with this failure.
    Halt(MeshstackError),
}

/// The mathematical content of a [`Step`].
pub enum Move {
    Say(Seq<char>),
    Check { call: Call, remedy: Seq<char> },
    Spawn { call: Call, done: Seq<char>, echo: bool },
    Preview(Call),
    SyncTemplates,
    Halt(Fault),
}

impl View for Step {
    type V = Move;

    open spec fn view(&self) -> Move {
        match *self {
            Step::Say(line) => Move::Say(line@),
            Step::Check { call, remedy } => Move::Check { call: call@, remedy: remedy@ },
            Step::Spawn { call, done, echo } => Move::Spawn { call: call@, done: done@, echo },
            Step::Preview(call) => Move::Preview(call@),
            Step::SyncTemplates => Move::SyncTemplates,
            Step::Halt(e) => Move::Halt(e@),
        }
    }
}

impl Move {
    /// Whether carrying out the step starts an external process.
    pub open spec fn spawns(self) -> bool {
        self is Check || self is Spawn
    }
}

/// The moves held by a list of steps, in order.
pub open spec fn moves(steps: Seq<Step>) -> Seq<Move> {
    steps.map_values(|s: Step| s@)
}

/// How many steps of a plan start an external process.
pub open spec fn spawn_count(plan: Seq<Move>) -> nat
    decreases plan.len(),
{
    if plan.len() == 0 {
        0
    } else {
        spawn_count(plan.drop_last()) + if plan.last().spawns() {
            1nat
        } else {
            0nat
        }
    }
}

/// The calls that a plan previews, in order.
pub open spec fn previews(plan: Seq<Move>) -> Seq<Call>
    decreases plan.len(),
{
    if plan.len() == 0 {
        seq![]
    } else {
        match plan.last() {
            Move::Preview(call) => previews(plan.drop_last()).push(call),
            _ => previews(plan.drop_last()),
        }
    }
}

/// The calls that a plan runs for effect, in order (probes are not among them).
pub open spec fn spawned(plan: Seq<Move>) -> Seq<Call>
    decreases plan.len(),
{
    if plan.len() == 0 {
        seq![]
    } else {
        match plan.last() {
            Move::Spawn { call, .. } => spawned(plan.drop_last()).push(call),
            _ => spawned(plan.drop_last()),
        }
    }
}

/// Whether a plan ends in a planned failure.
pub open spec fn halted(plan: Seq<Move>) -> bool {
    plan.len() > 0 && plan.last() is Halt
}

/// One plan after the other, unless the first ends in a planned failure:
/// nothing is planned behind a failure.
pub open spec fn continued(first: Seq<Move>, second: Seq<Move>) -> Seq<Move> {
    if halted(first) {
        first
    } else {
        first + second
    }
}

/// A call that is run where changes are applied, and named where they are
/// only previewed.
pub open spec fn run_or_preview(call: Call, done: Seq<char>, dry_run: bool) -> Move {
    if dry_run {
        Move::Preview(call)
    } else {
        Move::Spawn { call, done, echo: true }
    }
}

/// Appends one step to a plan.
pub fn push_step(plan: &mut Vec<Step>, step: Step)
    ensures
        moves(final(plan)@) == moves(old(plan)@).push(step@),
{
    plan.push(step);
    assert(moves(plan@) =~= moves(old(plan)@).push(step@));
}

/// Appends a line for standard output to a plan.
pub fn say(plan: &mut Vec<Step>, line: &str)
    ensures
        moves(final(plan)@) == moves(old(plan)@).push(Move::Say(line@)),
{
    push_step(plan, Step::Say(String::from_str(line)));
}

/// Appends a line made of a fixed part and a variable part to a plan.
pub fn say_about(plan: &mut Vec<Step>, prefix: &str, subject: &str)
    ensures
        moves(final(plan)@) == moves(old(plan)@).push(Move::Say(prefix@ + subject@)),
{
    let mut line = String::from_str(prefix);
    line.append(subject);
    push_step(plan, Step::Say(line));
}

/// Appends a call to a plan: to be run, or only named when previewing.
pub fn push_call(plan: &mut Vec<Step>, call: Invocation, done: String, dry_run: bool)
    ensures
        moves(final(plan)@) == moves(old(plan)@).push(run_or_preview(call@, done@, dry_run)),
{
    if dry_run {
        push_step(plan, Step::Preview(call));
    } else {
        push_step(plan, Step::Spawn { call, done, echo: true });
    }
}

/// Appends the steps of `more` to a plan, in order.
pub fn push_steps(plan: &mut Vec<Step>, more: Vec<Step>)
    ensures
        moves(final(plan)@) == moves(old(plan)@) + moves(more@),
{
    let mut rest = more;
    plan.append(&mut rest);
    assert(moves(plan@) =~= moves(old(plan)@) + moves(more@));
}

/// Whether a plan ends in a planned failure.
pub fn is_halted(plan: &Vec<Step>) -> (r: bool)
    ensures
        r == halted(moves(plan@)),
{
    if plan.len() == 0 {
        return false;
    }
    match &plan[plan.len() - 1] {
        Step::Halt(_) => true,
        _ => false,
    }
}

/// What an external process left behind.
#[derive(Debug)]
pub struct ToolOutcome {
    pub success: bool,
    pub stdout: String,
    pub stderr: String,
}

/// The mathematical content of a [`ToolOutcome`].
pub struct Exit {
    pub success: bool,
    pub stdout: Seq<char>,
    pub stderr: Seq<char>,
}

impl View for ToolOutcome {
    type V = Exit;

    open spec fn view(&self) -> Exit {
        Exit { success: self.success, stdout: self.stdout@, stderr: self.stderr@ }
    }
}

/// The failure of a call that ran and exited with a failure status: both
/// output streams are passed on as they came.
pub open spec fn invocation_failed(label: Seq<char>, exit: Exit) -> Fault {
    Fault {
        kind: ErrorKind::ToolInvocationFailed,
        message: label + " command failed:\nStdout: "@ + exit.stdout + "\nStderr: "@ + exit.stderr,
    }
}

/// What a step that ran a process comes to, given how the process ended: the
/// line to report (if any), or the failure that ends the plan. A step that runs
/// no process comes to nothing.
pub open spec fn settled(step: Move, exit: Exit) -> Result<Option<Seq<char>>, Fault> {
    match step {
        Move::Check { call, remedy } => if exit.success {
            Ok(None)
        } else {
            Err(Fault { kind: ErrorKind::ToolUnavailable, message: remedy })
        },
        Move::Spawn { call, done, echo } => if exit.success {
            Ok(
                Some(
                    if echo {
                        done + "\n"@ + exit.stdout
                    } else {
                        done
                    },
                ),
            )
        } else {
            Err(invocation_failed(call.label, exit))
        },
        _ => Ok(None),
    }
}

/// What the driver of a plan is asked to do next.
#[derive(Debug)]
pub enum Directive {
    /// Write the line to standard output.
    Print(String),
    /// Run the call and report how it ended.
    Execute(Invocation),
    /// Copy the base templates into the project.
    CopyTemplates,
    /// Nothing is left to do.
    Finish,
    /// Stop with this failure.
    Fail(MeshstackError),
}

/// The mathematical content of a [`Directive`].
pub enum Order {
    Print(Seq<char>),
    Execute(Call),
    CopyTemplates,
    Finish,
    Fail(Fault),
}

impl View for Directive {
    type V = Order;

    open spec fn view(&self) -> Order {
        match *self {
            Directive::Print(line) => Order::Print(line@),
            Directive::Execute(call) => Order::Execute(call@),
            Directive::CopyTemplates => Order::CopyTemplates,
            Directive::Finish => Order::Finish,
            Directive::Fail(e) => Order::Fail(e@),
        }
    }
}

/// What a step asks of the driver.
pub open spec fn order_of(step: Move) -> Order {
    match step {
        Move::Say(line) => Order::Print(line),
        Move::Check { call, .. } => Order::Execute(call),
        Move::Spawn { call, .. } => Order::Execute(call),
        Move::Preview(call) => Order::Print(preview_line(call)),
        Move::SyncTemplates => Order::CopyTemplates,
        Move::Halt(fault) => Order::Fail(fault),
    }
}

/// The state of a run: the plan, how many of its steps are behind, and the
/// failure that ended it, if one did.
pub struct Course {
    pub plan: Seq<Move>,
    pub position: nat,
    pub failure: Option<Fault>,
}

impl Course {
    /// What the driver is asked to do in this state. After a failure nothing
    /// but the failure is handed out; at the end of the plan, `Finish`.
    pub open spec fn order(self) -> Order {
        match self.failure {
            Some(fault) => Order::Fail(fault),
            None => if self.position < self.plan.len() {
                order_of(self.plan[self.position as int])
            } else {
                Order::Finish
            },
        }
    }

    /// The state after the driver has printed or copied what it was asked to:
    /// one step further. In any other state nothing changes.
    pub open spec fn acknowledged(self) -> Course {
        if self.order() is Print || self.order() is CopyTemplates {
            Course { position: self.position + 1, ..self }
        } else {
            self
        }
    }

    /// The state after the process that the driver was asked to run has ended:
    /// one step further where the step is settled, failed where it is not. In
    /// a state that asked for no process nothing changes.
    pub open spec fn completed(self, exit: Exit) -> Course {
        if self.order() is Execute {
            match settled(self.plan[self.position as int], exit) {
                Ok(_) => Course { position: self.position + 1, ..self },
                Err(fault) => Course { failure: Some(fault), ..self },
            }
        } else {
            self
        }
    }

    /// The line to report after the process has ended, if the step has one.
    pub open spec fn report(self, exit: Exit) -> Option<Seq<char>> {
        if self.order() is Execute {
            match settled(self.plan[self.position as int], exit) {
                Ok(line) => line,
                Err(_) => None,
            }
        } else {
            None
        }
    }
}

/// Hands out the steps of a plan in order, one at a time, and stops for good at
/// the first failure. What has been applied stays applied.
#[derive(Debug)]
pub struct Runner {
    plan: Vec<Step>,
    position: usize,
    failure: Option<MeshstackError>,
}

impl View for Runner {
    type V = Course;

    closed spec fn view(&self) -> Course {
        Course {
            plan: moves(self.plan@),
            position: self.position as nat,
            failure: match self.failure {
                Some(e) => Some(e@),
                None => None,
            },
        }
    }
}

fn copy_call(call: &Invocation) -> (r: Invocation)
    ensures
        r@ == call@,
{
    let mut args: Vec<String> = Vec::new();
    let mut i: usize = 0;
    while i < call.args.len()
        invariant
            i <= call.args.len(),
            texts(args@) == texts(call.args@).take(i as int),
        decreases call.args.len() - i,
    {
        push_line(&mut args, call.args[i].clone());
        assert(texts(args@) =~= texts(call.args@).take(i as int + 1));
        i += 1;
    }
    assert(texts(call.args@).take(call.args.len() as int) =~= texts(call.args@));
    Invocation { tool: call.tool, args, label: call.label.clone() }
}

/// What an ended process means for the step that ran it.
pub fn settle(step: &Step, outcome: &ToolOutcome) -> (r: Result<Option<String>, MeshstackError>)
    ensures
        match r {
            Ok(line) => settled(step@, outcome@) == Ok::<Option<Seq<char>>, Fault>(
                crate::text::opt_text(line),
            ),
            Err(e) => settled(step@, outcome@) == Err::<Option<Seq<char>>, Fault>(e@),
        },
{
    match step {
        Step::Check { call, remedy } => {
            if outcome.success {
                Ok(None)
            } else {
                Err(MeshstackError::new(ErrorKind::ToolUnavailable, remedy.clone()))
            }
        },
        Step::Spawn { call, done, echo } => {
            if outcome.success {
                let mut line = done.clone();
                if *echo {
                    line.append("\n");
                    line.append(outcome.stdout.as_str());
                }
                Ok(Some(line))
            } else {
                let mut message = call.label.clone();
                message.append(" command failed:\nStdout: ");
                message.append(outcome.stdout.as_str());
                message.append("\nStderr: ");
                message.append(outcome.stderr.as_str());
                Err(MeshstackError::new(ErrorKind::ToolInvocationFailed, message))
            }
        },
        _ => Ok(None),
    }
}

impl Runner {
    /// A run at the start of `plan`.
    pub fn new(plan: Vec<Step>) -> (r: Runner)
        ensures
            r@ == (Course { plan: moves(plan@), position: 0, failure: None }),
    {
        Runner { plan, position: 0, failure: None }
    }

    /// What the driver is asked to do now.
    pub fn current(&self) -> (r: Directive)
        ensures
            r@ == self@.order(),
    {
        match &self.failure {
            Some(e) => Directive::Fail(e.duplicate()),
            None => {
                if self.position < self.plan.len() {
                    match &self.plan[self.position] {
                        Step::Say(line) => Directive::Print(line.clone()),
                        Step::Check { call, remedy } => Directive::Execute(copy_call(call)),
                        Step::Spawn { call, done, echo } => Directive::Execute(copy_call(call)),
                        Step::Preview(call) => Directive::Print(call.preview()),
                        Step::SyncTemplates => Directive::CopyTemplates,
                        Step::Halt(e) => Directive::Fail(e.duplicate()),
                    }
                } else {
                    Directive::Finish
                }
            },
        }
    }

    /// Records that the driver has printed or copied what it was asked to.
    pub fn acknowledge(&mut self)
        ensures
            final(self)@ == old(self)@.acknowledged(),
    {
        if self.failure.is_none() && self.position < self.plan.len() {
            match &self.plan[self.position] {
                Step::Say(_) | Step::Preview(_) | Step::SyncTemplates => {
                    self.position = self.position + 1;
                },
                _ => {},
            }
        }
    }

    /// Records how the process that the driver was asked to run has ended, and
    /// returns the line to report for it, if the step has one.
    pub fn complete(&mut self, outcome: &ToolOutcome) -> (line: Option<String>)
        ensures
            final(self)@ == old(self)@.completed(outcome@),
            crate::text::opt_text(line) == old(self)@.report(outcome@),
    {
        if self.failure.is_none() && self.position < self.plan.len() {
            match &self.plan[self.position] {
                Step::Check { .. } | Step::Spawn { .. } => {
                    match settle(&self.plan[self.position], outcome) {
                        Ok(line) => {
                            self.position = self.position + 1;
                            return line;
                        },
                        Err(e) => {
                            self.failure = Some(e);
                            return None;
                        },
                    }
                },
                _ => {},
            }
        }
        None
    }
}

/// Counting spawning steps distributes over joining plans.
pub proof fn lemma_spawn_count_add(a: Seq<Move>, b: Seq<Move>)
    ensures
        spawn_count(a + b) == spawn_count(a) + spawn_count(b),
    decreases b.len(),
{
    if b.len() == 0 {
        assert(a + b =~= a);
    } else {
        assert((a + b).drop_last() =~= a + b.drop_last());
        assert((a + b).last() == b.last());
        lemma_spawn_count_add(a, b.drop_last());
    }
}

/// Collecting previewed calls distributes over joining plans.
pub proof fn lemma_previews_add(a: Seq<Move>, b: Seq<Move>)
    ensures
        previews(a + b) == previews(a) + previews(b),
    decreases b.len(),
{
    if b.len() == 0 {
        assert(a + b =~= a);
        assert(previews(a) + previews(b) =~= previews(a));
    } else {
        assert((a + b).drop_last() =~= a + b.drop_last());
        assert((a + b).last() == b.last());
        lemma_previews_add(a, b.drop_last());
        assert(previews(a + b) =~= previews(a) + previews(b));
    }
}

/// Collecting spawned calls distributes over joining plans.
pub proof fn lemma_spawned_add(a: Seq<Move>, b: Seq<Move>)
    ensures
        spawned(a + b) == spawned(a) + spawned(b),
    decreases b.len(),
{
    if b.len() == 0 {
        assert(a + b =~= a);
        assert(spawned(a) + spawned(b) =~= spawned(a));
    } else {
        assert((a + b).drop_last() =~= a + b.drop_last());
        assert((a + b).last() == b.last());
        lemma_spawned_add(a, b.drop_last());
        assert(spawned(a + b) =~= spawned(a) + spawned(b));
    }
}

/// A plan in which no step spawns has a spawn count of zero and runs no call.
pub proof fn lemma_quiet_plan(plan: Seq<Move>)
    requires
        forall|i: int| 0 <= i < plan.len() ==> !(#[trigger] plan[i]).spawns(),
    ensures
        spawn_count(plan) == 0,
        spawned(plan) == Seq::<Call>::empty(),
    decreases plan.len(),
{
    if plan.len() > 0 {
        assert(forall|i: int| 0 <= i < plan.drop_last().len() ==> plan.drop_last()[i] == plan[i]);
        lemma_quiet_plan(plan.drop_last());
        assert(!plan[plan.len() - 1].spawns());
    }
}

/// A plan in which no step is a preview previews no call.
pub proof fn lemma_no_previews(plan: Seq<Move>)
    requires
        forall|i: int| 0 <= i < plan.len() ==> !(#[trigger] plan[i] is Preview),
    ensures
        previews(plan) == Seq::<Call>::empty(),
    decreases plan.len(),
{
    if plan.len() > 0 {
        assert(forall|i: int| 0 <= i < plan.drop_last().len() ==> plan.drop_last()[i] == plan[i]);
        lemma_no_previews(plan.drop_last());
        assert(!(plan[plan.len() - 1] is Preview));
    }
}

/// A plan in which no step runs a call for effect runs none.
pub proof fn lemma_no_effects(plan: Seq<Move>)
    requires
        forall|i: int| 0 <= i < plan.len() ==> !(#[trigger] plan[i] is Spawn),
    ensures
        spawned(plan) == Seq::<Call>::empty(),
    decreases plan.len(),
{
    if plan.len() > 0 {
        assert(forall|i: int| 0 <= i < plan.drop_last().len() ==> plan.drop_last()[i] == plan[i]);
        lemma_no_effects(plan.drop_last());
        assert(!(plan[plan.len() - 1] is Spawn));
    }
}

/// A plan with a spawn count of zero holds no step that spawns.
pub proof fn lemma_zero_spawns(plan: Seq<Move>)
    requires
        spawn_count(plan) == 0,
    ensures
        forall|i: int| 0 <= i < plan.len() ==> !(#[trigger] plan[i]).spawns(),
    decreases plan.len(),
{
    if plan.len() > 0 {
        lemma_zero_spawns(plan.drop_last());
        assert forall|i: int| 0 <= i < plan.len() implies !(#[trigger] plan[i]).spawns() by {
            if i < plan.len() - 1 {
                assert(plan.drop_last()[i] == plan[i]);
            }
        }
    }
}

/// Once a run has failed it stays failed: whatever the driver reports
/// afterwards, the failure is all that is handed out, so no further process is
/// asked for.
pub proof fn lemma_failure_is_final(course: Course, exit: Exit)
    requires
        course.failure is Some,
    ensures
        course.order() == Order::Fail(course.failure->0),
        course.acknowledged() == course,
        course.completed(exit) == course,
{
}

/// A failed process ends the run at the step that ran it: the steps behind
/// stay behind, and nothing further is asked for.
pub proof fn lemma_first_failure_aborts(course: Course, exit: Exit)
    requires
        course.order() is Execute,
        settled(course.plan[course.position as int], exit) is Err,
    ensures
        course.completed(exit).failure is Some,
        course.completed(exit).position == course.position,
        course.completed(exit).order() is Fail,
{
}

/// A plan without steps that spawn never asks the driver for a process, in
/// whatever state the run is.
pub proof fn lemma_no_spawn_no_process(course: Course)
    requires
        forall|i: int| 0 <= i < course.plan.len() ==> !(#[trigger] course.plan[i]).spawns(),
    ensures
        !(course.order() is Execute),
{
}

} // verus!
