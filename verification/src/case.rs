//! Test cases. A case is a state machine: it asks for one thing at a time, is
//! handed the reply, and decides on it what to ask next or how it ends.
use crate::context::TestContext;
use crate::elapsed::Elapsed;
use crate::protocol::{CallError, Reply, Request};
use crate::values::SuiAddress;
use crate::violation::{Shown, Violation};
use vstd::prelude::*;
use vstd::string::StringExecFns;

verus! {

/// Why a test case failed: a call that did not come through, and what the case
/// wanted it for, where it says so.
#[derive(Debug, PartialEq, Eq)]
pub struct CaseError {
    pub context: Option<&'static str>,
    pub cause: CallError,
}

impl CaseError {
    /// The error in one line: what the call was for, then what went wrong.
    pub open spec fn line(self) -> Seq<char> {
        match self.context {
            Some(context) => context@ + ": "@ + self.cause.chain@,
            None => self.cause.chain@,
        }
    }

    /// The error in one line.
    pub fn to_line(&self) -> (r: String)
        ensures
            r@ == self.line(),
    {
        let mut r: String = String::new();
        match self.context {
            Some(context) => {
                r.append(context);
                r.append(": ");
                r.append(self.cause.chain.as_str());
                assert(r@ =~= self.line());
            },
            None => {
                r.append(self.cause.chain.as_str());
                assert(r@ =~= self.line());
            },
        }
        r
    }
}

/// What a test case does next.
#[derive(Debug, PartialEq, Eq)]
pub enum Next<R> {
    /// Asks for something, and goes on from there with the reply.
    Ask(R, Request),
    /// Ends: the cluster did all that the case wanted of it.
    Passed,
    /// Ends: a call did not come through. The suite goes on.
    Failed(CaseError),
    /// Ends, and the suite with it: a condition did not hold.
    Panicked(Violation),
}

/// `rest`, provided that `condition` holds.
pub open spec fn insist<R>(condition: bool, message: &'static str, rest: Next<R>) -> Next<R> {
    if condition {
        rest
    } else {
        Next::Panicked(Violation::Assertion(message))
    }
}

/// `rest`, provided that `left` and `right` are the same.
pub open spec fn insist_equal<R>(
    left: Shown,
    right: Shown,
    message: &'static str,
    rest: Next<R>,
) -> Next<R> {
    if left == right {
        rest
    } else {
        Next::Panicked(Violation::Unequal { message, left, right })
    }
}

/// Ends the case because a call, wanted for `context`, did not come through.
#[verifier::allow_in_spec]
pub fn failed<R>(context: &'static str, cause: CallError) -> Next<R>
    returns
        Next::<R>::Failed(CaseError { context: Some(context), cause }),
{
    Next::Failed(CaseError { context: Some(context), cause })
}

/// The same without a word on what the call was for.
#[verifier::allow_in_spec]
pub fn failed_plainly<R>(cause: CallError) -> Next<R>
    returns
        Next::<R>::Failed(CaseError { context: None, cause }),
{
    Next::Failed(CaseError { context: None, cause })
}

/// Ends the suite because a condition with a fixed message does not hold.
#[verifier::allow_in_spec]
pub fn refuted<R>(message: &'static str) -> Next<R>
    returns
        Next::<R>::Panicked(Violation::Assertion(message)),
{
    Next::Panicked(Violation::Assertion(message))
}

/// Ends the suite because two numbers are not the same.
#[verifier::allow_in_spec]
pub fn unequal_numbers<R>(left: u64, right: u64, message: &'static str) -> Next<R>
    returns
        Next::<R>::Panicked(
            Violation::Unequal { message, left: Shown::Number(left), right: Shown::Number(right) },
        ),
{
    Next::Panicked(
        Violation::Unequal { message, left: Shown::Number(left), right: Shown::Number(right) },
    )
}

/// Ends the suite because two counts are not the same.
#[verifier::allow_in_spec]
pub fn unequal_counts<R>(left: usize, right: usize, message: &'static str) -> Next<R>
    returns
        Next::<R>::Panicked(
            Violation::Unequal { message, left: Shown::Count(left), right: Shown::Count(right) },
        ),
{
    Next::Panicked(
        Violation::Unequal { message, left: Shown::Count(left), right: Shown::Count(right) },
    )
}

/// Ends the suite because two values are not the same.
#[verifier::allow_in_spec]
pub fn unequal<R>(left: Shown, right: Shown, message: &'static str) -> Next<R>
    returns
        Next::<R>::Panicked(Violation::Unequal { message, left, right }),
{
    Next::Panicked(Violation::Unequal { message, left, right })
}

/// Ends the suite because a reply does not answer the request.
#[verifier::allow_in_spec]
pub fn unexpected<R>() -> Next<R>
    returns
        Next::<R>::Panicked(Violation::UnexpectedReply),
{
    Next::Panicked(Violation::UnexpectedReply)
}

/// What remains after the replies from the one at `i` on: the end, where they
/// lead to it, or else the request that nothing answers yet.
pub open spec fn played<R: CaseRun>(next: Next<R>, replies: Seq<Reply>, i: int) -> Next<R>
    decreases replies.len() - i,
{
    match next {
        Next::Ask(run, _) => if 0 <= i < replies.len() {
            played(run.next(replies[i]), replies, i + 1)
        } else {
            next
        },
        _ => next,
    }
}

/// Where a case stands after the first `k` replies, from `first` on.
pub open spec fn stands<R: CaseRun>(first: Next<R>, replies: Seq<Reply>, k: nat) -> Next<R>
    decreases k,
{
    if k == 0 {
        first
    } else {
        match stands(first, replies, (k - 1) as nat) {
            Next::Ask(run, _) => run.next(replies[k - 1]),
            end => end,
        }
    }
}

/// Whether the case asks for `request`.
pub open spec fn asks<R>(next: Next<R>, request: Request) -> bool {
    next matches Next::Ask(_, q) && q == request
}

/// Whether the case has failed over a call, wanted for `context`, with this error.
pub open spec fn fails<R>(
    next: Next<R>,
    context: Option<&'static str>,
    cause: CallError,
) -> bool {
    next matches Next::Failed(e) && e.context == context && e.cause == cause
}

/// Whether the case has ended the suite over this condition.
pub open spec fn panics<R>(next: Next<R>, violation: Violation) -> bool {
    next matches Next::Panicked(v) && v == violation
}

/// Whether each of the replies from the one at `i` on answers the request that
/// it is handed in for.
pub open spec fn answered<R: CaseRun>(next: Next<R>, replies: Seq<Reply>, i: int) -> bool
    decreases replies.len() - i,
{
    match next {
        Next::Ask(run, request) => 0 <= i < replies.len() ==> request.answers(replies[i])
            && answered(run.next(replies[i]), replies, i + 1),
        _ => true,
    }
}

/// A test case under way, between a request and its reply.
pub trait CaseRun: Sized {
    /// What the case does next on a reply.
    spec fn next(self, reply: Reply) -> Next<Self>;

    /// Takes the reply to the request that was made last.
    fn step(self, reply: Reply) -> (r: Next<Self>)
        ensures
            r == self.next(reply),
    ;

    /// A case understands every reply that answers its request.
    proof fn understands_answers(self, reply: Reply, answer: Reply)
        requires
            self.next(reply) is Ask,
            self.next(reply)->Ask_1.answers(answer),
        ensures
            self.next(reply)->Ask_0.next(answer) != Next::<Self>::Panicked(
                Violation::UnexpectedReply,
            ),
    ;

    /// A case fails on nothing but a call that did not come through; whatever
    /// else it finds wrong ends the suite.
    proof fn fails_on_errors_only(self, reply: Reply)
        ensures
            self.next(reply) matches Next::Failed(e) ==> reply == Reply::RpcError(e.cause),
    ;

    /// The most replies that the case can still take before it ends.
    spec fn replies_left(self) -> nat;

    /// Each reply brings a case closer to its end.
    proof fn comes_closer_to_its_end(self, reply: Reply)
        ensures
            self.replies_left() > 0,
            self.next(reply) matches Next::Ask(run, _) ==> run.replies_left() < self.replies_left(),
    ;
}

/// A test case.
pub trait TestCaseImpl: Sized {
    type Run: CaseRun;

    spec fn case_name(&self) -> &'static str;

    spec fn case_description(&self) -> &'static str;

    spec fn case_rpcs(&self) -> Seq<&'static str>;

    /// How the case begins, with the wallet at `sender`.
    spec fn first(&self, sender: SuiAddress) -> Next<Self::Run>;

    fn name(&self) -> (r: &'static str)
        ensures
            r == self.case_name(),
    ;

    fn description(&self) -> (r: &'static str)
        ensures
            r == self.case_description(),
    ;

    /// RPC methods verified by this test, used for the summary report.
    fn rpcs_tested(&self) -> (r: Vec<&'static str>)
        ensures
            r@ == self.case_rpcs(),
    ;

    /// Begins the case.
    fn run(&self, ctx: &TestContext) -> (r: Next<Self::Run>)
        ensures
            r == self.first(ctx.address()),
    ;

    /// The first request, too, has its answers understood.
    proof fn understands_first_answer(&self, sender: SuiAddress, answer: Reply)
        requires
            self.first(sender) is Ask,
            self.first(sender)->Ask_1.answers(answer),
        ensures
            self.first(sender)->Ask_0.next(answer) != Next::<Self::Run>::Panicked(
                Violation::UnexpectedReply,
            ),
    ;
}

/// How a test case ended.
#[derive(Debug, PartialEq, Eq)]
pub struct TestResult {
    pub name: &'static str,
    pub passed: bool,
    pub elapsed: Elapsed,
    pub rpcs_tested: Vec<&'static str>,
}

impl TestResult {
    /// The result of the test case `name`.
    pub fn new(
        name: &'static str,
        passed: bool,
        elapsed: Elapsed,
        rpcs_tested: Vec<&'static str>,
    ) -> (r: TestResult)
        ensures
            r == (TestResult { name, passed, elapsed, rpcs_tested }),
    {
        TestResult { name, passed, elapsed, rpcs_tested }
    }
}

/// What the runner of a test case does next.
#[derive(Debug, PartialEq, Eq)]
pub enum RunStep<R> {
    /// Gets the reply to a request.
    Perform(R, Request),
    /// Notes the result, and the error of a case that failed.
    Finish(TestResult, Option<CaseError>),
    /// Ends the suite.
    Abort(Violation),
}

/// A test case to be run.
#[derive(Debug, PartialEq, Eq)]
pub struct TestCase<T: TestCaseImpl> {
    pub test_case: T,
}

impl<T: TestCaseImpl> TestCase<T> {
    pub fn new(test_case: T) -> (r: TestCase<T>)
        ensures
            r.test_case == test_case,
    {
        TestCase { test_case }
    }

    /// Whether `result` is what is noted of this case.
    pub open spec fn noted(self, result: TestResult, passed: bool, elapsed: Elapsed) -> bool {
        &&& result.name == self.test_case.case_name()
        &&& result.passed == passed
        &&& result.elapsed == elapsed
        &&& result.rpcs_tested@ == self.test_case.case_rpcs()
    }

    /// Carries on with the case, `elapsed` after its beginning.
    pub fn run(&self, next: Next<T::Run>, elapsed: Elapsed) -> (r: RunStep<T::Run>)
        ensures
            match next {
                Next::Ask(run, request) => r == RunStep::Perform(run, request),
                Next::Passed => r matches RunStep::Finish(result, error) && error is None
                    && self.noted(result, true, elapsed),
                Next::Failed(e) => r matches RunStep::Finish(result, error) && error == Some(e)
                    && self.noted(result, false, elapsed),
                Next::Panicked(v) => r == RunStep::<T::Run>::Abort(v),
            },
            r matches RunStep::Finish(result, error) ==> {
                &&& next is Passed || next is Failed
                &&& result.passed <==> next is Passed
                &&& result.name == self.test_case.case_name()
                &&& result.elapsed == elapsed
                &&& result.rpcs_tested@ == self.test_case.case_rpcs()
                &&& next is Passed ==> error is None
                &&& next matches Next::Failed(e) ==> error == Some(e)
            },
    {
        match next {
            Next::Ask(run, request) => RunStep::Perform(run, request),
            Next::Passed => RunStep::Finish(self.result(true, elapsed), None),
            Next::Failed(e) => RunStep::Finish(self.result(false, elapsed), Some(e)),
            Next::Panicked(v) => RunStep::Abort(v),
        }
    }

    fn result(&self, passed: bool, elapsed: Elapsed) -> (r: TestResult)
        ensures
            self.noted(r, passed, elapsed),
    {
        TestResult::new(
            self.test_case.name(),
            passed,
            elapsed,
            self.test_case.rpcs_tested(),
        )
    }
}

proof fn played_understands<R: CaseRun>(next: Next<R>, replies: Seq<Reply>, i: int)
    requires
        0 <= i,
        answered(next, replies, i),
        next != Next::<R>::Panicked(Violation::UnexpectedReply),
        forall|answer: Reply|
            #![trigger next->Ask_0.next(answer)]
            next is Ask && next->Ask_1.answers(answer) ==> next->Ask_0.next(answer) != Next::<
                R,
            >::Panicked(Violation::UnexpectedReply),
    ensures
        played(next, replies, i) != Next::<R>::Panicked(Violation::UnexpectedReply),
    decreases replies.len() - i,
{
    if next is Ask && i < replies.len() {
        let run = next->Ask_0;
        let after = run.next(replies[i]);
        assert forall|answer: Reply|
            #![trigger after->Ask_0.next(answer)]
            after is Ask && after->Ask_1.answers(answer) implies after->Ask_0.next(answer)
            != Next::<R>::Panicked(Violation::UnexpectedReply) by {
            run.understands_answers(replies[i], answer);
        }
        played_understands(after, replies, i + 1);
    }
}

/// However a cluster behaves: as long as each reply answers the request that it
/// is handed in for, no case ever stops over a reply that it did not expect.
pub proof fn no_answer_is_unexpected<T: TestCaseImpl>(
    case: T,
    sender: SuiAddress,
    replies: Seq<Reply>,
)
    requires
        answered(case.first(sender), replies, 0),
        case.first(sender) is Ask,
    ensures
        played(case.first(sender), replies, 0) != Next::<T::Run>::Panicked(
            Violation::UnexpectedReply,
        ),
{
    let next = case.first(sender);
    assert forall|answer: Reply|
        #![trigger next->Ask_0.next(answer)]
        next is Ask && next->Ask_1.answers(answer) implies next->Ask_0.next(answer) != Next::<
        T::Run,
    >::Panicked(Violation::UnexpectedReply) by {
        case.understands_first_answer(sender, answer);
    }
    played_understands(next, replies, 0);
}

proof fn played_ends<R: CaseRun>(next: Next<R>, replies: Seq<Reply>, i: int)
    requires
        0 <= i <= replies.len(),
        next matches Next::Ask(run, _) ==> run.replies_left() <= replies.len() - i,
    ensures
        !(played(next, replies, i) is Ask),
    decreases replies.len() - i,
{
    if let Next::Ask(run, _) = next {
        if i < replies.len() {
            run.comes_closer_to_its_end(replies[i]);
            played_ends(run.next(replies[i]), replies, i + 1);
        } else {
            run.comes_closer_to_its_end(Reply::Synced);
        }
    }
}

/// However a cluster behaves, a case makes no more requests than it has replies
/// left at its beginning: with so many replies it has come to its end.
pub proof fn every_case_ends<T: TestCaseImpl>(case: T, sender: SuiAddress, replies: Seq<Reply>)
    requires
        case.first(sender) matches Next::Ask(run, _) ==> run.replies_left() <= replies.len(),
    ensures
        !(played(case.first(sender), replies, 0) is Ask),
{
    played_ends(case.first(sender), replies, 0);
}

proof fn played_fails_on_error<R: CaseRun>(next: Next<R>, replies: Seq<Reply>, i: int)
    requires
        0 <= i,
        next is Ask,
        played(next, replies, i) is Failed,
    ensures
        exists|k: int|
            i <= k < replies.len() && #[trigger] replies[k] == Reply::RpcError(
                played(next, replies, i)->Failed_0.cause,
            ),
    decreases replies.len() - i,
{
    if i < replies.len() {
        let run = next->Ask_0;
        run.fails_on_errors_only(replies[i]);
        if run.next(replies[i]) is Ask {
            played_fails_on_error(run.next(replies[i]), replies, i + 1);
        } else {
            assert(replies[i] == Reply::RpcError(played(next, replies, i)->Failed_0.cause));
        }
    }
}

/// A case that fails does so over a call that did not come through, and the
/// cause that it gives is that call's error.
pub proof fn failure_comes_from_an_error<T: TestCaseImpl>(
    case: T,
    sender: SuiAddress,
    replies: Seq<Reply>,
)
    requires
        case.first(sender) is Ask,
        played(case.first(sender), replies, 0) is Failed,
    ensures
        exists|k: int|
            0 <= k < replies.len() && #[trigger] replies[k] == Reply::RpcError(
                played(case.first(sender), replies, 0)->Failed_0.cause,
            ),
{
    played_fails_on_error(case.first(sender), replies, 0);
}

/// An error reads as what the call was for, a colon and a space, and the error
/// with what it came from; and as the latter alone where nothing was said of it.
pub proof fn errors_read_with_their_context(e: CaseError)
    ensures
        e.context is None ==> e.line() == e.cause.chain@,
        e.context matches Some(context) ==> e.line() == context@ + ": "@ + e.cause.chain@,
{
}

} // verus!
