//! A scripted stand-in for a process builder.
//!
//! A [`MockCommand`] is loaded with one fixed script: the arguments, then the
//! three standard streams, then the replacement of the process image. It
//! accepts each call only in its place and remembers the first call that was
//! out of place. [`FakeCommand`] wraps it in the chaining style of a process
//! builder.

use vstd::prelude::*;

verus! {

/// One call on a command, as the script sees it.
pub enum CommandCall {
    /// The arguments were set to this list.
    Args(Seq<Seq<char>>),
    /// Standard input was configured.
    Stdin,
    /// Standard output was configured.
    Stdout,
    /// Standard error was configured.
    Stderr,
    /// The process image was to be replaced.
    Exec,
}

/// The calls that a command expects, in the order in which it expects them.
pub open spec fn script(expected_args: Seq<Seq<char>>) -> Seq<CommandCall> {
    seq![
        CommandCall::Args(expected_args),
        CommandCall::Stdin,
        CommandCall::Stdout,
        CommandCall::Stderr,
        CommandCall::Exec,
    ]
}

/// What a mock command knows: its script, how far the calls have followed
/// it, and whether any call has left it.
pub struct CommandState {
    /// The argument list that the script asks for.
    pub expected_args: Seq<Seq<char>>,
    /// How many calls of the script have been accepted.
    pub accepted: nat,
    /// Whether a call was made that the script did not expect at that point.
    pub failed: bool,
}

impl CommandState {
    /// The state of a command that has received no call.
    pub open spec fn initial(expected_args: Seq<Seq<char>>) -> CommandState {
        CommandState { expected_args, accepted: 0, failed: false }
    }

    /// Whether `call` is the call that the script expects next.
    pub open spec fn expects(self, call: CommandCall) -> bool {
        &&& self.accepted < script(self.expected_args).len()
        &&& script(self.expected_args)[self.accepted as int] == call
    }

    /// The state after `call`: one step further where the call was expected,
    /// failed, for good, where it was not.
    pub open spec fn after(self, call: CommandCall) -> CommandState {
        if self.expects(call) {
            CommandState { accepted: self.accepted + 1, ..self }
        } else {
            CommandState { failed: true, ..self }
        }
    }

    /// The state after each of `calls` in turn.
    pub open spec fn after_all(self, calls: Seq<CommandCall>) -> CommandState
        decreases calls.len(),
    {
        if calls.len() == 0 {
            self
        } else {
            self.after_all(calls.drop_last()).after(calls.last())
        }
    }

    /// Whether the whole script was followed and nothing else was called.
    pub open spec fn satisfied(self) -> bool {
        !self.failed && self.accepted == script(self.expected_args).len()
    }
}

/// The texts of a list of strings.
pub open spec fn texts(strings: Seq<String>) -> Seq<Seq<char>> {
    Seq::new(strings.len(), |i: int| strings[i]@)
}

/// A marker that stands for a redirection of a standard stream.
#[derive(Debug)]
#[non_exhaustive]
pub struct MockStdio;

impl MockStdio {
    /// The marker for "use the parent's stream".
    #[must_use]
    pub fn inherit() -> (stdio: Self)
        ensures
            stdio == MockStdio,
    {
        MockStdio
    }
}

/// An error of the operating system, known by its number.
#[derive(Clone, Copy, Debug, PartialEq, Eq, Structural)]
pub struct OsError {
    code: i32,
}

impl OsError {
    /// The number that the operating system gave.
    pub closed spec fn code(self) -> int {
        self.code as int
    }

    /// The error with the number `code`.
    pub fn from_raw_os_error(code: i32) -> (error: OsError)
        ensures
            error.code() == code,
    {
        OsError { code }
    }

    /// The number of this error.
    pub fn raw_os_error(&self) -> (code: Option<i32>)
        ensures
            code matches Some(number) && number == self.code(),
    {
        Some(self.code)
    }
}

/// Whether two lists of strings hold the same texts in the same order.
fn same_texts(left: &Vec<String>, right: &Vec<String>) -> (same: bool)
    ensures
        same == (texts(left@) == texts(right@)),
{
    if left.len() != right.len() {
        assert(texts(left@).len() != texts(right@).len());
        return false;
    }
    let mut at: usize = 0;
    while at < left.len()
        invariant
            at <= left.len(),
            left.len() == right.len(),
            forall|i: int| 0 <= i < at ==> left@[i]@ == right@[i]@,
        decreases left.len() - at,
    {
        if left[at] != right[at] {
            assert(texts(left@)[at as int] != texts(right@)[at as int]);
            return false;
        }
        at += 1;
    }
    assert(texts(left@) =~= texts(right@));
    true
}

/// What a process builder can be asked to do.
pub trait Command {
    /// Sets the arguments to pass to the program.
    fn args(&mut self, args: Vec<String>);

    /// Replaces the process image, and returns the error that kept it from
    /// doing so, or `None` where the call was not to be made.
    fn exec(&mut self) -> Option<OsError>;

    /// Configures standard input.
    fn stdin(&mut self, cfg: MockStdio);

    /// Configures standard output.
    fn stdout(&mut self, cfg: MockStdio);

    /// Configures standard error.
    fn stderr(&mut self, cfg: MockStdio);
}

/// A command that runs nothing and checks the calls it receives against its
/// script.
#[derive(Debug)]
pub struct MockCommand {
    expected_args: Vec<String>,
    accepted: u8,
    failed: bool,
}

impl View for MockCommand {
    type V = CommandState;

    closed spec fn view(&self) -> CommandState {
        CommandState {
            expected_args: texts(self.expected_args@),
            accepted: self.accepted as nat,
            failed: self.failed,
        }
    }
}

impl MockCommand {
    #[verifier::type_invariant]
    spec fn within_script(self) -> bool {
        self.accepted <= 5
    }

    /// A command that has received no call and expects `expected_args` as
    /// its arguments.
    pub fn new(expected_args: Vec<String>) -> (command: MockCommand)
        ensures
            command@ == CommandState::initial(texts(expected_args@)),
    {
        MockCommand { expected_args, accepted: 0, failed: false }
    }

    /// Whether the whole script was followed and nothing else was called.
    pub fn satisfied(&self) -> (ok: bool)
        ensures
            ok == self@.satisfied(),
    {
        !self.failed && self.accepted == 5
    }

    /// Whether a call was made that the script did not expect at that point.
    pub fn failed(&self) -> (failed: bool)
        ensures
            failed == self@.failed,
    {
        self.failed
    }

    /// Records `call`, which the script can expect at position `place` only,
    /// and says whether the script expected it.
    fn record(&mut self, place: u8, matches: bool, Ghost(call): Ghost<CommandCall>) -> (accepted:
        bool)
        requires
            place < 5,
            matches == (script(old(self)@.expected_args)[place as int] == call),
            forall|other: int|
                0 <= other < 5 && other != place ==> script(old(self)@.expected_args)[other]
                    != call,
        ensures
            final(self)@ == old(self)@.after(call),
            accepted == old(self)@.expects(call),
    {
        proof {
            use_type_invariant(&*self);
        }
        if self.accepted == place && matches {
            self.accepted = place + 1;
            true
        } else {
            self.failed = true;
            false
        }
    }
}

impl Command for MockCommand {
    /// Accepts the arguments where they open the script and are the expected
    /// list; fails otherwise.
    fn args(&mut self, args: Vec<String>)
        ensures
            final(self)@ == old(self)@.after(CommandCall::Args(texts(args@))),
    {
        let matches = same_texts(&self.expected_args, &args);
        let _ = self.record(0, matches, Ghost(CommandCall::Args(texts(args@))));
    }

    /// Accepts the call where it closes the script, and then returns the
    /// error number zero. Fails otherwise, and returns no error at all: a
    /// call that the script refuses has no result.
    fn exec(&mut self) -> (error: Option<OsError>)
        ensures
            final(self)@ == old(self)@.after(CommandCall::Exec),
            error is Some <==> old(self)@.expects(CommandCall::Exec),
            error matches Some(given) ==> given.code() == 0,
    {
        if self.record(4, true, Ghost(CommandCall::Exec)) {
            Some(OsError::from_raw_os_error(0))
        } else {
            None
        }
    }

    /// Accepts the call where it follows the arguments; fails otherwise.
    fn stdin(&mut self, _cfg: MockStdio)
        ensures
            final(self)@ == old(self)@.after(CommandCall::Stdin),
    {
        let _ = self.record(1, true, Ghost(CommandCall::Stdin));
    }

    /// Accepts the call where it follows standard input; fails otherwise.
    fn stdout(&mut self, _cfg: MockStdio)
        ensures
            final(self)@ == old(self)@.after(CommandCall::Stdout),
    {
        let _ = self.record(2, true, Ghost(CommandCall::Stdout));
    }

    /// Accepts the call where it follows standard output; fails otherwise.
    fn stderr(&mut self, _cfg: MockStdio)
        ensures
            final(self)@ == old(self)@.after(CommandCall::Stderr),
    {
        let _ = self.record(3, true, Ghost(CommandCall::Stderr));
    }
}

/// A mock command in the chaining style of a process builder.
#[derive(Debug)]
pub struct FakeCommand {
    command: MockCommand,
}

impl View for FakeCommand {
    type V = CommandState;

    closed spec fn view(&self) -> CommandState {
        self.command@
    }
}

impl FakeCommand {
    /// A command for `program` that has received no call and expects
    /// `expected_args` as its arguments. The program is not run, so its
    /// name is not kept.
    #[must_use]
    pub fn new(_program: &str, expected_args: Vec<String>) -> (command: FakeCommand)
        ensures
            command@ == CommandState::initial(texts(expected_args@)),
    {
        FakeCommand { command: MockCommand::new(expected_args) }
    }

    /// Passes the arguments to the mock and hands the command back.
    pub fn args(&mut self, args: Vec<String>) -> (chain: &mut FakeCommand)
        ensures
            chain@ == old(self)@.after(CommandCall::Args(texts(args@))),
            *final(self) == *final(chain),
    {
        self.command.args(args);
        self
    }

    /// Passes the call to the mock: the error number zero where the call
    /// closes the script, and no error at all where the script refuses it.
    pub fn exec(&mut self) -> (error: Option<OsError>)
        ensures
            final(self)@ == old(self)@.after(CommandCall::Exec),
            error is Some <==> old(self)@.expects(CommandCall::Exec),
            error matches Some(given) ==> given.code() == 0,
    {
        self.command.exec()
    }

    /// Passes the call to the mock and hands the command back.
    pub fn stdin(&mut self, cfg: MockStdio) -> (chain: &mut FakeCommand)
        ensures
            chain@ == old(self)@.after(CommandCall::Stdin),
            *final(self) == *final(chain),
    {
        self.command.stdin(cfg);
        self
    }

    /// Passes the call to the mock and hands the command back.
    pub fn stdout(&mut self, cfg: MockStdio) -> (chain: &mut FakeCommand)
        ensures
            chain@ == old(self)@.after(CommandCall::Stdout),
            *final(self) == *final(chain),
    {
        self.command.stdout(cfg);
        self
    }

    /// Passes the call to the mock and hands the command back.
    pub fn stderr(&mut self, cfg: MockStdio) -> (chain: &mut FakeCommand)
        ensures
            chain@ == old(self)@.after(CommandCall::Stderr),
            *final(self) == *final(chain),
    {
        self.command.stderr(cfg);
        self
    }

    /// Whether the whole script was followed and nothing else was called.
    pub fn satisfied(&self) -> (ok: bool)
        ensures
            ok == self@.satisfied(),
    {
        self.command.satisfied()
    }

    /// Whether a call was made that the script did not expect at that point.
    pub fn failed(&self) -> (failed: bool)
        ensures
            failed == self@.failed,
    {
        self.command.failed()
    }
}

/// Stands in for ending the process: it does nothing and returns.
pub fn mock_exit(_code: i32) {
}

/// Where the calls have not left the script, they are its beginning, and
/// the command has accepted each of them; where they have, they are not.
proof fn lemma_followed_so_far(expected_args: Seq<Seq<char>>, calls: Seq<CommandCall>)
    ensures
        ({
            let state = CommandState::initial(expected_args).after_all(calls);
            &&& state.expected_args == expected_args
            &&& !state.failed <==> calls.len() <= 5 && calls == script(expected_args).take(
                calls.len() as int,
            )
            &&& !state.failed ==> state.accepted == calls.len()
        }),
    decreases calls.len(),
{
    let start = CommandState::initial(expected_args);
    let whole = script(expected_args);
    if calls.len() == 0 {
        assert(calls =~= whole.take(0));
    } else {
        let earlier = calls.drop_last();
        let before = start.after_all(earlier);
        let state = before.after(calls.last());
        let n = calls.len() as int;
        lemma_followed_so_far(expected_args, earlier);
        if n <= 5 && calls == whole.take(n) {
            assert(earlier =~= whole.take(n - 1));
            assert(calls.last() == whole[n - 1]);
        }
        if !state.failed {
            assert(before.expects(calls.last()));
            assert(calls =~= whole.take(n));
        }
    }
}

/// A command is satisfied by one sequence of calls and no other: its script.
/// Leaving a call out, adding one, or making two in the other order leaves
/// it unsatisfied.
pub proof fn lemma_only_the_script_satisfies(
    expected_args: Seq<Seq<char>>,
    calls: Seq<CommandCall>,
)
    ensures
        CommandState::initial(expected_args).after_all(calls).satisfied() <==> calls == script(
            expected_args,
        ),
{
    let whole = script(expected_args);
    lemma_followed_so_far(expected_args, calls);
    assert(whole.take(5) =~= whole);
    if calls == whole {
        assert(calls.len() == 5);
    }
}

} // verus!
