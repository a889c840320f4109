//! The life of a raw terminal session as a state machine. The caller
//! performs each directive on the real terminal and reports how it went; the
//! session says what comes next.
//!
//! A session takes three properties of the terminal, one after the other,
//! runs the loop, and gives the properties back in the reverse order,
//! however the loop ended and whether or not a step of the teardown fails.
//! When a step of the setup fails, the loop is not run, and what was taken
//! before that step is given back in the same way before the session gives
//! up. On no path does the session end with a property that it took and did
//! not ask to give back.

use vstd::prelude::*;

verus! {

/// A property of the terminal that a session takes and gives back.
#[derive(Clone, Copy, Debug, PartialEq, Eq, Structural)]
pub enum Property {
    /// The alternate screen buffer is shown, the user's own is kept aside.
    AlternateScreen,
    /// Input arrives byte by byte, unbuffered and without echo.
    RawMode,
    /// The cursor is hidden.
    HiddenCursor,
}

/// One operation on the terminal.
#[derive(Clone, Copy, Debug, PartialEq, Eq, Structural)]
pub enum SessionOp {
    /// Turn the property on.
    Acquire(Property),
    /// Turn the property off again.
    Release(Property),
}

/// What the caller reports back to the session.
#[derive(Clone, Copy, Debug, PartialEq, Eq, Structural)]
pub enum Report {
    /// The operation asked for was performed.
    StepDone,
    /// The operation asked for failed.
    StepFailed,
    /// The loop came back after a quit.
    LoopReturned,
    /// The loop came back with an error.
    LoopFailed,
}

/// What the session asks of the caller.
#[derive(Clone, Copy, Debug, PartialEq, Eq, Structural)]
pub enum Directive {
    /// Perform the operation and report `StepDone` or `StepFailed`.
    Perform(SessionOp),
    /// Run the loop and report `LoopReturned` or `LoopFailed`.
    RunLoop,
    /// The terminal has been given back: leave.
    Finish,
    /// The session could not be set up, and what it had taken has been
    /// given back: leave without running the loop.
    Abort,
}

/// Where a session stands.
#[derive(Clone, Copy, Debug, PartialEq, Eq, Structural)]
pub enum Stage {
    /// The property is being taken.
    Acquiring(Property),
    /// All three properties are taken and the loop runs.
    Running,
    /// The property is being given back.
    Releasing(Property),
    /// Everything was given back.
    Closed,
    /// A step of the setup failed and the property, taken before that step,
    /// is being given back.
    Unwinding(Property),
    /// A step of the setup failed and everything taken before it was given
    /// back.
    Aborted,
}

/// The model of a terminal: which of the three properties are on.
#[derive(Clone, Copy, Debug, PartialEq, Eq, Structural)]
pub struct TerminalMode {
    pub alternate_screen: bool,
    pub raw_mode: bool,
    pub cursor_hidden: bool,
}

/// The property taken after `property`, if any.
pub open spec fn acquired_after(property: Property) -> Option<Property> {
    match property {
        Property::AlternateScreen => Some(Property::RawMode),
        Property::RawMode => Some(Property::HiddenCursor),
        Property::HiddenCursor => None,
    }
}

/// The property given back after `property`, if any.
pub open spec fn released_after(property: Property) -> Option<Property> {
    match property {
        Property::HiddenCursor => Some(Property::RawMode),
        Property::RawMode => Some(Property::AlternateScreen),
        Property::AlternateScreen => None,
    }
}

/// The operations that enter a session, in order.
pub open spec fn enter_plan() -> Seq<SessionOp> {
    seq![
        SessionOp::Acquire(Property::AlternateScreen),
        SessionOp::Acquire(Property::RawMode),
        SessionOp::Acquire(Property::HiddenCursor),
    ]
}

/// The operations that leave a session, in order.
pub open spec fn exit_plan() -> Seq<SessionOp> {
    seq![
        SessionOp::Release(Property::HiddenCursor),
        SessionOp::Release(Property::RawMode),
        SessionOp::Release(Property::AlternateScreen),
    ]
}

impl SessionOp {
    /// The operation that takes back what this one did.
    pub open spec fn undone_by(self) -> SessionOp {
        match self {
            SessionOp::Acquire(property) => SessionOp::Release(property),
            SessionOp::Release(property) => SessionOp::Acquire(property),
        }
    }
}

impl TerminalMode {
    /// A terminal that no session has touched: all three properties off.
    pub open spec fn plain() -> TerminalMode {
        TerminalMode { alternate_screen: false, raw_mode: false, cursor_hidden: false }
    }

    /// A terminal inside a session: all three properties on.
    pub open spec fn taken() -> TerminalMode {
        TerminalMode { alternate_screen: true, raw_mode: true, cursor_hidden: true }
    }

    /// A terminal in the middle of a setup: the properties that a session
    /// takes before `property` are on, the others off.
    pub open spec fn taken_before(property: Property) -> TerminalMode {
        match property {
            Property::AlternateScreen => TerminalMode::plain(),
            Property::RawMode => TerminalMode {
                alternate_screen: true,
                raw_mode: false,
                cursor_hidden: false,
            },
            Property::HiddenCursor => TerminalMode {
                alternate_screen: true,
                raw_mode: true,
                cursor_hidden: false,
            },
        }
    }

    /// The terminal after an operation that was performed.
    pub open spec fn after(self, op: SessionOp) -> TerminalMode {
        match op {
            SessionOp::Acquire(property) => self.with(property, true),
            SessionOp::Release(property) => self.with(property, false),
        }
    }

    /// The terminal with one property set.
    pub open spec fn with(self, property: Property, on: bool) -> TerminalMode {
        match property {
            Property::AlternateScreen => TerminalMode { alternate_screen: on, ..self },
            Property::RawMode => TerminalMode { raw_mode: on, ..self },
            Property::HiddenCursor => TerminalMode { cursor_hidden: on, ..self },
        }
    }

    /// The terminal after a list of operations, performed in order.
    pub open spec fn after_all(self, ops: Seq<SessionOp>) -> TerminalMode
        decreases ops.len(),
    {
        if ops.len() == 0 {
            self
        } else {
            self.after_all(ops.drop_last()).after(ops.last())
        }
    }

    /// A terminal with all three properties off.
    pub fn new() -> (mode: TerminalMode)
        ensures
            mode == TerminalMode::plain(),
    {
        TerminalMode { alternate_screen: false, raw_mode: false, cursor_hidden: false }
    }

    /// Records an operation that was performed.
    pub fn apply(&mut self, op: SessionOp)
        ensures
            *final(self) == old(self).after(op),
    {
        match op {
            SessionOp::Acquire(property) => self.set(property, true),
            SessionOp::Release(property) => self.set(property, false),
        }
    }

    fn set(&mut self, property: Property, on: bool)
        ensures
            *final(self) == old(self).with(property, on),
    {
        match property {
            Property::AlternateScreen => {
                self.alternate_screen = on;
            },
            Property::RawMode => {
                self.raw_mode = on;
            },
            Property::HiddenCursor => {
                self.cursor_hidden = on;
            },
        }
    }
}

impl Stage {
    /// What a session at this stage waits for.
    pub open spec fn pending(self) -> Directive {
        match self {
            Stage::Acquiring(property) => Directive::Perform(SessionOp::Acquire(property)),
            Stage::Running => Directive::RunLoop,
            Stage::Releasing(property) => Directive::Perform(SessionOp::Release(property)),
            Stage::Closed => Directive::Finish,
            Stage::Unwinding(property) => Directive::Perform(SessionOp::Release(property)),
            Stage::Aborted => Directive::Abort,
        }
    }

    /// The stage after a report.
    ///
    /// While the session is set up, a step that fails is fatal: the loop
    /// will not run, and the properties taken before that step are given
    /// back, the last one first, before the session gives up. When the loop
    /// comes back, with or without an error, the teardown starts. Wherever
    /// properties are given back, a step that fails is passed over and the
    /// next one is still tried. A report that does not answer what the
    /// stage waits for changes nothing.
    pub open spec fn stepped(self, report: Report) -> Stage {
        match (self, report) {
            (Stage::Acquiring(property), Report::StepDone) => match acquired_after(property) {
                Some(next) => Stage::Acquiring(next),
                None => Stage::Running,
            },
            (Stage::Acquiring(property), Report::StepFailed) => match released_after(property) {
                Some(taken) => Stage::Unwinding(taken),
                None => Stage::Aborted,
            },
            (Stage::Running, Report::LoopReturned) => Stage::Releasing(Property::HiddenCursor),
            (Stage::Running, Report::LoopFailed) => Stage::Releasing(Property::HiddenCursor),
            (Stage::Releasing(property), Report::StepDone) => match released_after(property) {
                Some(next) => Stage::Releasing(next),
                None => Stage::Closed,
            },
            (Stage::Releasing(property), Report::StepFailed) => match released_after(property) {
                Some(next) => Stage::Releasing(next),
                None => Stage::Closed,
            },
            (Stage::Unwinding(property), Report::StepDone) => match released_after(property) {
                Some(next) => Stage::Unwinding(next),
                None => Stage::Aborted,
            },
            (Stage::Unwinding(property), Report::StepFailed) => match released_after(property) {
                Some(next) => Stage::Unwinding(next),
                None => Stage::Aborted,
            },
            _ => self,
        }
    }

    /// The terminal as the session has left it at this stage, if it started
    /// on a plain terminal, every step that was reported done was performed,
    /// and a step of the setup that failed changed nothing.
    pub open spec fn terminal(self) -> TerminalMode {
        match self {
            Stage::Acquiring(property) => TerminalMode::taken_before(property),
            Stage::Running => TerminalMode::taken(),
            Stage::Releasing(property) => TerminalMode::taken_before(property).with(
                property,
                true,
            ),
            Stage::Closed => TerminalMode::plain(),
            Stage::Unwinding(property) => TerminalMode::taken_before(property).with(
                property,
                true,
            ),
            Stage::Aborted => TerminalMode::plain(),
        }
    }

    /// The stage after a list of reports.
    pub open spec fn stepped_all(self, reports: Seq<Report>) -> Stage
        decreases reports.len(),
    {
        if reports.len() == 0 {
            self
        } else {
            self.stepped_all(reports.drop_last()).stepped(reports.last())
        }
    }
}

/// The property that a session takes after `property`.
fn next_to_acquire(property: Property) -> (next: Option<Property>)
    ensures
        next == acquired_after(property),
{
    match property {
        Property::AlternateScreen => Some(Property::RawMode),
        Property::RawMode => Some(Property::HiddenCursor),
        Property::HiddenCursor => None,
    }
}

/// The property that a session gives back after `property`, which is the
/// one that it takes just before `property`.
fn next_to_release(property: Property) -> (next: Option<Property>)
    ensures
        next == released_after(property),
{
    match property {
        Property::HiddenCursor => Some(Property::RawMode),
        Property::RawMode => Some(Property::AlternateScreen),
        Property::AlternateScreen => None,
    }
}

/// A terminal session.
#[derive(Clone, Copy, Debug, PartialEq, Eq, Structural)]
pub struct Session {
    pub stage: Stage,
}

impl Session {
    /// A session that has not touched the terminal yet.
    pub open spec fn initial() -> Session {
        Session { stage: Stage::Acquiring(Property::AlternateScreen) }
    }

    /// A session that has not touched the terminal yet. It waits for the
    /// alternate screen to be entered.
    pub fn new() -> (session: Session)
        ensures
            session == Session::initial(),
    {
        Session { stage: Stage::Acquiring(Property::AlternateScreen) }
    }

    /// What the session waits for.
    pub fn directive(&self) -> (directive: Directive)
        ensures
            directive == self.stage.pending(),
    {
        match self.stage {
            Stage::Acquiring(property) => Directive::Perform(SessionOp::Acquire(property)),
            Stage::Running => Directive::RunLoop,
            Stage::Releasing(property) => Directive::Perform(SessionOp::Release(property)),
            Stage::Closed => Directive::Finish,
            Stage::Unwinding(property) => Directive::Perform(SessionOp::Release(property)),
            Stage::Aborted => Directive::Abort,
        }
    }

    /// Takes a report and returns what the session waits for next.
    pub fn advance(&mut self, report: Report) -> (directive: Directive)
        ensures
            final(self).stage == old(self).stage.stepped(report),
            directive == final(self).stage.pending(),
    {
        match self.stage {
            Stage::Acquiring(property) => match report {
                Report::StepDone => match next_to_acquire(property) {
                    Some(next) => {
                        self.stage = Stage::Acquiring(next);
                    },
                    None => {
                        self.stage = Stage::Running;
                    },
                },
                Report::StepFailed => match next_to_release(property) {
                    Some(taken) => {
                        self.stage = Stage::Unwinding(taken);
                    },
                    None => {
                        self.stage = Stage::Aborted;
                    },
                },
                _ => {},
            },
            Stage::Running => match report {
                Report::LoopReturned | Report::LoopFailed => {
                    self.stage = Stage::Releasing(Property::HiddenCursor);
                },
                _ => {},
            },
            Stage::Releasing(property) => match report {
                Report::StepDone | Report::StepFailed => match next_to_release(property) {
                    Some(next) => {
                        self.stage = Stage::Releasing(next);
                    },
                    None => {
                        self.stage = Stage::Closed;
                    },
                },
                _ => {},
            },
            Stage::Closed => {},
            Stage::Unwinding(property) => match report {
                Report::StepDone | Report::StepFailed => match next_to_release(property) {
                    Some(next) => {
                        self.stage = Stage::Unwinding(next);
                    },
                    None => {
                        self.stage = Stage::Aborted;
                    },
                },
                _ => {},
            },
            Stage::Aborted => {},
        }
        self.directive()
    }
}

/// Whether the report says how a step went.
pub open spec fn is_step_report(report: Report) -> bool {
    report is StepDone || report is StepFailed
}

/// Whether the report says how the loop ended.
pub open spec fn is_loop_report(report: Report) -> bool {
    report is LoopReturned || report is LoopFailed
}

/// The teardown is the setup backwards: the properties are given back in
/// the reverse of the order in which they were taken.
pub proof fn lemma_exit_mirrors_enter()
    ensures
        exit_plan().len() == enter_plan().len(),
        forall|i: int|
            0 <= i < enter_plan().len() ==> #[trigger] exit_plan()[i] == enter_plan()[
                enter_plan().len() - 1 - i
            ].undone_by(),
        forall|earlier: Property, later: Property|
            acquired_after(earlier) == Some(later) <==> released_after(later) == Some(earlier),
{
}

/// A session that is set up asks for the three operations of the setup in
/// order and then for the loop.
pub proof fn lemma_setup_order()
    ensures
        Session::initial().stage.pending() == Directive::Perform(enter_plan()[0]),
        Session::initial().stage.stepped(Report::StepDone).pending() == Directive::Perform(
            enter_plan()[1],
        ),
        Session::initial().stage.stepped(Report::StepDone).stepped(Report::StepDone).pending()
            == Directive::Perform(enter_plan()[2]),
        Session::initial().stage.stepped(Report::StepDone).stepped(Report::StepDone).stepped(
            Report::StepDone,
        ) == Stage::Running,
        Stage::Running.pending() == Directive::RunLoop,
{
}

/// The operations that give back what a session has taken when its setup
/// fails at `property`: the teardown without the steps for `property` and
/// for what is taken after it.
pub open spec fn unwind_plan(property: Property) -> Seq<SessionOp> {
    match property {
        Property::AlternateScreen => Seq::<SessionOp>::empty(),
        Property::RawMode => seq![SessionOp::Release(Property::AlternateScreen)],
        Property::HiddenCursor => seq![
            SessionOp::Release(Property::RawMode),
            SessionOp::Release(Property::AlternateScreen),
        ],
    }
}

/// A setup that fails leaks nothing. Whichever step fails, and whether the
/// steps that give back are then performed or fail, the session asks for
/// the release of each property taken before the failed step, the last one
/// taken first, and only then gives up. A terminal on which those releases
/// were performed is plain again.
pub proof fn lemma_failed_setup_is_undone(first: Report, second: Report)
    requires
        is_step_report(first),
        is_step_report(second),
    ensures
        forall|property: Property| #[trigger]
            unwind_plan(property) == exit_plan().skip(3 - unwind_plan(property).len()),
        forall|property: Property| #[trigger]
            Stage::Acquiring(property).terminal().after_all(unwind_plan(property))
                == TerminalMode::plain(),
        // the first step fails: nothing was taken
        Stage::Acquiring(Property::AlternateScreen).stepped(Report::StepFailed) == Stage::Aborted,
        // the second step fails: one release
        Stage::Acquiring(Property::RawMode).stepped(Report::StepFailed).pending()
            == Directive::Perform(unwind_plan(Property::RawMode)[0]),
        Stage::Acquiring(Property::RawMode).stepped(Report::StepFailed).stepped(first)
            == Stage::Aborted,
        // the third step fails: two releases
        Stage::Acquiring(Property::HiddenCursor).stepped(Report::StepFailed).pending()
            == Directive::Perform(unwind_plan(Property::HiddenCursor)[0]),
        Stage::Acquiring(Property::HiddenCursor).stepped(Report::StepFailed).stepped(
            first,
        ).pending() == Directive::Perform(unwind_plan(Property::HiddenCursor)[1]),
        Stage::Acquiring(Property::HiddenCursor).stepped(Report::StepFailed).stepped(
            first,
        ).stepped(second) == Stage::Aborted,
        Stage::Aborted.pending() == Directive::Abort,
        Stage::Aborted.terminal() == TerminalMode::plain(),
{
    reveal_with_fuel(TerminalMode::after_all, 3);
    assert forall|property: Property| #[trigger]
        unwind_plan(property) == exit_plan().skip(3 - unwind_plan(property).len()) by {
        assert(unwind_plan(property) =~= exit_plan().skip(3 - unwind_plan(property).len()));
    }
    assert forall|property: Property| #[trigger]
        Stage::Acquiring(property).terminal().after_all(unwind_plan(property))
            == TerminalMode::plain() by {
        let plan = unwind_plan(property);
        if plan.len() == 2 {
            assert(plan.drop_last() =~= seq![plan[0]]);
            assert(plan.drop_last().drop_last() =~= Seq::<SessionOp>::empty());
        } else if plan.len() == 1 {
            assert(plan.drop_last() =~= Seq::<SessionOp>::empty());
        }
    }
}

/// After a step of the setup has failed the loop never runs: whatever is
/// reported from then on, the session gives back or has given up.
pub proof fn lemma_failed_setup_never_runs(property: Property, later: Seq<Report>)
    ensures
        Stage::Acquiring(property).stepped(Report::StepFailed).stepped_all(later) is Unwinding
            || Stage::Acquiring(property).stepped(Report::StepFailed).stepped_all(later)
            is Aborted,
        Stage::Aborted.stepped_all(later) == Stage::Aborted,
    decreases later.len(),
{
    if later.len() > 0 {
        lemma_failed_setup_never_runs(property, later.drop_last());
    }
}

/// Once the loop runs, the terminal is given back whatever happens: however
/// the loop ended, and whether each step of the teardown was performed or
/// failed, the session asks for the three operations of the teardown in
/// order and then finishes.
pub proof fn lemma_teardown_is_unconditional(ended: Report, first: Report, second: Report, third: Report)
    requires
        is_loop_report(ended),
        is_step_report(first),
        is_step_report(second),
        is_step_report(third),
    ensures
        Stage::Running.stepped(ended).pending() == Directive::Perform(exit_plan()[0]),
        Stage::Running.stepped(ended).stepped(first).pending() == Directive::Perform(
            exit_plan()[1],
        ),
        Stage::Running.stepped(ended).stepped(first).stepped(second).pending()
            == Directive::Perform(exit_plan()[2]),
        Stage::Running.stepped(ended).stepped(first).stepped(second).stepped(third)
            == Stage::Closed,
        Stage::Closed.pending() == Directive::Finish,
{
}

/// A session keeps the books of the terminal: it starts on a plain one, a
/// step that was performed takes the terminal from what one stage holds to
/// what the next one holds, a step of the setup that failed leaves it as it
/// is, the loop is run with all three properties on, and its end changes
/// nothing. A session that is closed or has given up holds nothing. So a
/// session whose releases are performed ends on a plain terminal, however
/// the loop ended and wherever the setup failed.
pub proof fn lemma_session_tracks_terminal(stage: Stage, op: SessionOp, ended: Report)
    requires
        stage.pending() == Directive::Perform(op),
        is_loop_report(ended),
    ensures
        stage.stepped(Report::StepDone).terminal() == stage.terminal().after(op),
        stage is Acquiring ==> stage.stepped(Report::StepFailed).terminal() == stage.terminal(),
        Session::initial().stage.terminal() == TerminalMode::plain(),
        Stage::Running.terminal() == TerminalMode::taken(),
        Stage::Running.stepped(ended).terminal() == TerminalMode::taken(),
        Stage::Closed.terminal() == TerminalMode::plain(),
        Stage::Aborted.terminal() == TerminalMode::plain(),
{
}

/// A teardown whose steps are performed turns all three properties off,
/// whatever the terminal was like before; after a setup on a plain terminal
/// it restores the terminal as it was.
pub proof fn lemma_exit_restores(mode: TerminalMode)
    ensures
        mode.after_all(exit_plan()) == TerminalMode::plain(),
        TerminalMode::plain().after_all(enter_plan()) == TerminalMode::taken(),
        TerminalMode::plain().after_all(enter_plan() + exit_plan()) == TerminalMode::plain(),
{
    reveal_with_fuel(TerminalMode::after_all, 4);
    let enter = enter_plan();
    let exit = exit_plan();
    assert(exit.drop_last() =~= seq![exit[0], exit[1]]);
    assert(exit.drop_last().drop_last() =~= seq![exit[0]]);
    assert(exit.drop_last().drop_last().drop_last() =~= Seq::<SessionOp>::empty());
    assert(enter.drop_last() =~= seq![enter[0], enter[1]]);
    assert(enter.drop_last().drop_last() =~= seq![enter[0]]);
    assert(enter.drop_last().drop_last().drop_last() =~= Seq::<SessionOp>::empty());
    lemma_after_all_concat(TerminalMode::plain(), enter, exit);
}

/// Performing one list of operations and then another is performing the two
/// lists joined.
pub proof fn lemma_after_all_concat(mode: TerminalMode, first: Seq<SessionOp>, second: Seq<SessionOp>)
    ensures
        mode.after_all(first + second) == mode.after_all(first).after_all(second),
    decreases second.len(),
{
    if second.len() == 0 {
        assert(first + second =~= first);
    } else {
        lemma_after_all_concat(mode, first, second.drop_last());
        assert((first + second).drop_last() =~= first + second.drop_last());
        assert((first + second).last() == second.last());
    }
}

} // verus!
