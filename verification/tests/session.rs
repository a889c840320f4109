use termloop::session::{Directive, Property, Report, Session, SessionOp, Stage, TerminalMode};

const ENTER: [SessionOp; 3] = [
    SessionOp::Acquire(Property::AlternateScreen),
    SessionOp::Acquire(Property::RawMode),
    SessionOp::Acquire(Property::HiddenCursor),
];

const EXIT: [SessionOp; 3] = [
    SessionOp::Release(Property::HiddenCursor),
    SessionOp::Release(Property::RawMode),
    SessionOp::Release(Property::AlternateScreen),
];

/// Drives a session against a model terminal. `fails` says whether the
/// operation fails; a failed operation leaves the terminal as it is. Returns
/// the operations asked for, whether the loop ran, and the last directive.
fn drive(
    terminal: &mut TerminalMode,
    fails: &dyn Fn(SessionOp) -> bool,
    loop_report: Report,
) -> (Vec<SessionOp>, bool, Directive) {
    let mut session = Session::new();
    let mut directive = session.directive();
    let mut asked = Vec::new();
    let mut ran = false;
    for _ in 0..20 {
        directive = match directive {
            Directive::Perform(op) => {
                asked.push(op);
                if fails(op) {
                    session.advance(Report::StepFailed)
                } else {
                    terminal.apply(op);
                    session.advance(Report::StepDone)
                }
            }
            Directive::RunLoop => {
                assert!(!ran);
                ran = true;
                session.advance(loop_report)
            }
            Directive::Finish | Directive::Abort => return (asked, ran, directive),
        };
    }
    panic!("the session did not come to an end");
}

#[test]
fn a_new_session_asks_for_the_alternate_screen() {
    let session = Session::new();
    assert_eq!(session.stage, Stage::Acquiring(Property::AlternateScreen));
    assert_eq!(session.directive(), Directive::Perform(ENTER[0]));
}

#[test]
fn a_session_enters_runs_and_leaves_in_reverse_order() {
    let mut terminal = TerminalMode::new();
    let (asked, ran, last) = drive(&mut terminal, &|_| false, Report::LoopReturned);
    let mut expected = ENTER.to_vec();
    expected.extend(EXIT);
    assert_eq!(asked, expected);
    assert!(ran);
    assert_eq!(last, Directive::Finish);
    assert_eq!(terminal, TerminalMode::new());
}

#[test]
fn the_terminal_is_given_back_when_the_loop_fails() {
    let mut terminal = TerminalMode::new();
    let (asked, ran, last) = drive(&mut terminal, &|_| false, Report::LoopFailed);
    assert_eq!(asked[3..], EXIT);
    assert!(ran);
    assert_eq!(last, Directive::Finish);
    assert_eq!(terminal, TerminalMode::new());
}

#[test]
fn all_three_properties_are_on_while_the_loop_runs() {
    let mut session = Session::new();
    let mut terminal = TerminalMode::new();
    for op in ENTER {
        assert_eq!(session.directive(), Directive::Perform(op));
        terminal.apply(op);
        session.advance(Report::StepDone);
    }
    assert_eq!(session.stage, Stage::Running);
    assert_eq!(session.directive(), Directive::RunLoop);
    assert_eq!(
        terminal,
        TerminalMode { alternate_screen: true, raw_mode: true, cursor_hidden: true }
    );
}

#[test]
fn a_failed_teardown_step_does_not_stop_the_next_ones() {
    for failing in EXIT {
        let mut terminal = TerminalMode::new();
        let (asked, ran, last) = drive(&mut terminal, &|op| op == failing, Report::LoopReturned);
        assert_eq!(asked[3..], EXIT);
        assert!(ran);
        assert_eq!(last, Directive::Finish);
    }
    let mut terminal = TerminalMode::new();
    let (asked, _, last) =
        drive(&mut terminal, &|op| matches!(op, SessionOp::Release(_)), Report::LoopFailed);
    assert_eq!(asked[3..], EXIT);
    assert_eq!(last, Directive::Finish);
}

/// What a session asks for when the setup step with this index fails: the
/// steps up to that one, then the release of what was taken, last one first.
fn asked_when_setup_fails_at(index: usize) -> Vec<SessionOp> {
    let mut expected = ENTER[..=index].to_vec();
    expected.extend(&EXIT[EXIT.len() - index..]);
    expected
}

#[test]
fn a_failed_setup_step_is_fatal_and_undoes_what_was_taken() {
    for (index, failing) in ENTER.into_iter().enumerate() {
        let mut terminal = TerminalMode::new();
        let (asked, ran, last) = drive(&mut terminal, &|op| op == failing, Report::LoopReturned);
        assert_eq!(asked, asked_when_setup_fails_at(index));
        assert!(!ran);
        assert_eq!(last, Directive::Abort);
        assert_eq!(terminal, TerminalMode::new());
    }
}

#[test]
fn the_releases_after_a_failed_setup_step() {
    assert_eq!(asked_when_setup_fails_at(0), vec![ENTER[0]]);
    assert_eq!(
        asked_when_setup_fails_at(1),
        vec![ENTER[0], ENTER[1], SessionOp::Release(Property::AlternateScreen)]
    );
    assert_eq!(
        asked_when_setup_fails_at(2),
        vec![
            ENTER[0],
            ENTER[1],
            ENTER[2],
            SessionOp::Release(Property::RawMode),
            SessionOp::Release(Property::AlternateScreen),
        ]
    );
}

#[test]
fn a_failed_release_does_not_stop_the_undoing_of_a_failed_setup() {
    let fails = |op: SessionOp| {
        op == SessionOp::Acquire(Property::HiddenCursor) || matches!(op, SessionOp::Release(_))
    };
    let mut terminal = TerminalMode::new();
    let (asked, ran, last) = drive(&mut terminal, &fails, Report::LoopReturned);
    assert_eq!(asked, asked_when_setup_fails_at(2));
    assert!(!ran);
    assert_eq!(last, Directive::Abort);
}

#[test]
fn the_stages_after_a_failed_setup_step() {
    let mut session = Session { stage: Stage::Acquiring(Property::AlternateScreen) };
    assert_eq!(session.advance(Report::StepFailed), Directive::Abort);
    assert_eq!(session.stage, Stage::Aborted);

    let mut session = Session { stage: Stage::Acquiring(Property::RawMode) };
    assert_eq!(
        session.advance(Report::StepFailed),
        Directive::Perform(SessionOp::Release(Property::AlternateScreen))
    );
    assert_eq!(session.stage, Stage::Unwinding(Property::AlternateScreen));
    assert_eq!(session.advance(Report::StepDone), Directive::Abort);
    assert_eq!(session.stage, Stage::Aborted);

    let mut session = Session { stage: Stage::Acquiring(Property::HiddenCursor) };
    assert_eq!(
        session.advance(Report::StepFailed),
        Directive::Perform(SessionOp::Release(Property::RawMode))
    );
    assert_eq!(session.stage, Stage::Unwinding(Property::RawMode));
    assert_eq!(
        session.advance(Report::StepFailed),
        Directive::Perform(SessionOp::Release(Property::AlternateScreen))
    );
    assert_eq!(session.stage, Stage::Unwinding(Property::AlternateScreen));
    assert_eq!(session.advance(Report::StepDone), Directive::Abort);
    assert_eq!(session.stage, Stage::Aborted);
}

#[test]
fn an_aborted_or_closed_session_stays_so() {
    let reports = [Report::StepDone, Report::StepFailed, Report::LoopReturned, Report::LoopFailed];
    for report in reports {
        let mut aborted = Session { stage: Stage::Aborted };
        assert_eq!(aborted.advance(report), Directive::Abort);
        assert_eq!(aborted.stage, Stage::Aborted);
        let mut closed = Session { stage: Stage::Closed };
        assert_eq!(closed.advance(report), Directive::Finish);
        assert_eq!(closed.stage, Stage::Closed);
    }
}

#[test]
fn a_report_that_answers_nothing_changes_nothing() {
    let mut session = Session::new();
    assert_eq!(session.advance(Report::LoopReturned), Directive::Perform(ENTER[0]));
    assert_eq!(session.advance(Report::LoopFailed), Directive::Perform(ENTER[0]));
    assert_eq!(session.stage, Stage::Acquiring(Property::AlternateScreen));
    let mut session = Session { stage: Stage::Running };
    assert_eq!(session.advance(Report::StepDone), Directive::RunLoop);
    assert_eq!(session.advance(Report::StepFailed), Directive::RunLoop);
    assert_eq!(session.stage, Stage::Running);
    let mut session = Session { stage: Stage::Releasing(Property::RawMode) };
    assert_eq!(session.advance(Report::LoopReturned), Directive::Perform(EXIT[1]));
    assert_eq!(session.stage, Stage::Releasing(Property::RawMode));
    let mut session = Session { stage: Stage::Unwinding(Property::RawMode) };
    assert_eq!(session.advance(Report::LoopFailed), Directive::Perform(EXIT[1]));
    assert_eq!(session.advance(Report::LoopReturned), Directive::Perform(EXIT[1]));
    assert_eq!(session.stage, Stage::Unwinding(Property::RawMode));
}

#[test]
fn the_model_terminal_records_each_operation() {
    let mut terminal = TerminalMode::new();
    terminal.apply(SessionOp::Acquire(Property::RawMode));
    assert_eq!(
        terminal,
        TerminalMode { alternate_screen: false, raw_mode: true, cursor_hidden: false }
    );
    terminal.apply(SessionOp::Acquire(Property::HiddenCursor));
    terminal.apply(SessionOp::Acquire(Property::AlternateScreen));
    terminal.apply(SessionOp::Release(Property::RawMode));
    assert_eq!(
        terminal,
        TerminalMode { alternate_screen: true, raw_mode: false, cursor_hidden: true }
    );
    terminal.apply(SessionOp::Release(Property::RawMode));
    assert_eq!(
        terminal,
        TerminalMode { alternate_screen: true, raw_mode: false, cursor_hidden: true }
    );
}

#[test]
fn a_teardown_turns_everything_off_whatever_was_on() {
    for bits in 0u8..8 {
        let mut terminal = TerminalMode {
            alternate_screen: bits & 1 != 0,
            raw_mode: bits & 2 != 0,
            cursor_hidden: bits & 4 != 0,
        };
        for op in EXIT {
            terminal.apply(op);
        }
        assert_eq!(terminal, TerminalMode::new());
    }
}
