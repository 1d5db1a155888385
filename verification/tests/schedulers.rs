use node_flow::flows::one_of_parallel_flow::{classify, BranchOutput, RaceMove, RaceScheduler};
use node_flow::flows::one_of_sequential_flow::{one_of_step, OneOfStep};
use node_flow::flows::parallel_flow::JoinScheduler;
use node_flow::flows::sequential_flow::{sequential_step, SequentialStep};
use node_flow::future_utils::SoftFailPoll;
use node_flow::node::NodeOutput;

type Out = BranchOutput<u8, &'static str, char>;

fn pending() -> SoftFailPoll<Out> {
    classify::<u8, &'static str, char>(None)
}

fn ready(value: u8, context: char) -> SoftFailPoll<Out> {
    classify(Some(Ok((NodeOutput::Success(value), context))))
}

fn failed(error: &'static str) -> SoftFailPoll<Out> {
    classify::<u8, &'static str, char>(Some(Err(error)))
}

fn soft_failed(context: char) -> SoftFailPoll<Out> {
    classify::<u8, &'static str, char>(Some(Ok((NodeOutput::SoftFail, context))))
}

/// `None` for a pending race, `Some(None)` for one that soft-failed, and
/// `Some(Some(..))` for one that is settled.
fn verdict_of(verdict: SoftFailPoll<Out>) -> Option<Option<Out>> {
    match verdict {
        SoftFailPoll::Pending => None,
        SoftFailPoll::SoftFail => Some(None),
        SoftFailPoll::Ready(output) => Some(Some(output)),
    }
}

#[test]
fn classify_sorts_what_a_branch_gave() {
    assert!(matches!(pending(), SoftFailPoll::Pending));
    assert!(matches!(soft_failed('a'), SoftFailPoll::SoftFail));
    assert!(matches!(
        ready(3, 'a'),
        SoftFailPoll::Ready(Ok((NodeOutput::Success(3), 'a')))
    ));
    assert!(matches!(failed("no"), SoftFailPoll::Ready(Err("no"))));
}

#[test]
fn sequential_step_continues_on_a_value() {
    let step = sequential_step::<u8, ()>(Ok(NodeOutput::Success(3)), false);
    assert!(matches!(step, SequentialStep::Continue(3)));
}

#[test]
fn sequential_step_finishes_on_the_last_value() {
    let step = sequential_step::<u8, ()>(Ok(NodeOutput::Success(3)), true);
    assert!(matches!(step, SequentialStep::Finish(Ok(NodeOutput::Success(3)))));
}

#[test]
fn sequential_step_finishes_on_soft_fail_and_error() {
    let step = sequential_step::<u8, u8>(Ok(NodeOutput::SoftFail), false);
    assert!(matches!(step, SequentialStep::Finish(Ok(NodeOutput::SoftFail))));
    let step = sequential_step::<u8, u8>(Err(7), false);
    assert!(matches!(step, SequentialStep::Finish(Err(7))));
}

#[test]
fn one_of_step_sorts_the_three_outcomes() {
    assert!(matches!(one_of_step::<u8, u8>(Ok(NodeOutput::Success(3))), OneOfStep::Absorb(3)));
    assert!(matches!(one_of_step::<u8, u8>(Ok(NodeOutput::SoftFail)), OneOfStep::TryNext));
    assert!(matches!(one_of_step::<u8, u8>(Err(9)), OneOfStep::Abort(9)));
}

#[test]
fn race_pass_is_pending_while_a_branch_runs() {
    let mut race = RaceScheduler::new(3);
    let verdict = race.poll_pass(vec![soft_failed('a'), pending(), pending()]);
    assert_eq!(verdict_of(verdict), None);
}

#[test]
fn race_soft_failed_branch_does_not_stop_a_later_value() {
    let mut race = RaceScheduler::new(2);
    let verdict = race.poll_pass(vec![soft_failed('a'), ready(5, 'b')]);
    assert_eq!(verdict_of(verdict), Some(Some(Ok((NodeOutput::Success(5), 'b')))));
}

#[test]
fn race_value_at_a_lower_index_wins_over_a_soft_fail_after_it() {
    let mut race = RaceScheduler::new(2);
    let verdict = race.poll_pass(vec![ready(5, 'a'), soft_failed('b')]);
    assert_eq!(verdict_of(verdict), Some(Some(Ok((NodeOutput::Success(5), 'a')))));
}

#[test]
fn race_first_ready_branch_in_scan_order_wins() {
    let mut race = RaceScheduler::new(3);
    let verdict = race.poll_pass(vec![pending(), failed("second"), ready(1, 'c')]);
    assert_eq!(verdict_of(verdict), Some(Some(Err("second"))));
}

#[test]
fn race_soft_fails_only_after_every_branch_was_seen_to() {
    let mut race = RaceScheduler::new(3);
    let verdict = race.poll_pass(vec![soft_failed('a'), pending(), soft_failed('c')]);
    assert_eq!(verdict_of(verdict), None);
    let verdict = race.poll_pass(vec![pending(), pending(), pending()]);
    assert_eq!(verdict_of(verdict), None);
    let verdict = race.poll_pass(vec![pending(), soft_failed('b'), pending()]);
    assert_eq!(verdict_of(verdict), Some(None));
}

#[test]
fn race_does_not_poll_a_branch_that_soft_failed() {
    let mut race = RaceScheduler::new(2);
    // a branch that soft-failed is out: what it would answer now is ignored
    let verdict = race.poll_pass(vec![soft_failed('a'), pending()]);
    assert_eq!(verdict_of(verdict), None);
    let verdict = race.poll_pass(vec![ready(9, 'a'), pending()]);
    assert_eq!(verdict_of(verdict), None);
    let verdict = race.poll_pass(vec![ready(9, 'a'), ready(1, 'b')]);
    assert_eq!(verdict_of(verdict), Some(Some(Ok((NodeOutput::Success(1), 'b')))));
}

#[test]
fn race_moves_follow_the_scan_order() {
    let mut race = RaceScheduler::new(3);
    assert_eq!(race.awaits(), Some(0));
    assert_eq!(race.next_move(), RaceMove::Poll(0));
    assert_eq!(race.awaits(), Some(0));
    assert!(race.report(0, soft_failed('a')).is_none());
    assert_eq!(race.next_move(), RaceMove::Poll(1));
    assert!(race.report(1, pending()).is_none());
    assert_eq!(race.next_move(), RaceMove::Poll(2));
    assert!(race.report(2, pending()).is_none());
    assert_eq!(race.awaits(), None);
    assert_eq!(race.next_move(), RaceMove::Pending);
    // the next pass skips the branch that is out of the race
    assert_eq!(race.awaits(), None);
    assert_eq!(race.next_move(), RaceMove::Poll(1));
    assert!(race.report(1, soft_failed('b')).is_none());
    assert_eq!(race.next_move(), RaceMove::Poll(2));
    assert_eq!(race.report(2, failed("late")), Some(Err("late")));
}

#[test]
fn race_without_branches_soft_fails() {
    let mut race = RaceScheduler::new(0);
    assert_eq!(race.next_move(), RaceMove::SoftFail);
}

fn done(value: u8, context: char) -> Option<Out> {
    Some(Ok((NodeOutput::Success(value), context)))
}

#[test]
fn join_is_ready_only_when_all_branches_finished() {
    let mut join: JoinScheduler<u8, &'static str, char> = JoinScheduler::new(3);
    assert!(!join.is_ready());
    assert!(!join.poll_pass(vec![done(1, 'a'), None, None]));
    assert!(!join.poll_pass(vec![None, None, Some(Err("third"))]));
    assert!(join.poll_pass(vec![None, done(2, 'b'), None]));
    assert_eq!(join.finish(), Err("third"));
}

#[test]
fn join_keeps_what_a_branch_finished_with() {
    let mut join: JoinScheduler<u8, &'static str, char> = JoinScheduler::new(2);
    assert!(!join.poll_pass(vec![done(1, 'a'), None]));
    assert!(!join.needs_poll(0));
    assert!(join.needs_poll(1));
    // what a finished branch would answer now is ignored
    assert!(join.poll_pass(vec![Some(Err("again")), Some(Ok((NodeOutput::SoftFail, 'b')))]));
    let (outputs, contexts) = join.finish().unwrap();
    assert_eq!(outputs, vec![NodeOutput::Success(1), NodeOutput::SoftFail]);
    assert_eq!(contexts, vec!['a', 'b']);
}

#[test]
fn join_reports_the_lowest_indexed_error() {
    let mut join: JoinScheduler<u8, &'static str, char> = JoinScheduler::new(6);
    assert_eq!(join.len(), 6);
    join.record(4, Some(Err("fifth")));
    join.record(2, Some(Err("third")));
    for index in [0, 1, 3, 5] {
        join.record(index, done(0, 'x'));
    }
    assert!(join.is_ready());
    assert_eq!(join.finish(), Err("third"));
}

#[test]
fn join_without_branches_is_ready_at_once() {
    let join: JoinScheduler<u8, &'static str, char> = JoinScheduler::new(0);
    assert!(join.is_ready());
    assert_eq!(join.finish(), Ok((vec![], vec![])));
}
