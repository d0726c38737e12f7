use fictional_waffle::event::{Event, KeyCode, KeyEvent, KeyKind};
use fictional_waffle::session::{
    producer_step, InputItem, ProducerAction, Shutdown, StopAction, Wake, ABORT_POLLS, GRACE_POLLS, POLL_MS,
    TICK_MS,
};

#[test]
fn cancelled_while_idle_finishes_within_one_poll() {
    assert_eq!(producer_step(Wake::Cancelled), ProducerAction::Exit);
    let mut s = Shutdown::new();
    assert_eq!(s.poll(true), StopAction::Done);
    assert_eq!(s.polls, 0);
    assert_eq!(POLL_MS, 250);
}

#[test]
fn producer_translates_wakes() {
    assert_eq!(TICK_MS, 60);
    assert_eq!(producer_step(Wake::Timer), ProducerAction::Send(Event::Tick));
    let press = KeyEvent { code: KeyCode::Char('a'), kind: KeyKind::Press };
    assert_eq!(producer_step(Wake::Input(InputItem::Key(press))), ProducerAction::Send(Event::Key(press)));
    let release = KeyEvent { code: KeyCode::Char('a'), kind: KeyKind::Release };
    assert_eq!(producer_step(Wake::Input(InputItem::Key(release))), ProducerAction::Skip);
    let repeat = KeyEvent { code: KeyCode::Enter, kind: KeyKind::Repeat };
    assert_eq!(producer_step(Wake::Input(InputItem::Key(repeat))), ProducerAction::Skip);
    assert_eq!(producer_step(Wake::Input(InputItem::Other)), ProducerAction::Skip);
    assert_eq!(producer_step(Wake::Input(InputItem::Failed)), ProducerAction::Send(Event::Error));
    assert_eq!(producer_step(Wake::Input(InputItem::Ended)), ProducerAction::Skip);
}

#[test]
fn shutdown_escalates_then_gives_up() {
    assert_eq!((GRACE_POLLS, ABORT_POLLS), (5, 10));
    let mut s = Shutdown::new();
    let mut seen = Vec::new();
    for _ in 0..12 {
        seen.push(s.poll(false));
    }
    assert_eq!(&seen[0..5], &[StopAction::Wait; 5]);
    assert_eq!(&seen[5..10], &[StopAction::AbortThenWait; 5]);
    assert_eq!(seen[10], StopAction::GiveUp);
    assert_eq!(seen[11], StopAction::GiveUp);
    assert_eq!(s.polls, 10);
}

#[test]
fn shutdown_after_an_abort_succeeds() {
    let mut s = Shutdown::new();
    for _ in 0..6 {
        s.poll(false);
    }
    assert_eq!(s.polls, 6);
    assert_eq!(s.poll(true), StopAction::Done);
    assert_eq!(s.polls, 6);
}
