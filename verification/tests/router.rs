use event_router::Event;
use event_router::EventKind;
use event_router::Handler;
use event_router::Op;
use event_router::Recorder;
use event_router::Router;
use event_router::Tally;

#[test]
fn test_router() {
    let mut router = Router::<Recorder>::default();
    router.on(Recorder::new(EventKind::Int));
    router.on(Recorder::new(EventKind::Pair));
    router.on(Recorder::new(EventKind::Mark));
    router.on(Recorder::new(EventKind::Note));

    router.emit(Event::Int(3));
    router.emit(Event::Pair(2, 3));
    router.emit(Event::Note(232));
    router.emit(Event::Mark(232));

    let ints = router.source(EventKind::Int).unwrap().handler();
    assert_eq!(ints.seen().len(), 1);
    assert_eq!(ints.seen()[0], Event::Int(3));
    let pairs = router.source(EventKind::Pair).unwrap().handler();
    assert_eq!(pairs.seen().len(), 1);
    assert_eq!(pairs.seen()[0], Event::Pair(2, 3));
    let marks = router.source(EventKind::Mark).unwrap().handler();
    assert_eq!(marks.seen().len(), 1);
    assert_eq!(marks.seen()[0], Event::Mark(232));
    let notes = router.source(EventKind::Note).unwrap().handler();
    assert_eq!(notes.seen().len(), 1);
    assert_eq!(notes.seen()[0], Event::Note(232));
}

#[test]
fn emitting_unrelated_kind_never_invokes_a_handler() {
    let mut router = Router::<Recorder>::new();
    router.on(Recorder::new(EventKind::Int));

    router.emit(Event::Pair(1, 2));
    router.emit(Event::Text(String::from("hello")));

    let ints = router.source(EventKind::Int).unwrap().handler();
    assert!(ints.seen().is_empty());
}

#[test]
fn second_registration_for_a_kind_wins() {
    let mut first = Recorder::new(EventKind::Int);
    first.call(Event::Int(7));
    let second = Recorder::new(EventKind::Int);

    let mut router = Router::<Recorder>::new();
    router.on(first);
    router.on(second);
    router.emit(Event::Int(3));

    let active = router.source(EventKind::Int).unwrap().handler();
    assert_eq!(active.seen().len(), 1);
    assert_eq!(active.seen()[0], Event::Int(3));
}

#[test]
fn emitting_an_unregistered_kind_is_a_silent_no_op() {
    let mut router = Router::<Recorder>::new();
    router.emit(Event::Int(5));
    router.emit(Event::Text(String::from("nobody listens")));
    assert!(router.source(EventKind::Int).is_none());
    assert!(router.source(EventKind::Text).is_none());
}

#[test]
fn handler_receives_the_exact_emitted_value() {
    let mut router = Router::<Recorder>::new();
    router.on(Recorder::new(EventKind::Text));
    router.on(Recorder::new(EventKind::Pair));

    router.emit(Event::Text(String::from("exactly this")));
    router.emit(Event::Text(String::new()));
    router.emit(Event::Pair(-2147483648, 2147483647));

    let texts = router.source(EventKind::Text).unwrap().handler();
    assert_eq!(texts.seen()[0], Event::Text(String::from("exactly this")));
    assert_eq!(texts.seen()[1], Event::Text(String::new()));
    let pairs = router.source(EventKind::Pair).unwrap().handler();
    assert_eq!(pairs.seen()[0], Event::Pair(-2147483648, 2147483647));
}

#[test]
fn looking_up_a_source_does_not_invoke_it() {
    let mut router = Router::<Recorder>::new();
    router.on(Recorder::new(EventKind::Mark));
    assert!(router.source(EventKind::Mark).is_some());
    assert!(router.source(EventKind::Mark).unwrap().handler().seen().is_empty());
}

#[test]
fn wrapped_handler_behaves_like_the_handler_itself() {
    let mut plain = Router::<Recorder>::new();
    plain.on(Recorder::new(EventKind::Int));
    let mut wrapped = Router::<Box<Recorder>>::new();
    wrapped.on(Box::new(Recorder::new(EventKind::Int)));

    plain.emit(Event::Int(11));
    plain.emit(Event::Pair(1, 2));
    wrapped.emit(Event::Int(11));
    wrapped.emit(Event::Pair(1, 2));

    let p = plain.source(EventKind::Int).unwrap().handler();
    let w = wrapped.source(EventKind::Int).unwrap().handler();
    assert_eq!(p.seen(), w.seen());
    assert_eq!(p.seen()[0], Event::Int(11));
}

#[test]
fn doubling_and_product_scenario() {
    let mut router = Router::<Tally>::new();
    router.on(Tally::new(Op::Double));
    router.on(Tally::new(Op::Product));

    router.emit(Event::Int(21));
    router.emit(Event::Pair(6, 7));
    router.emit(Event::Text(String::from("never registered")));

    let doubler = router.source(EventKind::Int).unwrap().handler();
    assert_eq!(doubler.values(), &vec![42]);
    let multiplier = router.source(EventKind::Pair).unwrap().handler();
    assert_eq!(multiplier.values(), &vec![42]);
    assert!(router.source(EventKind::Text).is_none());
}

#[test]
fn tally_extremes_do_not_overflow() {
    let mut doubler = Tally::new(Op::Double);
    doubler.call(Event::Int(i32::MIN));
    doubler.call(Event::Int(i32::MAX));
    assert_eq!(doubler.values(), &vec![-4294967296, 4294967294]);

    let mut multiplier = Tally::new(Op::Product);
    multiplier.call(Event::Pair(i32::MIN, i32::MIN));
    multiplier.call(Event::Pair(i32::MIN, i32::MAX));
    assert_eq!(
        multiplier.values(),
        &vec![4611686018427387904, -4611686016279904256]
    );
}

#[test]
fn recorder_keeps_every_value_in_order() {
    let mut recorder = Recorder::new(EventKind::Int);
    recorder.call(Event::Int(1));
    recorder.call(Event::Int(2));
    recorder.call(Event::Int(3));
    assert_eq!(
        recorder.seen(),
        &vec![Event::Int(1), Event::Int(2), Event::Int(3)]
    );
}
