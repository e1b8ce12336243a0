use openvmm::state_unit::transition::{
    check, check_consumed, collect_answers, extract, is_reply_critical, saved_units, take_state,
    Ready, Reply, Run, SavedStateUnit, StateOp, StateTransitionError, UnitError,
};
use openvmm::state_unit::units::{State, StateUnits, UnitHandle};

/// Performs all steps, and returns the names of the units that are asked, in order.
fn perform(units: &mut StateUnits, mut run: Run) -> Vec<String> {
    let mut asked = Vec::new();
    while let Some(i) = run.next() {
        assert!(run.is_ready(i));
        let name = run.steps[i].name.clone();
        if run.start_step(i) {
            asked.push(name);
            run.finish_step(i);
        }
    }
    assert!(run.is_finished());
    units.end(&run);
    asked
}

fn states(units: &StateUnits) -> Vec<State> {
    units.units.iter().map(|u| u.state).collect()
}

fn saved(name: &str) -> SavedStateUnit {
    SavedStateUnit {
        name: name.to_string(),
        state: vec![1],
    }
}

fn three(units: &mut StateUnits) -> Vec<UnitHandle> {
    let a = units.add("a").build(units).unwrap();
    let b = units.add("b").dependency_of(&a).build(units).unwrap();
    let c = units.add("c").dependency_of(&b).build(units).unwrap();
    vec![a, b, c]
}

#[test]
fn names_are_unique() {
    let mut units = StateUnits::new();
    units.add("a").build(&mut units).unwrap();
    let err = units.add("a").build(&mut units).err().unwrap();
    assert_eq!(err.0, "a");
    assert_eq!(err.describe(), "state unit name a is in use");
    assert_eq!(units.units.len(), 1);
    assert_eq!(units.find_name("a"), Some(0));
    assert_eq!(units.find_name("b"), None);
}

#[test]
fn units_change_their_states() {
    let mut units = StateUnits::new();
    units.add("a").build(&mut units).unwrap();
    units.add("b").build(&mut units).unwrap();
    let run = units.start();
    assert_eq!(states(&units), vec![State::Starting, State::Starting]);
    assert_eq!(perform(&mut units, run).len(), 2);
    assert!(units.is_running());
    assert_eq!(states(&units), vec![State::Running, State::Running]);

    // A unit that comes later is started when it is asked for.
    units.add("c").build(&mut units).unwrap();
    assert_eq!(states(&units)[2], State::Stopped);
    let run = units.start_stopped_units().unwrap();
    assert_eq!(perform(&mut units, run), vec!["c"]);

    let run = units.stop();
    assert_eq!(perform(&mut units, run).len(), 3);
    assert!(!units.is_running());
    assert!(units.start_stopped_units().is_none());
    let run = units.save();
    assert_eq!(perform(&mut units, run).len(), 3);
    let (run, _) = units.restore(vec![saved("a")]).unwrap();
    assert_eq!(perform(&mut units, run), vec!["a"]);
    let run = units.reset();
    assert_eq!(perform(&mut units, run).len(), 3);
    assert_eq!(states(&units), vec![State::Stopped; 3]);
}

#[test]
fn dependencies_start_first_and_stop_last() {
    let mut units = StateUnits::new();
    let a = units.add("zzz").build(&mut units).unwrap();
    units.add("aaa").depends_on(&a).build(&mut units).unwrap();
    let run = units.start();
    assert_eq!(perform(&mut units, run), vec!["zzz", "aaa"]);
    let run = units.stop();
    assert_eq!(perform(&mut units, run), vec!["aaa", "zzz"]);
    let (run, _) = units.restore(vec![saved("aaa"), saved("zzz")]).unwrap();
    assert_eq!(perform(&mut units, run), vec!["zzz", "aaa"]);
}

#[test]
fn units_without_state_still_order_others() {
    let mut units = StateUnits::new();
    three(&mut units);
    // The first depends on the third through the second, which has no state.
    let (mut run, matched) = units.restore(vec![saved("a"), saved("c")]).unwrap();
    let a = run.find(0).unwrap();
    let b = run.find(1).unwrap();
    let c = run.find(2).unwrap();
    assert_eq!(run.next(), Some(c));
    assert!(!run.is_ready(a));
    assert!(run.start_step(c));
    assert!(!run.is_ready(b));
    run.finish_step(c);
    // The second is not asked, so it is done at once.
    assert!(!run.is_ready(a));
    assert!(!run.start_step(b));
    assert!(run.is_ready(a));
    assert!(run.start_step(a));
    assert!(!run.is_finished());
    run.finish_step(a);
    assert!(run.is_finished());
    assert!(check_consumed(&matched, &run).is_ok());
}

#[test]
fn units_get_their_own_states_back() {
    let mut units = StateUnits::new();
    let handles = three(&mut units);
    let run = units.save();
    assert_eq!(perform(&mut units, run).len(), 3);
    let states = saved_units(vec![
        ("a".to_string(), Ok(Some(vec![1, 2]))),
        ("b".to_string(), Ok(None)),
        ("c".to_string(), Ok(Some(vec![3]))),
    ])
    .unwrap();
    let (run, mut matched) = units.restore(states).unwrap();
    assert!(check_consumed(&matched, &run).is_ok());
    assert_eq!(perform(&mut units, run), vec!["c", "a"]);
    assert_eq!(take_state(&mut matched, handles[2].id).unwrap().state, vec![3]);
    assert!(take_state(&mut matched, handles[1].id).is_none());
    assert_eq!(matched.len(), 1);
    assert_eq!(take_state(&mut matched, handles[0].id).unwrap().state, vec![1, 2]);
    assert!(take_state(&mut matched, handles[0].id).is_none());
}

#[test]
fn removed_units_are_not_waited_for() {
    let mut units = StateUnits::new();
    let mut handles = three(&mut units);
    let c = handles.pop().unwrap();
    assert!(is_reply_critical(&units, c.id));
    let id = c.id;
    units.remove(c);
    assert!(!is_reply_critical(&units, id));
    assert_eq!(units.find_id(id), None);
    let run = units.start();
    assert_eq!(perform(&mut units, run), vec!["b", "a"]);
    // The identifier is not used again.
    let d = units.add("d").build(&mut units).unwrap();
    assert!(d.id > id);
    let answers = collect_answers(
        &units,
        vec![
            (0, "a".to_string(), Reply::Value(5)),
            (1, "b".to_string(), Reply::Skipped),
            (id, "c".to_string(), Reply::Lost),
        ],
    );
    assert_eq!(answers, vec![("a".to_string(), 5)]);
}

#[test]
fn unknown_and_duplicate_states_are_refused() {
    let mut units = StateUnits::new();
    let mut handles = three(&mut units);
    let err = units
        .restore(vec![saved("a"), saved("x"), saved("a")])
        .err()
        .unwrap();
    // Nothing was begun.
    assert_eq!(states(&units), vec![State::Stopped; 3]);
    assert_eq!(err.op, "restore");
    assert_eq!(err.describe(), "restore failed");
    assert_eq!(
        err.describe_errors(),
        "{x: unknown unit name, a: duplicate unit name}"
    );
    // A unit that goes after its state was matched leaves the state behind.
    let matched = units.match_states(vec![saved("a"), saved("c")]).unwrap();
    units.remove(handles.pop().unwrap());
    let run = units.begin_restore(&matched);
    let err = check_consumed(&matched, &run).err().unwrap();
    assert_eq!(err.describe_errors(), "{c: unknown unit name}");
}

#[test]
fn failures_are_collected() {
    let ok = |n: u8| Ok(Some(vec![n]));
    let r = saved_units(vec![
        ("a".to_string(), ok(1)),
        ("b".to_string(), Ok(None)),
    ])
    .unwrap();
    assert_eq!(r.len(), 1);
    assert_eq!((r[0].name.as_str(), &r[0].state[..]), ("a", &[1][..]));
    let err = saved_units(vec![
        ("a".to_string(), ok(1)),
        ("b".to_string(), Err(UnitError::Failed("broken".to_string()))),
    ])
    .err()
    .unwrap();
    assert_eq!(err.describe(), "save failed");
    assert_eq!(err.describe_errors(), "{b: broken}");
    assert!(check("reset", vec![("a".to_string(), Ok(()))]).is_ok());
    let err: StateTransitionError =
        check("reset", vec![("a".to_string(), Err(UnitError::Duplicate))])
            .err()
            .unwrap();
    assert_eq!(err.op, "reset");
    assert_eq!(
        extract("save", vec![("a".to_string(), Ok(Some(3)))]).unwrap(),
        vec![("a".to_string(), 3)]
    );
    assert_eq!(StateOp::Restore.name(), "restore");
}

#[test]
fn readiness_is_told_once() {
    let mut r = Ready::default();
    assert!(!r.is_ready());
    assert_eq!(r.poll(), None);
    r.signal(false);
    assert!(r.is_ready());
    assert_eq!(r.poll(), Some(false));
    let mut r = Ready::default();
    r.signal(true);
    assert_eq!(r.poll(), Some(true));
}
