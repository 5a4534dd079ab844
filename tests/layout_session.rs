use xkb_layout::session::{Event, GroupNames, Session, SessionError, WaitStep, GROUP_SLOTS};
use xkb_layout::startup::{version_supported, Progress, Reply, Request, Startup};

fn names(list: &[&str]) -> GroupNames {
    let v: Vec<String> = list.iter().map(|s| s.to_string()).collect();
    match GroupNames::from_resolved(&v) {
        Ok(g) => g,
        Err(e) => panic!("table refused: {:?}", e),
    }
}

fn session(list: &[&str], group: u8) -> Session {
    match Session::new(names(list), group) {
        Ok(s) => s,
        Err(e) => panic!("session refused: {:?}", e),
    }
}

fn next(stage: Startup, reply: Reply) -> Startup {
    match stage.on_reply(reply) {
        Ok(Progress::Next(s)) => s,
        Ok(Progress::Done(_)) => panic!("startup finished early"),
        Err(e) => panic!("startup failed: {:?}", e),
    }
}

fn finish(stage: Startup, reply: Reply) -> Session {
    match stage.on_reply(reply) {
        Ok(Progress::Done(s)) => s,
        Ok(Progress::Next(_)) => panic!("startup not finished"),
        Err(e) => panic!("startup failed: {:?}", e),
    }
}

fn info(s: &Session) -> String {
    s.get_info().expect("get_info does not fail")
}

/// Runs the whole startup against a server that names these groups and
/// reports this current group.
fn start(table: &[&str], group: u8) -> Session {
    let mut stage = Startup::new();
    assert_eq!(stage.request(), Request::UseExtension { wanted_major: 1, wanted_minor: 0 });
    stage = next(stage, Reply::Extension { supported: true, major: 1, minor: 0 });
    assert_eq!(stage.request(), Request::SelectGroupEvents);
    stage = next(stage, Reply::Sent);
    assert_eq!(stage.request(), Request::GetGroupNames);
    let atoms: Vec<u32> = (0..table.len() as u32).map(|i| 100 + i).collect();
    stage = next(stage, Reply::GroupNames { atoms: atoms.clone() });
    for (i, name) in table.iter().enumerate() {
        assert_eq!(stage.request(), Request::GetAtomName { atom: atoms[i] });
        stage = next(stage, Reply::AtomName { name: name.to_string() });
    }
    assert_eq!(stage.request(), Request::GetState);
    finish(stage, Reply::State { group })
}

#[test]
fn end_to_end_change_and_unrelated_event() {
    let mut s = start(&["us", "de", "", ""], 0);
    assert_eq!(info(&s), "us");
    assert_eq!(s.on_event(Event::GroupChanged { group: 1 }), Ok(WaitStep::Changed));
    assert_eq!(info(&s), "de");
    assert_eq!(s.current_group(), 1);
    assert_eq!(s.on_event(Event::Other), Ok(WaitStep::KeepWaiting));
    assert_eq!(info(&s), "de");
    assert_eq!(s.on_event(Event::GroupChanged { group: 0 }), Ok(WaitStep::Changed));
    assert_eq!(info(&s), "us");
}

#[test]
fn every_valid_group_gives_its_name() {
    let table = ["us", "de", "fr(azerty)", "ru"];
    let mut s = session(&table, 0);
    for i in 0..4u8 {
        assert_eq!(s.on_event(Event::GroupChanged { group: i }), Ok(WaitStep::Changed));
        assert_eq!(info(&s), table[i as usize]);
        assert_eq!(s.current_group(), i as usize);
    }
}

#[test]
fn unrelated_events_keep_waiting() {
    let mut s = session(&["us", "de"], 1);
    for _ in 0..3 {
        assert_eq!(s.on_event(Event::Other), Ok(WaitStep::KeepWaiting));
    }
    assert_eq!(info(&s), "de");
    assert_eq!(s.current_group(), 1);
}

#[test]
fn group_past_the_table_is_an_error() {
    let mut s = session(&["us", "de", "", ""], 1);
    assert_eq!(
        s.on_event(Event::GroupChanged { group: 4 }),
        Err(SessionError::GroupOutOfRange { group: 4, len: 4 })
    );
    assert_eq!(
        s.on_event(Event::GroupChanged { group: 255 }),
        Err(SessionError::GroupOutOfRange { group: 255, len: 4 })
    );
    assert_eq!(info(&s), "de");
    assert_eq!(s.current_group(), 1);
}

#[test]
fn unsupported_extension_fails_startup() {
    let cases = [(false, 1, 0), (true, 0, 9), (false, 2, 3)];
    for (supported, major, minor) in cases {
        match Startup::new().on_reply(Reply::Extension { supported, major, minor }) {
            Err(e) => assert_eq!(e, SessionError::Unsupported { supported, major, minor }),
            Ok(_) => panic!("startup went on without the extension"),
        }
    }
}

#[test]
fn version_check() {
    assert!(version_supported(true, 1, 0));
    assert!(version_supported(true, 1, 7));
    assert!(version_supported(true, 2, 0));
    assert!(!version_supported(true, 0, 65535));
    assert!(!version_supported(false, 1, 0));
}

#[test]
fn too_many_group_names_fail_startup() {
    let mut stage = Startup::new();
    stage = next(stage, Reply::Extension { supported: true, major: 1, minor: 0 });
    stage = next(stage, Reply::Sent);
    match stage.on_reply(Reply::GroupNames { atoms: vec![1, 2, 3, 4, 5] }) {
        Err(e) => assert_eq!(e, SessionError::TooManyGroups { count: 5 }),
        Ok(_) => panic!("five group names accepted"),
    }
}

#[test]
fn no_group_names_gives_empty_table() {
    let s = start(&[], 2);
    assert_eq!(info(&s), "");
    assert_eq!(s.current_group(), 2);
}

#[test]
fn missing_names_stay_empty() {
    let mut s = start(&["us", "de"], 1);
    assert_eq!(info(&s), "de");
    assert_eq!(s.on_event(Event::GroupChanged { group: 3 }), Ok(WaitStep::Changed));
    assert_eq!(info(&s), "");
}

#[test]
fn current_group_past_the_table_fails_startup() {
    let mut stage = Startup::new();
    stage = next(stage, Reply::Extension { supported: true, major: 1, minor: 0 });
    stage = next(stage, Reply::Sent);
    stage = next(stage, Reply::GroupNames { atoms: vec![] });
    match stage.on_reply(Reply::State { group: 4 }) {
        Err(e) => assert_eq!(e, SessionError::GroupOutOfRange { group: 4, len: 4 }),
        Ok(_) => panic!("current group past the table accepted"),
    }
}

#[test]
fn reply_of_wrong_kind_fails_startup() {
    match Startup::new().on_reply(Reply::Sent) {
        Err(e) => assert_eq!(e, SessionError::UnexpectedReply),
        Ok(_) => panic!("wrong reply accepted"),
    }
    let stage = next(Startup::new(), Reply::Extension { supported: true, major: 1, minor: 1 });
    match stage.on_reply(Reply::State { group: 0 }) {
        Err(e) => assert_eq!(e, SessionError::UnexpectedReply),
        Ok(_) => panic!("wrong reply accepted"),
    }
}

#[test]
fn table_is_padded_to_the_group_slots() {
    let g = names(&["us"]);
    assert_eq!(g.len(), GROUP_SLOTS);
    assert_eq!(g.name(0).map(|s| s.as_str()), Some("us"));
    assert_eq!(g.name(1).map(|s| s.as_str()), Some(""));
    assert_eq!(g.name(3).map(|s| s.as_str()), Some(""));
    assert_eq!(g.name(4), None);
}

#[test]
fn table_refuses_five_names() {
    let v: Vec<String> = ["a", "b", "c", "d", "e"].iter().map(|s| s.to_string()).collect();
    assert!(matches!(
        GroupNames::from_resolved(&v),
        Err(SessionError::TooManyGroups { count: 5 })
    ));
}

#[test]
fn session_refuses_group_past_the_table() {
    assert!(matches!(
        Session::new(names(&["us"]), 4),
        Err(SessionError::GroupOutOfRange { group: 4, len: 4 })
    ));
}
