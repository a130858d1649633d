use paperdump::dispatcher::{Dispatcher, Route};
use paperdump::event::{normalize, DocEvent, RawKind};

#[test]
fn normalize_create_becomes_created() {
    let r = normalize(RawKind::EntryCreated, String::from("a.png"));
    assert_eq!(r, Some(DocEvent::Created(String::from("a.png"))));
}

#[test]
fn normalize_modify_becomes_chunk() {
    let r = normalize(RawKind::EntryModified, String::from("a.png"));
    assert_eq!(r, Some(DocEvent::Chunk(String::from("a.png"))));
}

#[test]
fn normalize_discards_other_kinds() {
    let r = normalize(RawKind::Other, String::from("a.png"));
    assert_eq!(r, None);
}

#[test]
fn created_spawns_a_worker() {
    let mut d = Dispatcher::new();
    let r = d.route(DocEvent::Created(String::from("a.png")), 1);
    assert_eq!(r, Route::Spawned(1));
    assert_eq!(d.pending(), 1);
}

#[test]
fn duplicate_created_is_ignored() {
    let mut d = Dispatcher::new();
    d.route(DocEvent::Created(String::from("a.png")), 1);
    let r = d.route(DocEvent::Created(String::from("a.png")), 2);
    assert_eq!(r, Route::DuplicateCreated);
    // Still exactly one live entry for the path.
    assert_eq!(d.pending(), 1);
    assert_eq!(d.table.get(&String::from("a.png")), Some(1));
}

#[test]
fn chunk_is_forwarded_to_the_recorded_handle() {
    let mut d = Dispatcher::new();
    d.route(DocEvent::Created(String::from("a.png")), 7);
    d.route(DocEvent::Created(String::from("b.png")), 8);
    let r = d.route(DocEvent::Chunk(String::from("b.png")), 9);
    assert_eq!(r, Route::Forward(8));
    assert_eq!(d.pending(), 2);
}

#[test]
fn stray_chunk_is_dropped() {
    let mut d = Dispatcher::new();
    d.route(DocEvent::Created(String::from("a.png")), 1);
    let r = d.route(DocEvent::Chunk(String::from("other.png")), 2);
    assert_eq!(r, Route::Stray);
    assert_eq!(d.pending(), 1);
}

#[test]
fn done_reclaims_exactly_one_entry() {
    let mut d = Dispatcher::new();
    d.route(DocEvent::Created(String::from("a.png")), 1);
    d.route(DocEvent::Created(String::from("b.png")), 2);
    let r = d.route(DocEvent::Done(String::from("a.png")), 3);
    assert_eq!(r, Route::Reclaimed);
    assert_eq!(d.pending(), 1);
    assert_eq!(d.table.get(&String::from("b.png")), Some(2));
    assert_eq!(d.table.get(&String::from("a.png")), None);
}

#[test]
fn reclaiming_an_absent_path_is_a_no_op() {
    let mut d = Dispatcher::new();
    d.route(DocEvent::Created(String::from("a.png")), 1);
    d.route(DocEvent::Done(String::from("a.png")), 2);
    let r = d.route(DocEvent::Done(String::from("a.png")), 3);
    assert_eq!(r, Route::AlreadyGone);
    assert_eq!(d.pending(), 0);
    let r = d.route(DocEvent::Failed(String::from("a.png")), 4);
    assert_eq!(r, Route::AlreadyGone);
    assert_eq!(d.pending(), 0);
}

#[test]
fn failed_reclaims_like_done() {
    let mut d = Dispatcher::new();
    d.route(DocEvent::Created(String::from("a.png")), 1);
    let r = d.route(DocEvent::Failed(String::from("a.png")), 2);
    assert_eq!(r, Route::Reclaimed);
    assert_eq!(d.pending(), 0);
}
