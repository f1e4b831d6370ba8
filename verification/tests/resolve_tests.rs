use filehost::resolve::{FsEvent, Resolver};

#[test]
fn empty_input_resolves_nothing() {
    let mut r = Resolver::new(Vec::new());
    assert_eq!(r.next_pending(), None);
    assert!(r.resolved.is_empty());
}

#[test]
fn nonexistent_inputs_resolve_nothing() {
    let mut r = Resolver::new(vec!["/gone/a".to_string(), "/gone/b".to_string()]);
    while let Some(_path) = r.next_pending() {
        r.step(FsEvent::NotExists);
    }
    assert!(r.resolved.is_empty());
    assert!(r.visited.is_empty());
}

#[test]
fn leaves_accumulate_in_order() {
    let mut r = Resolver::new(vec!["/a".to_string(), "/b".to_string()]);
    assert_eq!(r.next_pending(), Some("/a".to_string()));
    r.step(FsEvent::Leaf("/a".to_string()));
    assert_eq!(r.next_pending(), Some("/b".to_string()));
    r.step(FsEvent::Leaf("/b".to_string()));
    assert_eq!(r.next_pending(), None);
    assert_eq!(r.resolved, vec!["/a".to_string(), "/b".to_string()]);
}

#[test]
fn directory_entries_resolve_before_siblings() {
    let mut r = Resolver::new(vec!["/d".to_string(), "/z".to_string()]);
    assert_eq!(r.next_pending(), Some("/d".to_string()));
    r.step(FsEvent::Dir(
        "/d".to_string(),
        vec!["/d/x".to_string(), "/d/y".to_string()],
    ));
    assert_eq!(r.next_pending(), Some("/d/x".to_string()));
    r.step(FsEvent::Leaf("/d/x".to_string()));
    assert_eq!(r.next_pending(), Some("/d/y".to_string()));
    r.step(FsEvent::Leaf("/d/y".to_string()));
    assert_eq!(r.next_pending(), Some("/z".to_string()));
    r.step(FsEvent::Leaf("/z".to_string()));
    assert_eq!(r.next_pending(), None);
    assert_eq!(
        r.resolved,
        vec!["/d/x".to_string(), "/d/y".to_string(), "/z".to_string()]
    );
}

#[test]
fn visited_directory_is_not_expanded_twice() {
    let mut r = Resolver::new(vec!["/d".to_string(), "/link".to_string()]);
    assert_eq!(r.next_pending(), Some("/d".to_string()));
    r.step(FsEvent::Dir("/d".to_string(), vec!["/d/x".to_string()]));
    assert_eq!(r.next_pending(), Some("/d/x".to_string()));
    r.step(FsEvent::Leaf("/d/x".to_string()));
    // the second input is a symlink that canonicalizes back to /d
    assert_eq!(r.next_pending(), Some("/link".to_string()));
    r.step(FsEvent::Dir("/d".to_string(), vec!["/d/x".to_string()]));
    assert_eq!(r.next_pending(), None);
    assert_eq!(r.resolved, vec!["/d/x".to_string()]);
    assert_eq!(r.visited, vec!["/d".to_string()]);
}
