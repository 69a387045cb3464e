use deskbridge::motion::RemoteCursorLock;

#[test]
fn remote_cursor_lock_stays_at_edge_until_session_ends() {
    let mut lock = RemoteCursorLock::default();

    assert_eq!(lock.begin(999, 400, (1000, 800)), (999, 400));
    assert_eq!(lock.position(), Some((999, 400)));
    assert_eq!(lock.position(), Some((999, 400)));

    lock.end();
    assert_eq!(lock.position(), None);
}

#[test]
fn remote_cursor_lock_clamps_anchor_to_local_screen() {
    let mut lock = RemoteCursorLock::default();

    assert_eq!(lock.begin(1000, -1, (1000, 800)), (999, 0));
    assert_eq!(lock.position(), Some((999, 0)));
}
