use rvkern::thread::{Thread, ThreadState};

#[test]
fn fresh_threads_start_stopped() {
    let t = Thread::new(3);
    assert_eq!(t.state, ThreadState::Stopped);
    assert_eq!(t.priority, 3);
}
