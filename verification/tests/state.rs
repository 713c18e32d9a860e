use bpf::state::{apply_attach, apply_detach, apply_lock, FilterState};
use bpf::{attach_request, bpfprog, syscall_result, FilterError, Prog, SockOptPayload};

#[test]
fn fresh_socket_is_unlocked_and_unfiltered() {
    let st: FilterState = FilterState::new();
    assert!(!st.installed);
    assert!(!st.locked);
}

#[test]
fn attach_then_detach_both_succeed_when_unlocked() {
    let prog: Prog = bpfprog(1, vec![(0x06, 0, 0, 64)]);
    let st: FilterState = FilterState::new();
    let (attached, attach_ret): (FilterState, i32) = apply_attach(st, &prog, true);
    assert_eq!(attach_ret, 0);
    assert!(attached.installed);
    let (detached, detach_ret): (FilterState, i32) = apply_detach(attached);
    assert_eq!(detach_ret, 0);
    assert!(!detached.installed);
}

#[test]
fn detach_succeeds_with_nothing_installed() {
    let st: FilterState = FilterState::new();
    let (after, ret): (FilterState, i32) = apply_detach(st);
    assert_eq!(ret, 0);
    assert!(!after.installed);
}

#[test]
fn attach_of_a_rejected_program_fails_and_changes_nothing() {
    let prog: Prog = Prog::new(Vec::new());
    let st: FilterState = FilterState::new();
    let (after, ret): (FilterState, i32) = apply_attach(st, &prog, false);
    assert_ne!(ret, 0);
    assert_eq!(after, st);
}

#[test]
fn lock_then_attach_fails_with_an_os_call_failure() {
    let prog: Prog = bpfprog(1, vec![(0x06, 0, 0, 64)]);
    let st: FilterState = FilterState::new();
    let (locked, lock_ret): (FilterState, i32) = apply_lock(st);
    assert_eq!(lock_ret, 0);
    assert!(locked.locked);
    let (_, attach_ret): (FilterState, i32) = apply_attach(locked, &prog, true);
    assert_ne!(attach_ret, 0);
    assert_eq!(syscall_result(attach_ret, 1), Err(FilterError::OsCall(1)));
}

#[test]
fn lock_then_detach_fails_with_an_os_call_failure() {
    let st: FilterState = FilterState::new();
    let (locked, _): (FilterState, i32) = apply_lock(st);
    let (after, detach_ret): (FilterState, i32) = apply_detach(locked);
    assert_ne!(detach_ret, 0);
    assert!(after.locked);
    assert_eq!(syscall_result(detach_ret, 1), Err(FilterError::OsCall(1)));
}

#[test]
fn accept_up_to_n_bytes_end_to_end() {
    // A one-instruction program: the return instruction accepting up
    // to 96 bytes of each packet.
    let n: u32 = 96;
    let prog: Prog = bpfprog(1, vec![(0x06, 0, 0, n)]);
    assert_eq!(prog.len(), 1);
    let req = attach_request(prog);
    let prog_again: Prog = match req.payload {
        SockOptPayload::Program(p) => p,
        _ => panic!("attach must carry the program"),
    };
    assert_eq!(prog_again.ops()[0].k, n);

    // Against a freshly opened socket: attach succeeds, detach
    // succeeds, lock succeeds, and a second attach is refused as an
    // OS call failure.
    let st: FilterState = FilterState::new();
    let (st, ret): (FilterState, i32) = apply_attach(st, &prog_again, true);
    assert_eq!(syscall_result(ret, 22), Ok(()));
    let (st, ret): (FilterState, i32) = apply_detach(st);
    assert_eq!(syscall_result(ret, 22), Ok(()));
    let (st, ret): (FilterState, i32) = apply_lock(st);
    assert_eq!(ret, 0);
    let (_, ret): (FilterState, i32) = apply_attach(st, &prog_again, true);
    assert_eq!(syscall_result(ret, 1), Err(FilterError::OsCall(1)));
}
