use gssctx::client::InitReply;
use gssctx::context::{delete_ctx, Plan, Step};
use gssctx::server::{resolve_delegated, AcceptReply};
use gssctx::status::{GSS_S_COMPLETE, GSS_S_CONTINUE_NEEDED};
use gssctx::{Buf, ClientCtx, Cred, Error, ServerCtx};

const GSS_S_DEFECTIVE_TOKEN: u32 = 9 << 16;

fn accept(major: u32, ctx: usize, out_tok: Buf, delegated_cred: usize) -> AcceptReply {
    AcceptReply { major, minor: 0, ctx, out_tok, delegated_cred }
}

fn init(major: u32, ctx: usize, out_tok: Buf) -> InitReply {
    InitReply { major, minor: 0, ctx, out_tok }
}

#[test]
fn delete_ctx_skips_the_null_handle() {
    assert_eq!(delete_ctx(0), None);
    assert_eq!(delete_ctx(0x9000), Some(0x9000));
}

#[test]
fn a_new_server_asks_for_the_first_accept() {
    let server = ServerCtx::new(&Cred { handle: 0xa0 });
    assert!(!server.is_complete());
    assert!(!server.is_failed());
    match server.plan(b"hello") {
        Plan::Call(call) => {
            assert_eq!(call.ctx, 0);
            assert_eq!(call.cred, 0xa0);
            assert_eq!(call.tok.borrow(), &b"hello"[..]);
        }
        Plan::Return(_) => panic!("a new context must call the service"),
    }
    assert_eq!(server.close(), None);
}

#[test]
fn a_new_client_asks_for_the_first_init_without_a_token() {
    let client = ClientCtx::new(Cred { handle: 0xb0 });
    match client.plan(None) {
        Plan::Call(call) => {
            assert_eq!(call.ctx, 0);
            assert_eq!(call.cred, 0xb0);
            assert!(call.tok.is_none());
        }
        Plan::Return(_) => panic!("a new context must call the service"),
    }
    assert_eq!(client.close(), None);
}

#[test]
fn handshake_completes_on_both_ends() {
    let mut client = ClientCtx::new(Cred { handle: 0xb0 });
    let mut server = ServerCtx::new(&Cred { handle: 0xa0 });

    // The client's first step has no token and yields T1.
    assert!(matches!(client.plan(None), Plan::Call(_)));
    let t1 = client.step(init(GSS_S_CONTINUE_NEEDED, 0x100, Buf { value: 0x1000, length: 3 }));
    assert_eq!(t1, Step::idle(Ok(Some(Buf { value: 0x1000, length: 3 }))));
    assert!(!client.is_complete());

    // The server consumes T1, completes, and still has T2 for the client.
    assert!(matches!(server.plan(b"\x01\x02\x03"), Plan::Call(_)));
    let t2 = server.step(accept(GSS_S_COMPLETE, 0x200, Buf { value: 0x2000, length: 2 }, 0));
    assert_eq!(t2, Step::idle(Ok(Some(Buf { value: 0x2000, length: 2 }))));
    assert!(server.is_complete());

    // The client consumes T2, completes, and has nothing more to send.
    match client.plan(Some(b"\x04\x05")) {
        Plan::Call(call) => {
            assert_eq!(call.ctx, 0x100);
            assert_eq!(call.cred, 0xb0);
            assert_eq!(call.tok.map(|t| t.borrow().to_vec()), Some(vec![4u8, 5]));
        }
        Plan::Return(_) => panic!("a partial context must call the service"),
    }
    let end = client.step(init(GSS_S_COMPLETE, 0x100, Buf::empty()));
    assert_eq!(end, Step::idle(Ok(None)));
    assert!(client.is_complete());
    assert!(server.is_complete());

    assert_eq!(client.close(), Some(0x100));
    assert_eq!(server.close(), Some(0x200));
}

#[test]
fn server_stays_partial_while_the_service_asks_to_continue() {
    let mut server = ServerCtx::new(&Cred { handle: 0xa0 });
    let first = server.step(accept(GSS_S_CONTINUE_NEEDED, 0x200, Buf { value: 0x2000, length: 9 }, 0));
    assert_eq!(first.result, Ok(Some(Buf { value: 0x2000, length: 9 })));
    assert!(!server.is_complete());
    assert!(!server.is_failed());
    match server.plan(b"next") {
        Plan::Call(call) => {
            assert_eq!(call.ctx, 0x200);
            assert_eq!(call.cred, 0xa0);
        }
        Plan::Return(_) => panic!("a partial context must call the service"),
    }
    assert_eq!(server.close(), Some(0x200));
}

#[test]
fn an_empty_token_is_still_returned_while_continuing() {
    let mut server = ServerCtx::new(&Cred { handle: 0xa0 });
    let step = server.step(accept(GSS_S_CONTINUE_NEEDED, 0x200, Buf::empty(), 0));
    assert_eq!(step, Step::idle(Ok(Some(Buf::empty()))));
}

#[test]
fn an_empty_final_token_is_released_not_returned() {
    let mut server = ServerCtx::new(&Cred { handle: 0xa0 });
    let step = server.step(accept(GSS_S_COMPLETE, 0x200, Buf { value: 0x2000, length: 0 }, 0));
    assert_eq!(
        step,
        Step {
            result: Ok(None),
            delete_ctx: None,
            release_tok: Some(Buf { value: 0x2000, length: 0 }),
            wrapped_cred: None,
        }
    );
    assert!(server.is_complete());
}

#[test]
fn step_is_idempotent_once_complete() {
    let mut server = ServerCtx::new(&Cred { handle: 0xa0 });
    server.step(accept(GSS_S_COMPLETE, 0x200, Buf::empty(), 0xd0));
    assert!(server.is_complete());
    for _ in 0..3 {
        assert!(matches!(server.plan(b"late"), Plan::Return(Ok(None))));
        // Even a reply that nobody asked for changes nothing.
        let again = server.step(accept(GSS_S_DEFECTIVE_TOKEN, 0x999, Buf { value: 1, length: 1 }, 0xee));
        assert_eq!(again, Step::idle(Ok(None)));
        assert!(server.is_complete());
        assert_eq!(server.delegated_cred(), Some(Cred { handle: 0xd0 }));
    }
    assert_eq!(server.close(), Some(0x200));

    let mut client = ClientCtx::new(Cred { handle: 0xb0 });
    client.step(init(GSS_S_COMPLETE, 0x100, Buf::empty()));
    for _ in 0..3 {
        assert!(matches!(client.plan(Some(b"late")), Plan::Return(Ok(None))));
        assert_eq!(client.step(init(GSS_S_DEFECTIVE_TOKEN, 0, Buf::empty())), Step::idle(Ok(None)));
        assert!(client.is_complete());
    }
}

#[test]
fn step_is_idempotent_once_failed() {
    let e = Error { major: GSS_S_DEFECTIVE_TOKEN, minor: 42 };
    let mut server = ServerCtx::new(&Cred { handle: 0xa0 });
    let failed = server.step(AcceptReply {
        major: GSS_S_DEFECTIVE_TOKEN,
        minor: 42,
        ctx: 0x200,
        out_tok: Buf { value: 0x2000, length: 5 },
        delegated_cred: 0,
    });
    assert_eq!(
        failed,
        Step {
            result: Err(e),
            delete_ctx: Some(0x200),
            release_tok: Some(Buf { value: 0x2000, length: 5 }),
            wrapped_cred: None,
        }
    );
    assert!(server.is_failed());
    for _ in 0..3 {
        assert!(matches!(server.plan(b"late"), Plan::Return(Err(err)) if err == e));
        let again = server.step(accept(GSS_S_COMPLETE, 0x300, Buf::empty(), 0));
        assert_eq!(again, Step::idle(Err(e)));
        assert!(server.is_failed());
    }
    assert_eq!(server.close(), None);

    let mut client = ClientCtx::new(Cred { handle: 0xb0 });
    let failed = client.step(InitReply {
        major: GSS_S_DEFECTIVE_TOKEN,
        minor: 42,
        ctx: 0,
        out_tok: Buf::empty(),
    });
    assert_eq!(failed, Step::idle(Err(e)));
    for _ in 0..3 {
        assert!(matches!(client.plan(None), Plan::Return(Err(err)) if err == e));
        assert_eq!(client.step(init(GSS_S_COMPLETE, 0x100, Buf::empty())), Step::idle(Err(e)));
    }
    assert_eq!(client.close(), None);
}

#[test]
fn a_failure_in_a_later_round_gives_the_context_up() {
    let mut client = ClientCtx::new(Cred { handle: 0xb0 });
    client.step(init(GSS_S_CONTINUE_NEEDED, 0x100, Buf { value: 0x1000, length: 3 }));
    let failed = client.step(init(GSS_S_DEFECTIVE_TOKEN | GSS_S_CONTINUE_NEEDED, 0x100, Buf::empty()));
    assert_eq!(
        failed,
        Step {
            result: Err(Error { major: GSS_S_DEFECTIVE_TOKEN | 1, minor: 0 }),
            delete_ctx: Some(0x100),
            release_tok: None,
            wrapped_cred: None,
        }
    );
    assert!(client.is_failed());
    assert_eq!(client.close(), None);
}

#[test]
fn a_delegated_credential_is_wrapped_once() {
    let mut server = ServerCtx::new(&Cred { handle: 0xa0 });
    assert_eq!(server.delegated_cred(), None);

    let first = server.step(accept(GSS_S_CONTINUE_NEEDED, 0x200, Buf::empty(), 0xd0));
    assert_eq!(first.wrapped_cred, Some(Cred { handle: 0xd0 }));
    assert_eq!(server.delegated_cred(), Some(Cred { handle: 0xd0 }));

    // The same handle again: the wrapper is kept, none is made.
    let second = server.step(accept(GSS_S_CONTINUE_NEEDED, 0x200, Buf::empty(), 0xd0));
    assert_eq!(second.wrapped_cred, None);
    assert_eq!(server.delegated_cred(), Some(Cred { handle: 0xd0 }));

    // Another handle: a new wrapper replaces the old.
    let third = server.step(accept(GSS_S_CONTINUE_NEEDED, 0x200, Buf::empty(), 0xd8));
    assert_eq!(third.wrapped_cred, Some(Cred { handle: 0xd8 }));
    assert_eq!(server.delegated_cred(), Some(Cred { handle: 0xd8 }));

    // The null handle: nothing is held any more.
    let last = server.step(accept(GSS_S_COMPLETE, 0x200, Buf::empty(), 0));
    assert_eq!(last.wrapped_cred, None);
    assert_eq!(server.delegated_cred(), None);
    assert!(server.is_complete());
}

#[test]
fn resolve_delegated_compares_handles() {
    assert_eq!(resolve_delegated(None, 0), (None, None));
    assert_eq!(resolve_delegated(Some(Cred { handle: 7 }), 0), (None, None));
    assert_eq!(
        resolve_delegated(None, 7),
        (Some(Cred { handle: 7 }), Some(Cred { handle: 7 }))
    );
    assert_eq!(resolve_delegated(Some(Cred { handle: 7 }), 7), (Some(Cred { handle: 7 }), None));
    assert_eq!(
        resolve_delegated(Some(Cred { handle: 7 }), 8),
        (Some(Cred { handle: 8 }), Some(Cred { handle: 8 }))
    );
}

#[test]
fn a_failed_step_holds_no_delegated_credential() {
    let mut server = ServerCtx::new(&Cred { handle: 0xa0 });
    let failed = server.step(accept(GSS_S_DEFECTIVE_TOKEN, 0, Buf::empty(), 0xd0));
    assert_eq!(
        failed,
        Step {
            result: Err(Error { major: GSS_S_DEFECTIVE_TOKEN, minor: 0 }),
            delete_ctx: None,
            release_tok: None,
            wrapped_cred: Some(Cred { handle: 0xd0 }),
        }
    );
    assert_eq!(server.delegated_cred(), None);
}
