use fuse_node::acceptor::{Acceptor, AcceptorAction, AcceptorEvent, AcceptorState, IpAddress};
use fuse_node::dispatch::{dispatch, reply, Handler, Mode, Outcome, Reply, Step, Table};
use fuse_node::meta::{FileAttr, FileKind, Timestamp};
use fuse_node::peer::{
    DistRequest, OpArgs, RemoveArgs, RemoveDirEntryArgs, RenameParam, Response, UpdateDirArgs,
};

fn attr() -> FileAttr {
    let t = Timestamp { secs: 0, nanos: 0 };
    FileAttr {
        ino: 1,
        size: 0,
        blocks: 0,
        atime: t,
        mtime: t,
        ctime: t,
        crtime: t,
        kind: FileKind::File,
        perm: 0o644,
        nlink: 1,
        uid: 0,
        gid: 0,
        rdev: 0,
        flags: 0,
    }
}

fn locked(paths: Mode, inodes: Mode, handler: Handler) -> Vec<Step> {
    vec![
        Step::Acquire(Table::Paths, paths),
        Step::Acquire(Table::Inodes, inodes),
        Step::Serve(handler),
        Step::Release(Table::Inodes),
        Step::Release(Table::Paths),
        Step::Reply,
    ]
}

#[test]
fn steps_of_every_request() {
    let args = || OpArgs { file_name: b"f".to_vec(), index: 1 };
    let plain = |handler| vec![Step::Serve(handler), Step::Reply];

    let plan = dispatch(&DistRequest::TurnOff);
    assert_eq!(plan.steps, plain(Handler::TurnOff));
    assert!(!plan.proceed);

    let cases: Vec<(DistRequest, Vec<Step>)> = vec![
        (DistRequest::Invalidate(args()), plain(Handler::Invalidate)),
        (DistRequest::CheckAvailable(args()), plain(Handler::CheckAvailable)),
        (DistRequest::Read(args()), plain(Handler::Read)),
        (
            DistRequest::LoadDir(b"/".to_vec()),
            locked(Mode::Shared, Mode::Shared, Handler::LoadDir),
        ),
        (
            DistRequest::UpdateDir(UpdateDirArgs {
                parent_path: b"/".to_vec(),
                child_name: b"c".to_vec(),
                child_attr: attr(),
                target_path: None,
            }),
            locked(Mode::Exclusive, Mode::Exclusive, Handler::UpdateDir),
        ),
        (
            DistRequest::RemoveDirEntry(RemoveDirEntryArgs {
                parent_path: b"/".to_vec(),
                child_name: b"c".to_vec(),
            }),
            locked(Mode::Shared, Mode::Exclusive, Handler::RemoveDirEntry),
        ),
        (
            DistRequest::GetFileAttr(b"/".to_vec()),
            locked(Mode::Shared, Mode::Shared, Handler::GetFileAttr),
        ),
        (
            DistRequest::PushFileAttr((b"/".to_vec(), attr())),
            locked(Mode::Shared, Mode::Exclusive, Handler::PushFileAttr),
        ),
        (
            DistRequest::Rename(RenameParam {
                old_parent: 1,
                old_name: b"a".to_vec(),
                new_parent: 1,
                new_name: b"b".to_vec(),
                flags: 0,
            }),
            plain(Handler::Rename),
        ),
        (
            DistRequest::Remove(RemoveArgs {
                parent: 1,
                child_name: b"a".to_vec(),
                child_type: FileKind::File,
            }),
            plain(Handler::Remove),
        ),
        (DistRequest::GetInodeNum, plain(Handler::GetInodeNum)),
    ];
    for (request, steps) in cases {
        let plan = dispatch(&request);
        assert_eq!(plan.steps, steps, "{:?}", request);
        assert!(plan.proceed);
    }
}

#[test]
fn paths_are_locked_before_inodes() {
    let plan = dispatch(&DistRequest::UpdateDir(UpdateDirArgs {
        parent_path: b"/".to_vec(),
        child_name: b"c".to_vec(),
        child_attr: attr(),
        target_path: None,
    }));
    let paths = plan.steps.iter().position(|s| matches!(s, Step::Acquire(Table::Paths, _)));
    let inodes = plan.steps.iter().position(|s| matches!(s, Step::Acquire(Table::Inodes, _)));
    let released = plan.steps.iter().rposition(|s| matches!(s, Step::Release(_)));
    let replied = plan.steps.iter().position(|s| matches!(s, Step::Reply));
    assert!(paths < inodes);
    assert!(released < replied);
    assert_eq!(replied, Some(plan.steps.len() - 1));
}

#[test]
fn replies_of_the_handlers() {
    assert!(matches!(
        reply(Handler::Invalidate, Outcome::Done),
        Some(Reply::Message(Response::Invalidate))
    ));
    assert!(matches!(
        reply(Handler::Rename, Outcome::Done),
        Some(Reply::Message(Response::Rename))
    ));
    assert!(matches!(
        reply(Handler::Remove, Outcome::Done),
        Some(Reply::Message(Response::Remove))
    ));
    match reply(Handler::CheckAvailable, Outcome::Availability(vec![4], true)) {
        Some(Reply::Message(Response::CheckAvailable(Some(blocks)))) => assert_eq!(blocks, vec![4]),
        other => panic!("unexpected reply {:?}", other),
    }
    assert!(matches!(
        reply(Handler::CheckAvailable, Outcome::Availability(vec![4], false)),
        Some(Reply::Message(Response::CheckAvailable(None)))
    ));
    match reply(Handler::Read, Outcome::Blocks(vec![b"a".to_vec(), b"b".to_vec()])) {
        Some(Reply::Blocks(pieces)) => assert_eq!(pieces, vec![b"a".to_vec(), b"b".to_vec()]),
        other => panic!("unexpected reply {:?}", other),
    }
    assert!(matches!(
        reply(Handler::GetInodeNum, Outcome::InodeNumber(17)),
        Some(Reply::Number(17))
    ));
    assert!(matches!(
        reply(Handler::TurnOff, Outcome::Answered(Response::TurnOff)),
        Some(Reply::Message(Response::TurnOff))
    ));
    assert!(matches!(
        reply(Handler::LoadDir, Outcome::Answered(Response::LoadDir(None))),
        Some(Reply::Message(Response::LoadDir(None)))
    ));
    assert!(matches!(
        reply(Handler::RemoveDirEntry, Outcome::Answered(Response::UpdateDir)),
        Some(Reply::Message(Response::UpdateDir))
    ));
    assert!(matches!(
        reply(Handler::GetFileAttr, Outcome::Answered(Response::GetAttr(Some(attr())))),
        Some(Reply::Message(Response::GetAttr(Some(_))))
    ));
    assert!(matches!(
        reply(Handler::PushFileAttr, Outcome::Answered(Response::PushAttr)),
        Some(Reply::Message(Response::PushAttr))
    ));
}

#[test]
fn outcomes_that_do_not_fit_give_no_reply() {
    assert!(reply(Handler::Invalidate, Outcome::InodeNumber(1)).is_none());
    assert!(reply(Handler::GetInodeNum, Outcome::Done).is_none());
    assert!(reply(Handler::TurnOff, Outcome::Done).is_none());
    assert!(reply(Handler::LoadDir, Outcome::Answered(Response::UpdateDir)).is_none());
    assert!(reply(Handler::UpdateDir, Outcome::Answered(Response::PushAttr)).is_none());
    assert!(reply(Handler::Read, Outcome::Availability(vec![], true)).is_none());
    assert!(reply(Handler::Rename, Outcome::Answered(Response::Rename)).is_none());
    assert!(reply(Handler::CheckAvailable, Outcome::Blocks(vec![])).is_none());
}

const HOME: IpAddress = IpAddress::V4(0x7f00_0001);
const PEER: IpAddress = IpAddress::V4(0x0a00_0002);

#[test]
fn turnoff_from_the_own_address_stops_the_acceptor() {
    let mut acceptor = Acceptor::new(HOME);
    assert_eq!(acceptor.state(), AcceptorState::Listening);
    assert!(acceptor.is_loopback(HOME));
    assert!(!acceptor.is_loopback(PEER));
    assert_eq!(acceptor.step(&AcceptorEvent::Accepted(HOME)), AcceptorAction::ReadLocalRequest);
    assert_eq!(acceptor.state(), AcceptorState::AwaitingLocalRequest);
    assert_eq!(
        acceptor.step(&AcceptorEvent::LocalRequest(DistRequest::TurnOff)),
        AcceptorAction::ReplyTurnOffAndStop
    );
    assert_eq!(acceptor.state(), AcceptorState::Stopped);
    // Nothing is served once the acceptor has stopped.
    assert_eq!(acceptor.step(&AcceptorEvent::Accepted(PEER)), AcceptorAction::Abort);
    assert_eq!(acceptor.state(), AcceptorState::Stopped);
}

#[test]
fn peers_never_stop_the_acceptor() {
    let mut acceptor = Acceptor::new(HOME);
    for peer in [PEER, IpAddress::V6(1), IpAddress::V6(0x7f00_0001), IpAddress::V4(0)] {
        assert_eq!(acceptor.step(&AcceptorEvent::Accepted(peer)), AcceptorAction::SpawnTask);
        assert_eq!(acceptor.state(), AcceptorState::Listening);
    }
}

#[test]
fn another_request_from_the_own_address_is_fatal() {
    let mut acceptor = Acceptor::new(IpAddress::V6(1));
    assert_eq!(
        acceptor.step(&AcceptorEvent::Accepted(IpAddress::V6(1))),
        AcceptorAction::ReadLocalRequest
    );
    assert_eq!(
        acceptor.step(&AcceptorEvent::LocalRequest(DistRequest::GetInodeNum)),
        AcceptorAction::Abort
    );
    assert_eq!(acceptor.state(), AcceptorState::Failed);
    assert_eq!(
        acceptor.step(&AcceptorEvent::LocalRequest(DistRequest::TurnOff)),
        AcceptorAction::Abort
    );
    assert_eq!(acceptor.state(), AcceptorState::Failed);
}

#[test]
fn failures_are_fatal_to_the_acceptor() {
    let mut acceptor = Acceptor::new(HOME);
    assert_eq!(acceptor.step(&AcceptorEvent::AcceptFailed), AcceptorAction::Abort);
    assert_eq!(acceptor.state(), AcceptorState::Failed);

    let mut acceptor = Acceptor::new(HOME);
    acceptor.step(&AcceptorEvent::Accepted(HOME));
    assert_eq!(acceptor.step(&AcceptorEvent::LocalReadFailed), AcceptorAction::Abort);
    assert_eq!(acceptor.state(), AcceptorState::Failed);

    // A request that no local connection announced.
    let mut acceptor = Acceptor::new(HOME);
    assert_eq!(
        acceptor.step(&AcceptorEvent::LocalRequest(DistRequest::TurnOff)),
        AcceptorAction::Abort
    );
    assert_eq!(acceptor.state(), AcceptorState::Failed);
}
