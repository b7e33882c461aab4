//! The decisions of the peer server: which steps a request takes from the
//! moment it has been read to the moment its reply is written, and what
//! the acceptor does with a connection.
//!
//! The server itself waits on sockets and locks; it asks these functions
//! what to do next and tells them what came back.

use crate::peer::{DistRequest, DistRequestView, Response, ResponseView};
use vstd::prelude::*;

verus! {

/// One of the two maps of the metadata store, each behind a lock of its
/// own.
#[derive(Debug, Clone, Copy, PartialEq, Eq, Structural)]
pub enum Table {
    /// The map from paths to inode numbers.
    Paths,
    /// The map from inode numbers to records.
    Inodes,
}

/// How a lock is taken.
#[derive(Debug, Clone, Copy, PartialEq, Eq, Structural)]
pub enum Mode {
    /// Together with other readers.
    Shared,
    /// Alone.
    Exclusive,
}

/// Who serves a request: one handler for each kind of request.
#[derive(Debug, Clone, Copy, PartialEq, Eq, Structural)]
pub enum Handler {
    TurnOff,
    Invalidate,
    CheckAvailable,
    Read,
    LoadDir,
    UpdateDir,
    RemoveDirEntry,
    GetFileAttr,
    PushFileAttr,
    Rename,
    Remove,
    GetInodeNum,
}

/// One step on the way from a request to its reply.
#[derive(Debug, Clone, Copy, PartialEq, Eq, Structural)]
pub enum Step {
    /// Take the lock of a table.
    Acquire(Table, Mode),
    /// Let the handler do its work.
    Serve(Handler),
    /// Give the lock of a table back.
    Release(Table),
    /// Write the reply to the peer.
    Reply,
}

/// The handler of a request.
pub open spec fn handler_of(request: DistRequestView) -> Handler {
    match request {
        DistRequestView::TurnOff => Handler::TurnOff,
        DistRequestView::Invalidate(_) => Handler::Invalidate,
        DistRequestView::CheckAvailable(_) => Handler::CheckAvailable,
        DistRequestView::Read(_) => Handler::Read,
        DistRequestView::LoadDir(_) => Handler::LoadDir,
        DistRequestView::UpdateDir(_) => Handler::UpdateDir,
        DistRequestView::RemoveDirEntry(_) => Handler::RemoveDirEntry,
        DistRequestView::GetFileAttr(_) => Handler::GetFileAttr,
        DistRequestView::PushFileAttr(_) => Handler::PushFileAttr,
        DistRequestView::Rename(_) => Handler::Rename,
        DistRequestView::Remove(_) => Handler::Remove,
        DistRequestView::GetInodeNum => Handler::GetInodeNum,
    }
}

/// How a handler takes the two tables, paths first: `None` for a handler
/// that works on neither. Only `UpdateDir` takes both alone.
pub open spec fn locks_of(handler: Handler) -> Option<(Mode, Mode)> {
    match handler {
        Handler::LoadDir => Some((Mode::Shared, Mode::Shared)),
        Handler::UpdateDir => Some((Mode::Exclusive, Mode::Exclusive)),
        Handler::RemoveDirEntry => Some((Mode::Shared, Mode::Exclusive)),
        Handler::GetFileAttr => Some((Mode::Shared, Mode::Shared)),
        Handler::PushFileAttr => Some((Mode::Shared, Mode::Exclusive)),
        _ => None,
    }
}

/// The steps of a request that `handler` serves: the locks, paths before
/// inodes, the work, the locks given back, and the reply at the end.
pub open spec fn steps_of(handler: Handler) -> Seq<Step> {
    match locks_of(handler) {
        Some((paths, inodes)) => seq![
            Step::Acquire(Table::Paths, paths),
            Step::Acquire(Table::Inodes, inodes),
            Step::Serve(handler),
            Step::Release(Table::Inodes),
            Step::Release(Table::Paths),
            Step::Reply,
        ],
        None => seq![Step::Serve(handler), Step::Reply],
    }
}

/// What the server does for one request.
#[derive(Debug)]
pub struct Dispatch {
    /// The steps to take, in order.
    pub steps: Vec<Step>,
    /// False for `TurnOff`, true for every other request.
    pub proceed: bool,
}

/// Decides what to do for `request`. Every request is served by one
/// handler and answered by one reply.
pub fn dispatch(request: &DistRequest) -> (plan: Dispatch)
    ensures
        plan.steps@ == steps_of(handler_of(request@)),
        plan.proceed == !(request@ is TurnOff),
{
    let handler = match request {
        DistRequest::TurnOff => Handler::TurnOff,
        DistRequest::Invalidate(_) => Handler::Invalidate,
        DistRequest::CheckAvailable(_) => Handler::CheckAvailable,
        DistRequest::Read(_) => Handler::Read,
        DistRequest::LoadDir(_) => Handler::LoadDir,
        DistRequest::UpdateDir(_) => Handler::UpdateDir,
        DistRequest::RemoveDirEntry(_) => Handler::RemoveDirEntry,
        DistRequest::GetFileAttr(_) => Handler::GetFileAttr,
        DistRequest::PushFileAttr(_) => Handler::PushFileAttr,
        DistRequest::Rename(_) => Handler::Rename,
        DistRequest::Remove(_) => Handler::Remove,
        DistRequest::GetInodeNum => Handler::GetInodeNum,
    };
    let locks = match handler {
        Handler::LoadDir | Handler::GetFileAttr => Some((Mode::Shared, Mode::Shared)),
        Handler::UpdateDir => Some((Mode::Exclusive, Mode::Exclusive)),
        Handler::RemoveDirEntry | Handler::PushFileAttr => Some((Mode::Shared, Mode::Exclusive)),
        _ => None,
    };
    let mut steps: Vec<Step> = Vec::new();
    if let Some((paths, inodes)) = locks {
        steps.push(Step::Acquire(Table::Paths, paths));
        steps.push(Step::Acquire(Table::Inodes, inodes));
        steps.push(Step::Serve(handler));
        steps.push(Step::Release(Table::Inodes));
        steps.push(Step::Release(Table::Paths));
    } else {
        steps.push(Step::Serve(handler));
    }
    steps.push(Step::Reply);
    assert(steps@ =~= steps_of(handler));
    let proceed = match handler {
        Handler::TurnOff => false,
        _ => true,
    };
    Dispatch { steps, proceed }
}

/// True if the lock of `table` is held just before step `at` of `steps`:
/// it was taken at an earlier step and not given back since.
pub open spec fn holds(steps: Seq<Step>, at: int, table: Table) -> bool
    decreases at,
{
    if at <= 0 {
        false
    } else {
        match steps[at - 1] {
            Step::Acquire(t, _) => t == table || holds(steps, at - 1, table),
            Step::Release(t) => t != table && holds(steps, at - 1, table),
            _ => holds(steps, at - 1, table),
        }
    }
}

/// No request waits for the lock of the paths while it holds the lock of
/// the inodes: where both are taken, the paths come first.
pub proof fn lemma_paths_before_inodes(handler: Handler, at: int)
    requires
        0 <= at < steps_of(handler).len(),
        steps_of(handler)[at] matches Step::Acquire(table, _) && table == Table::Paths,
    ensures
        !holds(steps_of(handler), at, Table::Inodes),
        !holds(steps_of(handler), at, Table::Paths),
{
    assert(at == 0);
}

/// No lock is held while the reply is written, and the reply is the last
/// step and the only reply.
pub proof fn lemma_reply_without_locks(handler: Handler, table: Table)
    ensures
        steps_of(handler).last() == Step::Reply,
        !holds(steps_of(handler), steps_of(handler).len() - 1, table),
        forall|at: int|
            0 <= at < steps_of(handler).len() - 1 ==> #[trigger] steps_of(handler)[at]
                != Step::Reply,
{
    reveal_with_fuel(holds, 7);
}

/// The handler works under exactly the locks that `locks_of` names, and
/// it is the only work of the request.
pub proof fn lemma_serve_under_locks(handler: Handler, at: int)
    requires
        0 <= at < steps_of(handler).len(),
        steps_of(handler)[at] is Serve,
    ensures
        steps_of(handler)[at] == Step::Serve(handler),
        holds(steps_of(handler), at, Table::Paths) <==> locks_of(handler) is Some,
        holds(steps_of(handler), at, Table::Inodes) <==> locks_of(handler) is Some,
        forall|other: int|
            0 <= other < steps_of(handler).len() && steps_of(handler)[other] is Serve ==> other
                == at,
{
    reveal_with_fuel(holds, 4);
}

/// Both tables are held alone by the handler of `UpdateDir` and by no
/// other.
pub proof fn lemma_only_update_dir_takes_both_alone(handler: Handler)
    ensures
        locks_of(handler) == Some((Mode::Exclusive, Mode::Exclusive)) <==> handler
            == Handler::UpdateDir,
{
}

/// What came back from the work of a handler.
#[derive(Debug)]
pub enum Outcome {
    /// A handler of this library computed the response.
    Answered(Response),
    /// The content cache or the metadata store did what was asked.
    Done,
    /// The content cache named the cached blocks and said whether the
    /// block asked for is among them.
    Availability(Vec<u64>, bool),
    /// The content cache handed out the bytes of a block, in pieces.
    Blocks(Vec<Vec<u8>>),
    /// The metadata store handed out the inode counter.
    InodeNumber(u32),
}

/// What is written to the peer.
#[derive(Debug)]
pub enum Reply {
    /// A response, encoded and framed.
    Message(Response),
    /// The pieces of a block, one behind the other in one frame.
    Blocks(Vec<Vec<u8>>),
    /// A number, as four bytes without a frame.
    Number(u32),
}

/// The views of the pieces of a block.
pub open spec fn pieces_view(pieces: Seq<Vec<u8>>) -> Seq<Seq<u8>> {
    Seq::new(pieces.len(), |i: int| pieces[i]@)
}

/// What a `Reply` holds.
pub enum ReplyView {
    Message(ResponseView),
    Blocks(Seq<Seq<u8>>),
    Number(u32),
}

impl View for Reply {
    type V = ReplyView;

    open spec fn view(&self) -> ReplyView {
        match *self {
            Reply::Message(response) => ReplyView::Message(response@),
            Reply::Blocks(pieces) => ReplyView::Blocks(pieces_view(pieces@)),
            Reply::Number(n) => ReplyView::Number(n),
        }
    }
}

/// What an `Outcome` holds.
pub enum OutcomeView {
    Answered(ResponseView),
    Done,
    Availability(Seq<u64>, bool),
    Blocks(Seq<Seq<u8>>),
    InodeNumber(u32),
}

impl View for Outcome {
    type V = OutcomeView;

    open spec fn view(&self) -> OutcomeView {
        match *self {
            Outcome::Answered(response) => OutcomeView::Answered(response@),
            Outcome::Done => OutcomeView::Done,
            Outcome::Availability(blocks, present) => OutcomeView::Availability(blocks@, present),
            Outcome::Blocks(pieces) => OutcomeView::Blocks(pieces_view(pieces@)),
            Outcome::InodeNumber(n) => OutcomeView::InodeNumber(n),
        }
    }
}

/// The response with which a handler of this library answers.
pub open spec fn answers_with(handler: Handler, response: ResponseView) -> bool {
    match handler {
        Handler::TurnOff => response is TurnOff,
        Handler::LoadDir => response is LoadDir,
        Handler::UpdateDir | Handler::RemoveDirEntry => response is UpdateDir,
        Handler::GetFileAttr => response is GetAttr,
        Handler::PushFileAttr => response is PushAttr,
        _ => false,
    }
}

/// The reply to a request that `handler` served with `outcome`, or `None`
/// where the outcome is not one that the handler can have.
pub open spec fn spec_reply(handler: Handler, outcome: OutcomeView) -> Option<ReplyView> {
    match (handler, outcome) {
        (Handler::Invalidate, OutcomeView::Done) => Some(
            ReplyView::Message(ResponseView::Invalidate),
        ),
        (Handler::Rename, OutcomeView::Done) => Some(ReplyView::Message(ResponseView::Rename)),
        (Handler::Remove, OutcomeView::Done) => Some(ReplyView::Message(ResponseView::Remove)),
        (Handler::CheckAvailable, OutcomeView::Availability(blocks, present)) => Some(
            ReplyView::Message(
                ResponseView::CheckAvailable(
                    if present {
                        Some(blocks)
                    } else {
                        None
                    },
                ),
            ),
        ),
        (Handler::Read, OutcomeView::Blocks(pieces)) => Some(ReplyView::Blocks(pieces)),
        (Handler::GetInodeNum, OutcomeView::InodeNumber(n)) => Some(ReplyView::Number(n)),
        (_, OutcomeView::Answered(response)) => if answers_with(handler, response) {
            Some(ReplyView::Message(response))
        } else {
            None
        },
        _ => None,
    }
}

/// Chooses the reply to a request that `handler` served with `outcome`.
/// Returns `None` where the outcome is not one that the handler can have:
/// nothing is written then.
pub fn reply(handler: Handler, outcome: Outcome) -> (r: Option<Reply>)
    ensures
        match r {
            Some(reply) => spec_reply(handler, outcome@) == Some(reply@),
            None => spec_reply(handler, outcome@) is None,
        },
{
    match outcome {
        Outcome::Done => match handler {
            Handler::Invalidate => Some(Reply::Message(Response::Invalidate)),
            Handler::Rename => Some(Reply::Message(Response::Rename)),
            Handler::Remove => Some(Reply::Message(Response::Remove)),
            _ => None,
        },
        Outcome::Availability(blocks, present) => match handler {
            Handler::CheckAvailable => Some(
                Reply::Message(crate::server::check_available((blocks, present))),
            ),
            _ => None,
        },
        Outcome::Blocks(pieces) => match handler {
            Handler::Read => Some(Reply::Blocks(pieces)),
            _ => None,
        },
        Outcome::InodeNumber(n) => match handler {
            Handler::GetInodeNum => Some(Reply::Number(n)),
            _ => None,
        },
        Outcome::Answered(response) => {
            let fits = match handler {
                Handler::TurnOff => matches!(response, Response::TurnOff),
                Handler::LoadDir => matches!(response, Response::LoadDir(_)),
                Handler::UpdateDir | Handler::RemoveDirEntry => matches!(
                    response,
                    Response::UpdateDir
                ),
                Handler::GetFileAttr => matches!(response, Response::GetAttr(_)),
                Handler::PushFileAttr => matches!(response, Response::PushAttr),
                _ => false,
            };
            if fits {
                Some(Reply::Message(response))
            } else {
                None
            }
        },
    }
}

} // verus!
