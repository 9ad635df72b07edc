use crate::diagnostics::DiagnosticsView;
use crate::ipc::MsgFromView;
use crate::ipc::MsgToEqWAlizer;
use crate::protocol::next_iteration;
use crate::protocol::prefetches;
use crate::protocol::reaction;
use crate::protocol::reply_to_ast;
use crate::protocol::ActionView;
use crate::protocol::AstErrorView;
use crate::protocol::NextView;
use crate::protocol::RequestLoop;
use crate::shell::shell_merge;
use crate::shell::shell_opening;
use crate::shell::shell_reaction;
use crate::shell::ShellLoopView;
use crate::shell::ShellNextView;
use vstd::prelude::*;

verus! {

/// Every blocking receive of a record stands directly behind a cancellation
/// check.
pub open spec fn checks_before_receiving(actions: Seq<ActionView>) -> bool {
    forall|i: int|
        0 <= i < actions.len() && #[trigger] actions[i] is Receive ==> i > 0 && actions[i
            - 1] is CheckCancelled
}

/// The list ends with the cancellation check and the receive that open the
/// next iteration.
pub open spec fn ends_with_next_iteration(actions: Seq<ActionView>) -> bool {
    actions.len() >= 2 && actions.subrange(actions.len() - 2, actions.len() as int)
        == next_iteration()
}

/// The raw bytes of a syntax tree are written as their length announced
/// them: behind the announcement comes the child's newline, then exactly as
/// many bytes as announced, and none where the announced length is zero. No
/// bytes are written anywhere else.
pub open spec fn bytes_as_announced(actions: Seq<ActionView>) -> bool {
    &&& forall|i: int|
        0 <= i < actions.len() ==> (#[trigger] actions[i] matches ActionView::Send(
            MsgToEqWAlizer::GetAstBytesReply { ast_bytes_len },
        ) ==> {
            &&& i + 1 < actions.len()
            &&& actions[i + 1] is ReceiveNewline
            &&& ast_bytes_len == 0 ==> !(i + 2 < actions.len() && actions[i + 2] is SendBytes)
            &&& ast_bytes_len > 0 ==> i + 2 < actions.len() && (actions[i + 2] matches ActionView::SendBytes(
                bytes,
            ) && bytes.len() == ast_bytes_len)
        })
    &&& forall|j: int|
        0 <= j < actions.len() && #[trigger] actions[j] is SendBytes ==> {
            &&& j >= 2
            &&& actions[j - 1] is ReceiveNewline
            &&& actions[j - 2] matches ActionView::Send(
                MsgToEqWAlizer::GetAstBytesReply { ast_bytes_len },
            ) && actions[j]->SendBytes_0.len() == ast_bytes_len
        }
}

/// No action of the list tells the child that a module is left.
pub open spec fn sends_no_exit(actions: Seq<ActionView>) -> bool {
    forall|i: int|
        0 <= i < actions.len() ==> #[trigger] actions[i] != ActionView::Send(
            MsgToEqWAlizer::ELPExitingModule,
        )
}

/// Every step of a loop that serves requests checks for cancellation before
/// it waits for a record, and a step after which the loop goes on ends with
/// that check and that wait.
pub proof fn lemma_request_loop_checks_cancellation(
    requests: RequestLoop,
    module: Seq<char>,
    has_handle: bool,
    msg: MsgFromView,
    ast: Result<Seq<u8>, AstErrorView>,
)
    ensures
        checks_before_receiving(requests.opening(module, has_handle).actions),
        checks_before_receiving(reaction(requests.project_id, requests.shell, msg).actions),
        checks_before_receiving(reply_to_ast(module, ast).actions),
        requests.opening(module, has_handle).next is Message ==> ends_with_next_iteration(
            requests.opening(module, has_handle).actions,
        ),
        reaction(requests.project_id, requests.shell, msg).next is Message
            ==> ends_with_next_iteration(
            reaction(requests.project_id, requests.shell, msg).actions,
        ),
        reply_to_ast(module, ast).next is Message ==> ends_with_next_iteration(
            reply_to_ast(module, ast).actions,
        ),
{
    let opening = requests.opening(module, has_handle);
    if opening.next is Message {
        assert(opening.actions.subrange(opening.actions.len() - 2, opening.actions.len() as int)
            =~= next_iteration());
    }
    let reacted = reaction(requests.project_id, requests.shell, msg);
    if reacted.next is Message {
        assert(reacted.actions.subrange(reacted.actions.len() - 2, reacted.actions.len() as int)
            =~= next_iteration());
    }
    if let MsgFromView::Dependencies { modules } = msg {
        let fetched = prefetches(requests.project_id, modules);
        assert forall|i: int| 0 <= i < reacted.actions.len() && #[trigger] reacted.actions[i] is Receive implies i
            > 0 && reacted.actions[i - 1] is CheckCancelled by {
            if requests.shell {
                if i < fetched.len() {
                    assert(reacted.actions[i] == fetched[i]);
                }
            }
        }
    }
    let replied = reply_to_ast(module, ast);
    if replied.next is Message {
        assert(replied.actions.subrange(replied.actions.len() - 2, replied.actions.len() as int)
            =~= next_iteration());
    }
}

/// Every step of a shell session checks for cancellation before it waits
/// for a record, and a step after which the session waits for a record ends
/// with that check and that wait.
pub proof fn lemma_shell_loop_checks_cancellation(
    state: ShellLoopView,
    msg: MsgFromView,
    diagnostics: DiagnosticsView,
)
    ensures
        checks_before_receiving(shell_opening(state.project_id).actions),
        checks_before_receiving(shell_reaction(state, msg).actions),
        checks_before_receiving(shell_merge(state, diagnostics).actions),
        ends_with_next_iteration(shell_opening(state.project_id).actions),
        shell_reaction(state, msg).next is Message ==> ends_with_next_iteration(
            shell_reaction(state, msg).actions,
        ),
        ends_with_next_iteration(shell_merge(state, diagnostics).actions),
{
    let opening = shell_opening(state.project_id);
    assert(opening.actions.subrange(opening.actions.len() - 2, opening.actions.len() as int)
        =~= next_iteration());
    let reacted = shell_reaction(state, msg);
    if reacted.next is Message {
        assert(reacted.actions.subrange(reacted.actions.len() - 2, reacted.actions.len() as int)
            =~= next_iteration());
    }
    let merged = shell_merge(state, diagnostics);
    assert(merged.actions.subrange(merged.actions.len() - 2, merged.actions.len() as int)
        =~= next_iteration());
}

/// In every step of either loop the raw bytes written are those that the
/// length sent before them announced.
pub proof fn lemma_bytes_as_announced(
    requests: RequestLoop,
    module: Seq<char>,
    has_handle: bool,
    msg: MsgFromView,
    ast: Result<Seq<u8>, AstErrorView>,
    state: ShellLoopView,
    diagnostics: DiagnosticsView,
)
    ensures
        bytes_as_announced(requests.opening(module, has_handle).actions),
        bytes_as_announced(reaction(requests.project_id, requests.shell, msg).actions),
        bytes_as_announced(reply_to_ast(module, ast).actions),
        bytes_as_announced(shell_opening(state.project_id).actions),
        bytes_as_announced(shell_reaction(state, msg).actions),
        bytes_as_announced(shell_merge(state, diagnostics).actions),
{
    let reacted = reaction(requests.project_id, requests.shell, msg);
    if let MsgFromView::Dependencies { modules } = msg {
        if requests.shell {
            let fetched = prefetches(requests.project_id, modules);
            assert forall|i: int| 0 <= i < reacted.actions.len() implies !(
            #[trigger] reacted.actions[i] is Send) && !(reacted.actions[i] is SendBytes) by {
                if i < fetched.len() {
                    assert(reacted.actions[i] == fetched[i]);
                }
            }
        }
    }
}

/// What holds of the actions of each step holds of the steps of a run laid
/// end to end: in the whole run every wait for a record stands behind a
/// cancellation check, the raw bytes written are those announced, and the
/// child is told that a module is left only where a step says so.
pub proof fn lemma_laws_hold_of_runs(earlier: Seq<ActionView>, later: Seq<ActionView>)
    ensures
        checks_before_receiving(earlier) && checks_before_receiving(later)
            ==> checks_before_receiving(earlier + later),
        bytes_as_announced(earlier) && bytes_as_announced(later) ==> bytes_as_announced(
            earlier + later,
        ),
        sends_no_exit(earlier) && sends_no_exit(later) ==> sends_no_exit(earlier + later),
{
    let run = earlier + later;
    let n = earlier.len() as int;
    if checks_before_receiving(earlier) && checks_before_receiving(later) {
        assert forall|i: int| 0 <= i < run.len() && #[trigger] run[i] is Receive implies i > 0
            && run[i - 1] is CheckCancelled by {
            if i >= n {
                assert(later[i - n] is Receive);
                assert(run[i - 1] == later[i - n - 1]);
            } else {
                assert(earlier[i] is Receive);
            }
        }
    }
    if bytes_as_announced(earlier) && bytes_as_announced(later) {
        assert forall|i: int| 0 <= i < run.len() implies (#[trigger] run[i] matches ActionView::Send(
            MsgToEqWAlizer::GetAstBytesReply { ast_bytes_len },
        ) ==> {
            &&& i + 1 < run.len()
            &&& run[i + 1] is ReceiveNewline
            &&& ast_bytes_len == 0 ==> !(i + 2 < run.len() && run[i + 2] is SendBytes)
            &&& ast_bytes_len > 0 ==> i + 2 < run.len() && (run[i + 2] matches ActionView::SendBytes(
                bytes,
            ) && bytes.len() == ast_bytes_len)
        }) by {
            if i >= n {
                assert(run[i] == later[i - n]);
                if i + 1 < run.len() {
                    assert(run[i + 1] == later[i + 1 - n]);
                }
                if i + 2 < run.len() {
                    assert(run[i + 2] == later[i + 2 - n]);
                }
            } else {
                assert(run[i] == earlier[i]);
                if i + 1 < n {
                    assert(run[i + 1] == earlier[i + 1]);
                }
                if i + 2 < n {
                    assert(run[i + 2] == earlier[i + 2]);
                } else if i + 2 < run.len() {
                    assert(run[i + 2] == later[i + 2 - n]);
                    if later[i + 2 - n] is SendBytes {
                        assert(i + 2 - n >= 2);
                    }
                }
            }
        }
        assert forall|j: int| 0 <= j < run.len() && #[trigger] run[j] is SendBytes implies {
            &&& j >= 2
            &&& run[j - 1] is ReceiveNewline
            &&& run[j - 2] matches ActionView::Send(
                MsgToEqWAlizer::GetAstBytesReply { ast_bytes_len },
            ) && run[j]->SendBytes_0.len() == ast_bytes_len
        } by {
            if j >= n {
                assert(later[j - n] is SendBytes);
                assert(run[j - 1] == later[j - n - 1]);
                assert(run[j - 2] == later[j - n - 2]);
            } else {
                assert(earlier[j] is SendBytes);
                assert(run[j - 1] == earlier[j - 1]);
                assert(run[j - 2] == earlier[j - 2]);
            }
        }
    }
    if sends_no_exit(earlier) && sends_no_exit(later) {
        assert forall|i: int| 0 <= i < run.len() implies #[trigger] run[i] != ActionView::Send(
            MsgToEqWAlizer::ELPExitingModule,
        ) by {
            if i >= n {
                assert(run[i] == later[i - n]);
            } else {
                assert(run[i] == earlier[i]);
            }
        }
    }
}

/// A reply that states a length is followed by exactly that many raw bytes:
/// the bytes of the syntax tree, whole, or none where there are none.
pub proof fn lemma_reply_carries_whole_tree(module: Seq<char>, bytes: Seq<u8>)
    requires
        bytes.len() <= u32::MAX,
    ensures
        reply_to_ast(module, Ok(bytes)).actions[0] == ActionView::Send(
            MsgToEqWAlizer::GetAstBytesReply { ast_bytes_len: bytes.len() as u32 },
        ),
        reply_to_ast(module, Ok(bytes)).actions[1] == ActionView::ReceiveNewline,
        bytes.len() > 0 ==> reply_to_ast(module, Ok(bytes)).actions[2] == ActionView::SendBytes(
            bytes,
        ),
        bytes.len() == 0 ==> forall|i: int|
            0 <= i < reply_to_ast(module, Ok(bytes)).actions.len() ==> !(
            #[trigger] reply_to_ast(module, Ok(bytes)).actions[i] is SendBytes),
{
}

/// When the diagnostics of a visited module come back, the session tells the
/// child exactly once that the module is left, before anything else; no other
/// step of either loop says so.
pub proof fn lemma_module_left_exactly_once(
    requests: RequestLoop,
    module: Seq<char>,
    has_handle: bool,
    msg: MsgFromView,
    ast: Result<Seq<u8>, AstErrorView>,
    state: ShellLoopView,
    diagnostics: DiagnosticsView,
)
    ensures
        shell_merge(state, diagnostics).actions[0] == ActionView::Send(
            MsgToEqWAlizer::ELPExitingModule,
        ),
        sends_no_exit(shell_merge(state, diagnostics).actions.skip(1)),
        shell_reaction(state, msg).next is ModuleDiagnostics <==> msg is EnteringModule,
        sends_no_exit(shell_opening(state.project_id).actions),
        sends_no_exit(shell_reaction(state, msg).actions),
        sends_no_exit(requests.opening(module, has_handle).actions),
        sends_no_exit(reaction(requests.project_id, requests.shell, msg).actions),
        sends_no_exit(reply_to_ast(module, ast).actions),
{
    let reacted = reaction(requests.project_id, requests.shell, msg);
    if let MsgFromView::Dependencies { modules } = msg {
        if requests.shell {
            let fetched = prefetches(requests.project_id, modules);
            assert forall|i: int| 0 <= i < reacted.actions.len() implies #[trigger] reacted.actions[i]
                != ActionView::Send(MsgToEqWAlizer::ELPExitingModule) by {
                if i < fetched.len() {
                    assert(reacted.actions[i] == fetched[i]);
                }
            }
        }
    }
}

/// A loop that serves requests ends only on the child's `Done`, with the
/// diagnostics that it carries, or on a syntax tree that cannot be served.
pub proof fn lemma_request_loop_ends(requests: RequestLoop, msg: MsgFromView)
    ensures
        reaction(requests.project_id, requests.shell, msg).next is Return <==> msg is Done,
        msg matches MsgFromView::Done { diagnostics } ==> reaction(
            requests.project_id,
            requests.shell,
            msg,
        ).next == NextView::Return(DiagnosticsView::Diagnostics(diagnostics)),
{
}

/// A shell session ends only on the child's `Done`, with what its modules
/// have yielded.
pub proof fn lemma_shell_loop_ends(state: ShellLoopView, msg: MsgFromView)
    ensures
        shell_reaction(state, msg).next is Return <==> msg is Done,
        msg is Done ==> shell_reaction(state, msg).next == ShellNextView::Return(
            state.diagnostics,
        ),
{
}

} // verus!
