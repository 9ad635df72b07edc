use crate::diagnostics::DiagnosticsView;
use crate::diagnostics::EqwalizerDiagnostics;
use crate::ids::ModuleName;
use crate::ids::ProjectId;
use crate::ipc::EqWAlizerASTFormat;
use crate::ipc::MsgFromEqWAlizer;
use crate::ipc::MsgFromView;
use crate::ipc::MsgToEqWAlizer;
use vstd::prelude::*;

verus! {

/// Why a module's syntax tree could not be had.
#[derive(Debug, PartialEq, Eq, Clone)]
pub enum AstError {
    /// No module of that name exists.
    ModuleNotFound,
    /// The module does not parse.
    ParseError,
    /// Anything else, with its message.
    Other(String),
}

/// The reason as mathematical values.
pub enum AstErrorView {
    ModuleNotFound,
    ParseError,
    Other(Seq<char>),
}

impl View for AstError {
    type V = AstErrorView;

    open spec fn view(&self) -> AstErrorView {
        match self {
            AstError::ModuleNotFound => AstErrorView::ModuleNotFound,
            AstError::ParseError => AstErrorView::ParseError,
            AstError::Other(message) => AstErrorView::Other(message@),
        }
    }
}

/// The answer of a syntax-tree query as mathematical values.
pub open spec fn ast_view(ast: Result<Vec<u8>, AstError>) -> Result<Seq<u8>, AstErrorView> {
    match ast {
        Ok(bytes) => Ok(bytes@),
        Err(e) => Err(e@),
    }
}

/// One thing that a protocol loop asks its runner to do. The runner performs
/// the actions of a step in their order and stops at the first that fails.
#[derive(Debug, PartialEq, Eq, Clone)]
#[allow(inconsistent_fields)]
pub enum Action {
    /// Tell the incremental engine that the result of the running query must
    /// not be memoized.
    ReportUntrackedRead,
    /// Launch the child process with the command built for this run.
    Spawn,
    /// Leave the loop if the incremental engine has cancelled the query.
    CheckCancelled,
    /// Wait for the next record of the child and hand it to the loop.
    Receive,
    /// Send a record to the child.
    Send(MsgToEqWAlizer),
    /// Wait for the child's bare newline.
    ReceiveNewline,
    /// Write these bytes to the child, unframed.
    SendBytes(Vec<u8>),
    /// Ask for a module's syntax tree in the given format and hand the answer
    /// to the loop.
    QueryAst { project_id: ProjectId, module: ModuleName, format: EqWAlizerASTFormat },
    /// Ask for a module's syntax tree in the given format and drop the answer.
    Prefetch { project_id: ProjectId, module: ModuleName, format: EqWAlizerASTFormat },
    /// Tell the observer that the child begins to check a module.
    EqwalizingStart { module: String },
    /// Tell the observer that the child is done with a module.
    EqwalizingDone { module: String },
    /// Register the shared handle of the child under a module's name.
    SetModuleIpcHandle { module: ModuleName },
    /// Run the memoized query for a module's diagnostics and hand its result
    /// to the loop.
    ModuleDiagnostics { project_id: ProjectId, module: String },
}

/// An action as mathematical values.
pub enum ActionView {
    ReportUntrackedRead,
    Spawn,
    CheckCancelled,
    Receive,
    Send(MsgToEqWAlizer),
    ReceiveNewline,
    SendBytes(Seq<u8>),
    QueryAst { project_id: ProjectId, module: Seq<char>, format: EqWAlizerASTFormat },
    Prefetch { project_id: ProjectId, module: Seq<char>, format: EqWAlizerASTFormat },
    EqwalizingStart { module: Seq<char> },
    EqwalizingDone { module: Seq<char> },
    SetModuleIpcHandle { module: Seq<char> },
    ModuleDiagnostics { project_id: ProjectId, module: Seq<char> },
}

impl View for Action {
    type V = ActionView;

    open spec fn view(&self) -> ActionView {
        match self {
            Action::ReportUntrackedRead => ActionView::ReportUntrackedRead,
            Action::Spawn => ActionView::Spawn,
            Action::CheckCancelled => ActionView::CheckCancelled,
            Action::Receive => ActionView::Receive,
            Action::Send(msg) => ActionView::Send(*msg),
            Action::ReceiveNewline => ActionView::ReceiveNewline,
            Action::SendBytes(bytes) => ActionView::SendBytes(bytes@),
            Action::QueryAst { project_id, module, format } => ActionView::QueryAst {
                project_id: *project_id,
                module: module@,
                format: *format,
            },
            Action::Prefetch { project_id, module, format } => ActionView::Prefetch {
                project_id: *project_id,
                module: module@,
                format: *format,
            },
            Action::EqwalizingStart { module } => ActionView::EqwalizingStart { module: module@ },
            Action::EqwalizingDone { module } => ActionView::EqwalizingDone { module: module@ },
            Action::SetModuleIpcHandle { module } => ActionView::SetModuleIpcHandle {
                module: module@,
            },
            Action::ModuleDiagnostics { project_id, module } => ActionView::ModuleDiagnostics {
                project_id: *project_id,
                module: module@,
            },
        }
    }
}

/// A list of actions as mathematical values.
pub open spec fn actions_view(actions: Seq<Action>) -> Seq<ActionView> {
    Seq::new(actions.len(), |i: int| actions[i]@)
}

/// What a loop that serves requests does once the actions of a step are done.
#[derive(Debug, PartialEq, Eq, Clone)]
pub enum Next {
    /// The last action was `Receive`: its record goes to `on_message`.
    Message,
    /// The last action was `QueryAst`, for this module: its answer goes to
    /// `on_ast`.
    Ast { module: String },
    /// The loop is over, with this outcome.
    Return(EqwalizerDiagnostics),
}

/// The continuation as mathematical values.
pub enum NextView {
    Message,
    Ast { module: Seq<char> },
    Return(DiagnosticsView),
}

impl View for Next {
    type V = NextView;

    open spec fn view(&self) -> NextView {
        match self {
            Next::Message => NextView::Message,
            Next::Ast { module } => NextView::Ast { module: module@ },
            Next::Return(outcome) => NextView::Return(outcome@),
        }
    }
}

/// One step of a loop that serves requests: what to do, and how to go on.
#[derive(Debug, PartialEq, Eq, Clone)]
pub struct Step {
    pub actions: Vec<Action>,
    pub next: Next,
}

/// A step as mathematical values.
pub struct StepView {
    pub actions: Seq<ActionView>,
    pub next: NextView,
}

impl View for Step {
    type V = StepView;

    open spec fn view(&self) -> StepView {
        StepView { actions: actions_view(self.actions@), next: self.next@ }
    }
}

/// The actions that open an iteration: the cancellation check, then the
/// blocking receive.
pub open spec fn next_iteration() -> Seq<ActionView> {
    seq![ActionView::CheckCancelled, ActionView::Receive]
}

/// The message of the failure to state a length in 32 bits.
pub open spec fn length_overflow_message() -> Seq<char> {
    "out of range integral type conversion attempted"@
}

/// The message of the failure to find the child's handle for a module.
pub open spec fn missing_handle_message(module: Seq<char>) -> Seq<char> {
    "no eqWAlizer handle for module "@ + module
}

/// The reply to a request for a syntax tree, by the answer of the query.
pub open spec fn reply_to_ast(module: Seq<char>, ast: Result<Seq<u8>, AstErrorView>) -> StepView {
    match ast {
        Ok(bytes) => if bytes.len() > u32::MAX {
            StepView {
                actions: seq![],
                next: NextView::Return(DiagnosticsView::Error(length_overflow_message())),
            }
        } else if bytes.len() == 0 {
            StepView {
                actions: seq![
                    ActionView::Send(MsgToEqWAlizer::GetAstBytesReply { ast_bytes_len: 0 }),
                    ActionView::ReceiveNewline,
                ] + next_iteration(),
                next: NextView::Message,
            }
        } else {
            StepView {
                actions: seq![
                    ActionView::Send(
                        MsgToEqWAlizer::GetAstBytesReply { ast_bytes_len: bytes.len() as u32 },
                    ),
                    ActionView::ReceiveNewline,
                    ActionView::SendBytes(bytes),
                ] + next_iteration(),
                next: NextView::Message,
            }
        },
        Err(AstErrorView::ModuleNotFound) => StepView {
            actions: seq![
                ActionView::Send(MsgToEqWAlizer::GetAstBytesReply { ast_bytes_len: 0 }),
                ActionView::ReceiveNewline,
            ] + next_iteration(),
            next: NextView::Message,
        },
        Err(AstErrorView::ParseError) => StepView {
            actions: seq![ActionView::Send(MsgToEqWAlizer::CannotCompleteRequest)],
            next: NextView::Return(DiagnosticsView::NoAst { module }),
        },
        Err(AstErrorView::Other(message)) => StepView {
            actions: seq![ActionView::Send(MsgToEqWAlizer::CannotCompleteRequest)],
            next: NextView::Return(DiagnosticsView::Error(message)),
        },
    }
}

/// The prefetches for a list of modules, one for each, in the list's order.
pub open spec fn prefetches(project_id: ProjectId, modules: Seq<Seq<char>>) -> Seq<ActionView> {
    Seq::new(
        modules.len(),
        |i: int|
            ActionView::Prefetch {
                project_id,
                module: modules[i],
                format: EqWAlizerASTFormat::TransitiveStub,
            },
    )
}

/// The reaction of a loop that serves requests to a record of the child.
/// Only a loop that runs inside a shell session knows `Dependencies`.
pub open spec fn reaction(project_id: ProjectId, shell: bool, msg: MsgFromView) -> StepView {
    match msg {
        MsgFromView::GetAstBytes { module, format } => StepView {
            actions: seq![ActionView::QueryAst { project_id, module, format }],
            next: NextView::Ast { module },
        },
        MsgFromView::EqwalizingStart { module } => StepView {
            actions: seq![ActionView::EqwalizingStart { module }] + next_iteration(),
            next: NextView::Message,
        },
        MsgFromView::EqwalizingDone { module } => StepView {
            actions: seq![ActionView::EqwalizingDone { module }] + next_iteration(),
            next: NextView::Message,
        },
        MsgFromView::Done { diagnostics } => StepView {
            actions: seq![],
            next: NextView::Return(DiagnosticsView::Diagnostics(diagnostics)),
        },
        MsgFromView::Dependencies { modules } => if shell {
            StepView {
                actions: prefetches(project_id, modules) + next_iteration(),
                next: NextView::Message,
            }
        } else {
            StepView { actions: next_iteration(), next: NextView::Message }
        },
        MsgFromView::EnteringModule { .. } | MsgFromView::Unknown => StepView {
            actions: next_iteration(),
            next: NextView::Message,
        },
    }
}

/// Appends one action.
fn push_action(actions: &mut Vec<Action>, action: Action)
    ensures
        actions_view(final(actions)@) == actions_view(old(actions)@).push(action@),
{
    actions.push(action);
    assert(actions_view(actions@) =~= actions_view(old(actions)@).push(action@));
}

/// Appends the actions that open the next iteration.
fn push_next_iteration(actions: &mut Vec<Action>)
    ensures
        actions_view(final(actions)@) == actions_view(old(actions)@) + next_iteration(),
{
    push_action(actions, Action::CheckCancelled);
    push_action(actions, Action::Receive);
    assert(actions_view(actions@) =~= actions_view(old(actions)@) + next_iteration());
}

/// A list without actions.
fn no_actions() -> (actions: Vec<Action>)
    ensures
        actions_view(actions@) == Seq::<ActionView>::empty(),
{
    let actions: Vec<Action> = Vec::new();
    assert(actions_view(actions@) =~= Seq::<ActionView>::empty());
    actions
}

/// A loop that serves the child's requests until the child is done: the
/// whole run in batch mode, one module's part of it in shell mode.
#[derive(Debug, Clone, Copy, PartialEq, Eq, Structural)]
pub struct RequestLoop {
    pub project_id: ProjectId,
    pub shell: bool,
}

impl RequestLoop {
    /// The loop of a batch run.
    pub fn batch(project_id: ProjectId) -> (r: RequestLoop)
        ensures
            r == (RequestLoop { project_id, shell: false }),
    {
        RequestLoop { project_id, shell: false }
    }

    /// The loop for one module of a shell session.
    pub fn module(project_id: ProjectId) -> (r: RequestLoop)
        ensures
            r == (RequestLoop { project_id, shell: true }),
    {
        RequestLoop { project_id, shell: true }
    }

    /// What opens the loop. A batch run launches the child. A module's loop
    /// needs the handle that the session registered for `module`; with it, the
    /// loop tells the child that it enters the module, and without it the loop
    /// is over at once.
    pub open spec fn opening(self, module: Seq<char>, has_handle: bool) -> StepView {
        if !self.shell {
            StepView {
                actions: seq![ActionView::Spawn] + next_iteration(),
                next: NextView::Message,
            }
        } else if has_handle {
            StepView {
                actions: seq![ActionView::Send(MsgToEqWAlizer::ELPEnteringModule)]
                    + next_iteration(),
                next: NextView::Message,
            }
        } else {
            StepView {
                actions: seq![],
                next: NextView::Return(DiagnosticsView::Error(missing_handle_message(module))),
            }
        }
    }

    /// The first step of the loop. In batch mode `module` and `has_handle`
    /// play no part.
    pub fn start(&self, module: &str, has_handle: bool) -> (step: Step)
        ensures
            step@ == self.opening(module@, has_handle),
    {
        let mut actions = no_actions();
        if !self.shell {
            push_action(&mut actions, Action::Spawn);
            push_next_iteration(&mut actions);
            let step = Step { actions, next: Next::Message };
            assert(step@.actions =~= self.opening(module@, has_handle).actions);
            step
        } else if has_handle {
            push_action(&mut actions, Action::Send(MsgToEqWAlizer::ELPEnteringModule));
            push_next_iteration(&mut actions);
            let step = Step { actions, next: Next::Message };
            assert(step@.actions =~= self.opening(module@, has_handle).actions);
            step
        } else {
            let message = String::from_str("no eqWAlizer handle for module ").concat(module);
            Step { actions, next: Next::Return(EqwalizerDiagnostics::Error(message)) }
        }
    }

    /// The step that follows a record of the child.
    pub fn on_message(&self, msg: MsgFromEqWAlizer) -> (step: Step)
        ensures
            step@ == reaction(self.project_id, self.shell, msg@),
    {
        let mut actions = no_actions();
        let ghost expected = reaction(self.project_id, self.shell, msg@);
        match msg {
            MsgFromEqWAlizer::GetAstBytes { module, format } => {
                let module_name = ModuleName::new(module.as_str());
                push_action(
                    &mut actions,
                    Action::QueryAst { project_id: self.project_id, module: module_name, format },
                );
                let step = Step { actions, next: Next::Ast { module } };
                assert(step@.actions =~= expected.actions);
                step
            },
            MsgFromEqWAlizer::EqwalizingStart { module } => {
                push_action(&mut actions, Action::EqwalizingStart { module });
                push_next_iteration(&mut actions);
                let step = Step { actions, next: Next::Message };
                assert(step@.actions =~= expected.actions);
                step
            },
            MsgFromEqWAlizer::EqwalizingDone { module } => {
                push_action(&mut actions, Action::EqwalizingDone { module });
                push_next_iteration(&mut actions);
                let step = Step { actions, next: Next::Message };
                assert(step@.actions =~= expected.actions);
                step
            },
            MsgFromEqWAlizer::Done { diagnostics } => Step {
                actions,
                next: Next::Return(EqwalizerDiagnostics::Diagnostics(diagnostics)),
            },
            MsgFromEqWAlizer::Dependencies { modules } => {
                if self.shell {
                    let mut i: usize = 0;
                    while i < modules.len()
                        invariant
                            i <= modules.len(),
                            actions_view(actions@) == prefetches(
                                self.project_id,
                                modules.deep_view().take(i as int),
                            ),
                        decreases modules.len() - i,
                    {
                        let module_name = ModuleName::new(modules[i].as_str());
                        push_action(
                            &mut actions,
                            Action::Prefetch {
                                project_id: self.project_id,
                                module: module_name,
                                format: EqWAlizerASTFormat::TransitiveStub,
                            },
                        );
                        assert(actions_view(actions@) =~= prefetches(
                            self.project_id,
                            modules.deep_view().take(i + 1),
                        ));
                        i += 1;
                    }
                    assert(modules.deep_view().take(i as int) =~= modules.deep_view());
                }
                push_next_iteration(&mut actions);
                let step = Step { actions, next: Next::Message };
                assert(step@.actions =~= expected.actions);
                step
            },
            MsgFromEqWAlizer::EnteringModule { .. } | MsgFromEqWAlizer::Unknown => {
                push_next_iteration(&mut actions);
                let step = Step { actions, next: Next::Message };
                assert(step@.actions =~= expected.actions);
                step
            },
        }
    }

    /// The step that follows the answer to the query for `module`'s syntax
    /// tree: the length and the bytes, a length of zero for a module that does
    /// not exist, or the refusal that ends the loop.
    pub fn on_ast(&self, module: String, ast: Result<Vec<u8>, AstError>) -> (step: Step)
        ensures
            step@ == reply_to_ast(module@, ast_view(ast)),
    {
        let mut actions = no_actions();
        let ghost expected = reply_to_ast(module@, ast_view(ast));
        match ast {
            Ok(bytes) => {
                if bytes.len() > 0xffff_ffff {
                    let message = String::from_str(
                        "out of range integral type conversion attempted",
                    );
                    Step { actions, next: Next::Return(EqwalizerDiagnostics::Error(message)) }
                } else {
                    let ast_bytes_len: u32 = bytes.len() as u32;
                    push_action(
                        &mut actions,
                        Action::Send(MsgToEqWAlizer::GetAstBytesReply { ast_bytes_len }),
                    );
                    push_action(&mut actions, Action::ReceiveNewline);
                    if ast_bytes_len > 0 {
                        push_action(&mut actions, Action::SendBytes(bytes));
                    }
                    push_next_iteration(&mut actions);
                    let step = Step { actions, next: Next::Message };
                    assert(step@.actions =~= expected.actions);
                    step
                }
            },
            Err(AstError::ModuleNotFound) => {
                push_action(
                    &mut actions,
                    Action::Send(MsgToEqWAlizer::GetAstBytesReply { ast_bytes_len: 0 }),
                );
                push_action(&mut actions, Action::ReceiveNewline);
                push_next_iteration(&mut actions);
                let step = Step { actions, next: Next::Message };
                assert(step@.actions =~= expected.actions);
                step
            },
            Err(AstError::ParseError) => {
                push_action(&mut actions, Action::Send(MsgToEqWAlizer::CannotCompleteRequest));
                let step = Step {
                    actions,
                    next: Next::Return(EqwalizerDiagnostics::NoAst { module }),
                };
                assert(step@.actions =~= expected.actions);
                step
            },
            Err(AstError::Other(message)) => {
                push_action(&mut actions, Action::Send(MsgToEqWAlizer::CannotCompleteRequest));
                let step = Step {
                    actions,
                    next: Next::Return(EqwalizerDiagnostics::Error(message)),
                };
                assert(step@.actions =~= expected.actions);
                step
            },
        }
    }
}

} // verus!
