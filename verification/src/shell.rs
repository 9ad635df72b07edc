use crate::diagnostics::DiagnosticsView;
use crate::diagnostics::EqwalizerDiagnostics;
use crate::ids::ModuleName;
use crate::ids::ProjectId;
use crate::ipc::MsgFromEqWAlizer;
use crate::ipc::MsgFromView;
use crate::ipc::MsgToEqWAlizer;
use crate::protocol::actions_view;
use crate::protocol::next_iteration;
use crate::protocol::Action;
use crate::protocol::ActionView;
use vstd::prelude::*;

verus! {

/// The loop of a shell session, in which the child says which module it
/// visits next. It holds what the modules visited so far have yielded.
#[derive(Debug, PartialEq, Eq, Clone)]
pub struct ShellLoop {
    pub project_id: ProjectId,
    pub diagnostics: EqwalizerDiagnostics,
}

/// The session's loop as mathematical values.
pub struct ShellLoopView {
    pub project_id: ProjectId,
    pub diagnostics: DiagnosticsView,
}

impl View for ShellLoop {
    type V = ShellLoopView;

    open spec fn view(&self) -> ShellLoopView {
        ShellLoopView { project_id: self.project_id, diagnostics: self.diagnostics@ }
    }
}

/// What a shell session does once the actions of a step are done.
#[derive(Debug, PartialEq, Eq, Clone)]
pub enum ShellNext {
    /// The last action was `Receive`: its record goes to `on_message`.
    Message(ShellLoop),
    /// The last action was `ModuleDiagnostics`: its result goes to
    /// `on_module_diagnostics`.
    ModuleDiagnostics(ShellLoop),
    /// The session is over, with this outcome.
    Return(EqwalizerDiagnostics),
}

/// The continuation as mathematical values.
pub enum ShellNextView {
    Message(ShellLoopView),
    ModuleDiagnostics(ShellLoopView),
    Return(DiagnosticsView),
}

impl View for ShellNext {
    type V = ShellNextView;

    open spec fn view(&self) -> ShellNextView {
        match self {
            ShellNext::Message(state) => ShellNextView::Message(state@),
            ShellNext::ModuleDiagnostics(state) => ShellNextView::ModuleDiagnostics(state@),
            ShellNext::Return(outcome) => ShellNextView::Return(outcome@),
        }
    }
}

/// One step of a shell session: what to do, and how to go on.
#[derive(Debug, PartialEq, Eq, Clone)]
pub struct ShellStep {
    pub actions: Vec<Action>,
    pub next: ShellNext,
}

/// A step as mathematical values.
pub struct ShellStepView {
    pub actions: Seq<ActionView>,
    pub next: ShellNextView,
}

impl View for ShellStep {
    type V = ShellStepView;

    open spec fn view(&self) -> ShellStepView {
        ShellStepView { actions: actions_view(self.actions@), next: self.next@ }
    }
}

/// What opens a session: its result is declared untracked, the child is
/// launched, and nothing has been found yet.
pub open spec fn shell_opening(project_id: ProjectId) -> ShellStepView {
    ShellStepView {
        actions: seq![ActionView::ReportUntrackedRead, ActionView::Spawn] + next_iteration(),
        next: ShellNextView::Message(
            ShellLoopView { project_id, diagnostics: DiagnosticsView::empty() },
        ),
    }
}

/// The session's reaction to a record of the child.
pub open spec fn shell_reaction(state: ShellLoopView, msg: MsgFromView) -> ShellStepView {
    match msg {
        MsgFromView::EnteringModule { module } => ShellStepView {
            actions: seq![
                ActionView::SetModuleIpcHandle { module },
                ActionView::ModuleDiagnostics { project_id: state.project_id, module },
            ],
            next: ShellNextView::ModuleDiagnostics(state),
        },
        MsgFromView::Done { .. } => ShellStepView {
            actions: seq![],
            next: ShellNextView::Return(state.diagnostics),
        },
        _ => ShellStepView { actions: next_iteration(), next: ShellNextView::Message(state) },
    }
}

/// The session's reaction to the diagnostics of the module just visited: the
/// child is told that the module is left, and the diagnostics are merged into
/// what the session holds.
pub open spec fn shell_merge(state: ShellLoopView, diagnostics: DiagnosticsView) -> ShellStepView {
    ShellStepView {
        actions: seq![ActionView::Send(MsgToEqWAlizer::ELPExitingModule)] + next_iteration(),
        next: ShellNextView::Message(
            ShellLoopView {
                project_id: state.project_id,
                diagnostics: state.diagnostics.combine(diagnostics),
            },
        ),
    }
}

impl ShellLoop {
    /// The first step of a session.
    pub fn start(project_id: ProjectId) -> (step: ShellStep)
        ensures
            step@ == shell_opening(project_id),
    {
        let actions = vec![
            Action::ReportUntrackedRead,
            Action::Spawn,
            Action::CheckCancelled,
            Action::Receive,
        ];
        let state = ShellLoop { project_id, diagnostics: EqwalizerDiagnostics::default() };
        let step = ShellStep { actions, next: ShellNext::Message(state) };
        assert(step@.actions =~= shell_opening(project_id).actions);
        step
    }

    /// The step that follows a record of the child.
    pub fn on_message(self, msg: MsgFromEqWAlizer) -> (step: ShellStep)
        ensures
            step@ == shell_reaction(self@, msg@),
    {
        let ghost expected = shell_reaction(self@, msg@);
        match msg {
            MsgFromEqWAlizer::EnteringModule { module } => {
                let module_name = ModuleName::new(module.as_str());
                let actions = vec![
                    Action::SetModuleIpcHandle { module: module_name },
                    Action::ModuleDiagnostics { project_id: self.project_id, module },
                ];
                let step = ShellStep { actions, next: ShellNext::ModuleDiagnostics(self) };
                assert(step@.actions =~= expected.actions);
                step
            },
            MsgFromEqWAlizer::Done { .. } => {
                let actions: Vec<Action> = Vec::new();
                let step = ShellStep { actions, next: ShellNext::Return(self.diagnostics) };
                assert(step@.actions =~= expected.actions);
                step
            },
            _ => {
                let actions = vec![Action::CheckCancelled, Action::Receive];
                let step = ShellStep { actions, next: ShellNext::Message(self) };
                assert(step@.actions =~= expected.actions);
                step
            },
        }
    }

    /// The step that follows the diagnostics of the module just visited.
    pub fn on_module_diagnostics(self, diagnostics: &EqwalizerDiagnostics) -> (step: ShellStep)
        ensures
            step@ == shell_merge(self@, diagnostics@),
    {
        let actions = vec![
            Action::Send(MsgToEqWAlizer::ELPExitingModule),
            Action::CheckCancelled,
            Action::Receive,
        ];
        let state = ShellLoop {
            project_id: self.project_id,
            diagnostics: self.diagnostics.combine(diagnostics),
        };
        let step = ShellStep { actions, next: ShellNext::Message(state) };
        assert(step@.actions =~= shell_merge(self@, diagnostics@).actions);
        step
    }
}

} // verus!
