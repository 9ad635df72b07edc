use eqwalizer::diagnostics::DiagnosticsMap;
use eqwalizer::ids::ModuleName;
use eqwalizer::ids::ProjectId;
use eqwalizer::ipc::EqWAlizerASTFormat;
use eqwalizer::ipc::MsgFromEqWAlizer;
use eqwalizer::ipc::MsgToEqWAlizer;
use eqwalizer::protocol::Action;
use eqwalizer::protocol::AstError;
use eqwalizer::protocol::Next;
use eqwalizer::protocol::RequestLoop;
use eqwalizer::protocol::Step;
use eqwalizer::shell::ShellLoop;
use eqwalizer::shell::ShellNext;
use eqwalizer::shell::ShellStep;
use eqwalizer::EqwalizerDiagnostic;
use eqwalizer::EqwalizerDiagnostics;
use eqwalizer::TextRange;
use fxhash::FxHashMap;
use std::collections::VecDeque;

const PROJECT: ProjectId = ProjectId(7);

/// What the driver did, as the child and the database saw it.
#[derive(Debug, PartialEq, Eq, Clone)]
enum Seen {
    Untracked,
    Spawned,
    Checked,
    Received,
    Sent(MsgToEqWAlizer),
    Newline,
    Bytes(Vec<u8>),
    Query(String, EqWAlizerASTFormat),
    Prefetch(String, EqWAlizerASTFormat),
    Start(String),
    Done(String),
    Registered(String),
    Module(String),
}

/// A child that sends what its script says, and a database that answers
/// from a table.
struct World {
    script: VecDeque<MsgFromEqWAlizer>,
    asts: Vec<(String, EqWAlizerASTFormat, Result<Vec<u8>, AstError>)>,
    seen: Vec<Seen>,
}

impl World {
    fn new(script: Vec<MsgFromEqWAlizer>) -> World {
        World { script: script.into(), asts: Vec::new(), seen: Vec::new() }
    }

    fn with_ast(
        mut self,
        module: &str,
        format: EqWAlizerASTFormat,
        ast: Result<Vec<u8>, AstError>,
    ) -> World {
        self.asts.push((module.to_string(), format, ast));
        self
    }

    fn ast(&self, module: &ModuleName, format: EqWAlizerASTFormat) -> Result<Vec<u8>, AstError> {
        for (name, known, ast) in &self.asts {
            if name == module.as_str() && *known == format {
                return ast.clone();
            }
        }
        Err(AstError::ModuleNotFound)
    }

    /// Performs one action; hands back the record or the answer that it
    /// yields.
    fn perform(
        &mut self,
        action: Action,
    ) -> (Option<MsgFromEqWAlizer>, Option<Result<Vec<u8>, AstError>>) {
        match action {
            Action::ReportUntrackedRead => self.seen.push(Seen::Untracked),
            Action::Spawn => self.seen.push(Seen::Spawned),
            Action::CheckCancelled => self.seen.push(Seen::Checked),
            Action::Receive => {
                self.seen.push(Seen::Received);
                return (Some(self.script.pop_front().expect("the child has more to say")), None);
            }
            Action::Send(msg) => self.seen.push(Seen::Sent(msg)),
            Action::ReceiveNewline => self.seen.push(Seen::Newline),
            Action::SendBytes(bytes) => self.seen.push(Seen::Bytes(bytes)),
            Action::QueryAst { project_id, module, format } => {
                assert_eq!(project_id, PROJECT);
                self.seen.push(Seen::Query(module.as_str().to_string(), format));
                return (None, Some(self.ast(&module, format)));
            }
            Action::Prefetch { project_id, module, format } => {
                assert_eq!(project_id, PROJECT);
                self.seen.push(Seen::Prefetch(module.as_str().to_string(), format));
            }
            Action::EqwalizingStart { module } => self.seen.push(Seen::Start(module)),
            Action::EqwalizingDone { module } => self.seen.push(Seen::Done(module)),
            Action::SetModuleIpcHandle { module } => {
                self.seen.push(Seen::Registered(module.as_str().to_string()))
            }
            Action::ModuleDiagnostics { project_id, module } => {
                assert_eq!(project_id, PROJECT);
                self.seen.push(Seen::Module(module));
            }
        }
        (None, None)
    }

    fn run(&mut self, requests: RequestLoop, module: &str, has_handle: bool) -> EqwalizerDiagnostics {
        let mut step: Step = requests.start(module, has_handle);
        loop {
            let mut record = None;
            let mut answer = None;
            for action in step.actions {
                let (received, answered) = self.perform(action);
                record = record.or(received);
                answer = answer.or(answered);
            }
            step = match step.next {
                Next::Return(outcome) => return outcome,
                Next::Message => requests.on_message(record.unwrap()),
                Next::Ast { module } => requests.on_ast(module, answer.unwrap()),
            };
        }
    }

    /// Runs a shell session; each module visited runs its own loop on the
    /// same child.
    fn run_shell(&mut self) -> EqwalizerDiagnostics {
        let mut step: ShellStep = ShellLoop::start(PROJECT);
        loop {
            let mut record = None;
            let mut module = None;
            for action in step.actions {
                if let Action::ModuleDiagnostics { module: name, .. } = &action {
                    module = Some(name.clone());
                }
                let (received, _) = self.perform(action);
                record = record.or(received);
            }
            step = match step.next {
                ShellNext::Return(outcome) => return outcome,
                ShellNext::Message(state) => state.on_message(record.unwrap()),
                ShellNext::ModuleDiagnostics(state) => {
                    let found = self.run(RequestLoop::module(PROJECT), &module.unwrap(), true);
                    state.on_module_diagnostics(&found)
                }
            };
        }
    }
}

fn diagnostic(message: &str) -> EqwalizerDiagnostic {
    EqwalizerDiagnostic {
        range: TextRange::new(10, 20),
        message: message.to_string(),
        uri: "https://fb.me/eqwalizer_errors#incompatible_types".to_string(),
        code: "incompatible_types".to_string(),
        expression: None,
        explanation: Some("because".to_string()),
    }
}

fn map_of(entries: &[(&str, Vec<EqwalizerDiagnostic>)]) -> DiagnosticsMap {
    let mut map: DiagnosticsMap = FxHashMap::default();
    for (module, list) in entries {
        map.insert(module.to_string(), list.clone());
    }
    map
}

fn get_ast(module: &str, format: EqWAlizerASTFormat) -> MsgFromEqWAlizer {
    MsgFromEqWAlizer::GetAstBytes { module: module.to_string(), format }
}

fn done(entries: &[(&str, Vec<EqwalizerDiagnostic>)]) -> MsgFromEqWAlizer {
    MsgFromEqWAlizer::Done { diagnostics: map_of(entries) }
}

fn reply(ast_bytes_len: u32) -> Seen {
    Seen::Sent(MsgToEqWAlizer::GetAstBytesReply { ast_bytes_len })
}

const FORMATS: [EqWAlizerASTFormat; 8] = [
    EqWAlizerASTFormat::RawForms,
    EqWAlizerASTFormat::ConvertedForms,
    EqWAlizerASTFormat::RawStub,
    EqWAlizerASTFormat::ConvertedStub,
    EqWAlizerASTFormat::ExpandedStub,
    EqWAlizerASTFormat::ContractiveStub,
    EqWAlizerASTFormat::CovariantStub,
    EqWAlizerASTFormat::TransitiveStub,
];

#[test]
fn batch_happy_path() {
    let d1 = diagnostic("d1");
    let mut world = World::new(vec![
        get_ast("m", EqWAlizerASTFormat::ConvertedForms),
        done(&[("m", vec![d1.clone()])]),
    ])
    .with_ast("m", EqWAlizerASTFormat::ConvertedForms, Ok(b"ABCDEFG".to_vec()));
    let outcome = world.run(RequestLoop::batch(PROJECT), "", false);
    assert_eq!(outcome, EqwalizerDiagnostics::Diagnostics(map_of(&[("m", vec![d1])])));
    assert_eq!(
        world.seen,
        vec![
            Seen::Spawned,
            Seen::Checked,
            Seen::Received,
            Seen::Query("m".to_string(), EqWAlizerASTFormat::ConvertedForms),
            reply(7),
            Seen::Newline,
            Seen::Bytes(b"ABCDEFG".to_vec()),
            Seen::Checked,
            Seen::Received,
        ]
    );
}

#[test]
fn batch_module_missing() {
    let mut world = World::new(vec![get_ast("missing", EqWAlizerASTFormat::RawForms), done(&[])]);
    let outcome = world.run(RequestLoop::batch(PROJECT), "", false);
    assert_eq!(outcome, EqwalizerDiagnostics::default());
    assert_eq!(
        world.seen,
        vec![
            Seen::Spawned,
            Seen::Checked,
            Seen::Received,
            Seen::Query("missing".to_string(), EqWAlizerASTFormat::RawForms),
            reply(0),
            Seen::Newline,
            Seen::Checked,
            Seen::Received,
        ]
    );
}

#[test]
fn batch_parse_failure() {
    let mut world = World::new(vec![
        get_ast("bad", EqWAlizerASTFormat::ConvertedForms),
        get_ast("never", EqWAlizerASTFormat::ConvertedForms),
        done(&[]),
    ])
    .with_ast("bad", EqWAlizerASTFormat::ConvertedForms, Err(AstError::ParseError));
    let outcome = world.run(RequestLoop::batch(PROJECT), "", false);
    assert_eq!(outcome, EqwalizerDiagnostics::NoAst { module: "bad".to_string() });
    assert_eq!(
        world.seen,
        vec![
            Seen::Spawned,
            Seen::Checked,
            Seen::Received,
            Seen::Query("bad".to_string(), EqWAlizerASTFormat::ConvertedForms),
            Seen::Sent(MsgToEqWAlizer::CannotCompleteRequest),
        ]
    );
    assert_eq!(world.script.len(), 2);
}

#[test]
fn batch_other_failure() {
    let mut world = World::new(vec![get_ast("m", EqWAlizerASTFormat::RawStub), done(&[])])
        .with_ast("m", EqWAlizerASTFormat::RawStub, Err(AstError::Other("beam not found".to_string())));
    let outcome = world.run(RequestLoop::batch(PROJECT), "", false);
    assert_eq!(outcome, EqwalizerDiagnostics::Error("beam not found".to_string()));
    assert_eq!(world.seen.last(), Some(&Seen::Sent(MsgToEqWAlizer::CannotCompleteRequest)));
    assert_eq!(world.script.len(), 1);
}

#[test]
fn batch_unknown_message_is_ignored() {
    let d = diagnostic("d");
    let mut world = World::new(vec![
        get_ast("a", EqWAlizerASTFormat::ConvertedForms),
        MsgFromEqWAlizer::Unknown,
        get_ast("b", EqWAlizerASTFormat::ConvertedStub),
        done(&[("a", vec![d.clone()]), ("b", vec![])]),
    ])
    .with_ast("a", EqWAlizerASTFormat::ConvertedForms, Ok(b"A".to_vec()))
    .with_ast("b", EqWAlizerASTFormat::ConvertedStub, Ok(b"BB".to_vec()));
    let outcome = world.run(RequestLoop::batch(PROJECT), "", false);
    assert_eq!(
        outcome,
        EqwalizerDiagnostics::Diagnostics(map_of(&[("a", vec![d]), ("b", vec![])]))
    );
    assert_eq!(
        world.seen,
        vec![
            Seen::Spawned,
            Seen::Checked,
            Seen::Received,
            Seen::Query("a".to_string(), EqWAlizerASTFormat::ConvertedForms),
            reply(1),
            Seen::Newline,
            Seen::Bytes(b"A".to_vec()),
            Seen::Checked,
            Seen::Received,
            Seen::Checked,
            Seen::Received,
            Seen::Query("b".to_string(), EqWAlizerASTFormat::ConvertedStub),
            reply(2),
            Seen::Newline,
            Seen::Bytes(b"BB".to_vec()),
            Seen::Checked,
            Seen::Received,
        ]
    );
}

#[test]
fn batch_ignores_what_belongs_to_a_shell_session() {
    let mut world = World::new(vec![
        MsgFromEqWAlizer::EnteringModule { module: "a".to_string() },
        MsgFromEqWAlizer::Dependencies { modules: vec!["x".to_string(), "y".to_string()] },
        done(&[]),
    ]);
    let outcome = world.run(RequestLoop::batch(PROJECT), "", false);
    assert_eq!(outcome, EqwalizerDiagnostics::default());
    assert_eq!(
        world.seen,
        vec![
            Seen::Spawned,
            Seen::Checked,
            Seen::Received,
            Seen::Checked,
            Seen::Received,
            Seen::Checked,
            Seen::Received,
        ]
    );
}

#[test]
fn batch_observers_are_told() {
    let mut world = World::new(vec![
        MsgFromEqWAlizer::EqwalizingStart { module: "m".to_string() },
        MsgFromEqWAlizer::EqwalizingDone { module: "m".to_string() },
        done(&[]),
    ]);
    let outcome = world.run(RequestLoop::batch(PROJECT), "", false);
    assert_eq!(outcome, EqwalizerDiagnostics::default());
    assert_eq!(
        world.seen,
        vec![
            Seen::Spawned,
            Seen::Checked,
            Seen::Received,
            Seen::Start("m".to_string()),
            Seen::Checked,
            Seen::Received,
            Seen::Done("m".to_string()),
            Seen::Checked,
            Seen::Received,
        ]
    );
}

#[test]
fn every_format_is_asked_for_by_its_own_query() {
    for format in FORMATS {
        let step = RequestLoop::batch(PROJECT).on_message(get_ast("m", format));
        assert_eq!(
            step,
            Step {
                actions: vec![Action::QueryAst {
                    project_id: PROJECT,
                    module: ModuleName::new("m"),
                    format,
                }],
                next: Next::Ast { module: "m".to_string() },
            }
        );
    }
    for (i, a) in FORMATS.iter().enumerate() {
        for (j, b) in FORMATS.iter().enumerate() {
            assert_eq!(a == b, i == j);
        }
    }
}

#[test]
fn empty_tree_is_announced_and_not_written() {
    let step = RequestLoop::batch(PROJECT).on_ast("m".to_string(), Ok(Vec::new()));
    assert_eq!(
        step,
        Step {
            actions: vec![
                Action::Send(MsgToEqWAlizer::GetAstBytesReply { ast_bytes_len: 0 }),
                Action::ReceiveNewline,
                Action::CheckCancelled,
                Action::Receive,
            ],
            next: Next::Message,
        }
    );
}

#[test]
fn bytes_written_are_as_many_as_announced() {
    for len in [1usize, 2, 255, 256, 70_000] {
        let bytes: Vec<u8> = (0..len).map(|i| (i % 251) as u8).collect();
        for requests in [RequestLoop::batch(PROJECT), RequestLoop::module(PROJECT)] {
            let step = requests.on_ast("m".to_string(), Ok(bytes.clone()));
            assert_eq!(
                step,
                Step {
                    actions: vec![
                        Action::Send(MsgToEqWAlizer::GetAstBytesReply { ast_bytes_len: len as u32 }),
                        Action::ReceiveNewline,
                        Action::SendBytes(bytes.clone()),
                        Action::CheckCancelled,
                        Action::Receive,
                    ],
                    next: Next::Message,
                }
            );
        }
    }
}

/// Every receive of a record stands directly behind a cancellation check.
fn checks_before_receiving(actions: &[Action]) -> bool {
    actions
        .iter()
        .enumerate()
        .all(|(i, a)| *a != Action::Receive || (i > 0 && actions[i - 1] == Action::CheckCancelled))
}

#[test]
fn cancellation_is_checked_before_every_receive() {
    let messages = vec![
        get_ast("m", EqWAlizerASTFormat::RawForms),
        MsgFromEqWAlizer::EqwalizingStart { module: "m".to_string() },
        MsgFromEqWAlizer::EqwalizingDone { module: "m".to_string() },
        MsgFromEqWAlizer::EnteringModule { module: "m".to_string() },
        MsgFromEqWAlizer::Dependencies { modules: vec!["a".to_string(), "b".to_string()] },
        MsgFromEqWAlizer::Unknown,
        done(&[]),
    ];
    let answers = vec![
        Ok(Vec::new()),
        Ok(b"abc".to_vec()),
        Err(AstError::ModuleNotFound),
        Err(AstError::ParseError),
        Err(AstError::Other("x".to_string())),
    ];
    for requests in [RequestLoop::batch(PROJECT), RequestLoop::module(PROJECT)] {
        for has_handle in [false, true] {
            let step = requests.start("m", has_handle);
            assert!(checks_before_receiving(&step.actions));
            assert_eq!(step.next == Next::Message, step.actions.last() == Some(&Action::Receive));
        }
        for msg in &messages {
            let step = requests.on_message(msg.clone());
            assert!(checks_before_receiving(&step.actions));
            assert_eq!(step.next == Next::Message, step.actions.last() == Some(&Action::Receive));
        }
        for answer in &answers {
            let step = requests.on_ast("m".to_string(), answer.clone());
            assert!(checks_before_receiving(&step.actions));
            assert_eq!(step.next == Next::Message, step.actions.last() == Some(&Action::Receive));
        }
    }
    let step = ShellLoop::start(PROJECT);
    assert!(checks_before_receiving(&step.actions));
    for msg in &messages {
        let state = ShellLoop { project_id: PROJECT, diagnostics: EqwalizerDiagnostics::default() };
        let step = state.on_message(msg.clone());
        assert!(checks_before_receiving(&step.actions));
        assert_eq!(
            matches!(step.next, ShellNext::Message(_)),
            step.actions.last() == Some(&Action::Receive)
        );
    }
}

#[test]
fn batch_start_launches_the_child() {
    let step = RequestLoop::batch(PROJECT).start("whatever", false);
    assert_eq!(
        step,
        Step {
            actions: vec![Action::Spawn, Action::CheckCancelled, Action::Receive],
            next: Next::Message,
        }
    );
    assert_eq!(RequestLoop::batch(PROJECT).start("whatever", true), step);
    assert_eq!(RequestLoop::batch(PROJECT), RequestLoop { project_id: PROJECT, shell: false });
    assert_eq!(RequestLoop::module(PROJECT), RequestLoop { project_id: PROJECT, shell: true });
}

#[test]
fn module_loop_enters_the_module() {
    let step = RequestLoop::module(PROJECT).start("m", true);
    assert_eq!(
        step,
        Step {
            actions: vec![
                Action::Send(MsgToEqWAlizer::ELPEnteringModule),
                Action::CheckCancelled,
                Action::Receive,
            ],
            next: Next::Message,
        }
    );
}

#[test]
fn module_loop_fails_without_a_handle() {
    let step = RequestLoop::module(PROJECT).start("lists", false);
    assert_eq!(
        step,
        Step {
            actions: vec![],
            next: Next::Return(EqwalizerDiagnostics::Error(
                "no eqWAlizer handle for module lists".to_string()
            )),
        }
    );
}

#[test]
fn shell_dependency_prefetch() {
    let d = diagnostic("d");
    let mut world = World::new(vec![
        MsgFromEqWAlizer::Dependencies { modules: vec!["a".to_string(), "b".to_string()] },
        done(&[("m", vec![d.clone()])]),
    ]);
    let outcome = world.run(RequestLoop::module(PROJECT), "m", true);
    assert_eq!(outcome, EqwalizerDiagnostics::Diagnostics(map_of(&[("m", vec![d])])));
    assert_eq!(
        world.seen,
        vec![
            Seen::Sent(MsgToEqWAlizer::ELPEnteringModule),
            Seen::Checked,
            Seen::Received,
            Seen::Prefetch("a".to_string(), EqWAlizerASTFormat::TransitiveStub),
            Seen::Prefetch("b".to_string(), EqWAlizerASTFormat::TransitiveStub),
            Seen::Checked,
            Seen::Received,
        ]
    );
    let empty = RequestLoop::module(PROJECT)
        .on_message(MsgFromEqWAlizer::Dependencies { modules: vec![] });
    assert_eq!(
        empty,
        Step { actions: vec![Action::CheckCancelled, Action::Receive], next: Next::Message }
    );
}

#[test]
fn shell_session_visits_modules() {
    let dx = diagnostic("x");
    let dy = diagnostic("y");
    let mut world = World::new(vec![
        MsgFromEqWAlizer::EnteringModule { module: "x".to_string() },
        get_ast("x", EqWAlizerASTFormat::ConvertedForms),
        done(&[("x", vec![dx.clone()])]),
        MsgFromEqWAlizer::EqwalizingStart { module: "stray".to_string() },
        MsgFromEqWAlizer::Unknown,
        MsgFromEqWAlizer::EnteringModule { module: "y".to_string() },
        done(&[("y", vec![dy.clone()])]),
        done(&[("ignored", vec![])]),
    ])
    .with_ast("x", EqWAlizerASTFormat::ConvertedForms, Ok(b"xx".to_vec()));
    let outcome = world.run_shell();
    assert_eq!(
        outcome,
        EqwalizerDiagnostics::Diagnostics(map_of(&[("x", vec![dx]), ("y", vec![dy])]))
    );
    assert_eq!(
        world.seen,
        vec![
            Seen::Untracked,
            Seen::Spawned,
            Seen::Checked,
            Seen::Received,
            Seen::Registered("x".to_string()),
            Seen::Module("x".to_string()),
            Seen::Sent(MsgToEqWAlizer::ELPEnteringModule),
            Seen::Checked,
            Seen::Received,
            Seen::Query("x".to_string(), EqWAlizerASTFormat::ConvertedForms),
            reply(2),
            Seen::Newline,
            Seen::Bytes(b"xx".to_vec()),
            Seen::Checked,
            Seen::Received,
            Seen::Sent(MsgToEqWAlizer::ELPExitingModule),
            Seen::Checked,
            Seen::Received,
            Seen::Checked,
            Seen::Received,
            Seen::Checked,
            Seen::Received,
            Seen::Registered("y".to_string()),
            Seen::Module("y".to_string()),
            Seen::Sent(MsgToEqWAlizer::ELPEnteringModule),
            Seen::Checked,
            Seen::Received,
            Seen::Sent(MsgToEqWAlizer::ELPExitingModule),
            Seen::Checked,
            Seen::Received,
        ]
    );
}

#[test]
fn shell_session_keeps_the_first_failure() {
    let d = diagnostic("d");
    let mut world = World::new(vec![
        MsgFromEqWAlizer::EnteringModule { module: "x".to_string() },
        done(&[("x", vec![d])]),
        MsgFromEqWAlizer::EnteringModule { module: "boom".to_string() },
        get_ast("boom", EqWAlizerASTFormat::ConvertedForms),
        MsgFromEqWAlizer::EnteringModule { module: "z".to_string() },
        done(&[("z", vec![])]),
        done(&[]),
    ])
    .with_ast(
        "boom",
        EqWAlizerASTFormat::ConvertedForms,
        Err(AstError::Other("boom".to_string())),
    );
    let outcome = world.run_shell();
    assert_eq!(outcome, EqwalizerDiagnostics::Error("boom".to_string()));
    let exits = world
        .seen
        .iter()
        .filter(|s| **s == Seen::Sent(MsgToEqWAlizer::ELPExitingModule))
        .count();
    let modules = world.seen.iter().filter(|s| matches!(s, Seen::Module(_))).count();
    assert_eq!(modules, 3);
    assert_eq!(exits, modules);
}

#[test]
fn shell_module_result_is_followed_by_one_exit() {
    let state = ShellLoop { project_id: PROJECT, diagnostics: EqwalizerDiagnostics::default() };
    for found in [
        EqwalizerDiagnostics::default(),
        EqwalizerDiagnostics::Error("e".to_string()),
        EqwalizerDiagnostics::NoAst { module: "m".to_string() },
    ] {
        let step = state.clone().on_module_diagnostics(&found);
        assert_eq!(
            step.actions,
            vec![
                Action::Send(MsgToEqWAlizer::ELPExitingModule),
                Action::CheckCancelled,
                Action::Receive,
            ]
        );
        assert_eq!(
            step.next,
            ShellNext::Message(ShellLoop { project_id: PROJECT, diagnostics: found })
        );
    }
}

#[test]
fn shell_start_is_untracked() {
    let step = ShellLoop::start(PROJECT);
    assert_eq!(
        step,
        ShellStep {
            actions: vec![
                Action::ReportUntrackedRead,
                Action::Spawn,
                Action::CheckCancelled,
                Action::Receive,
            ],
            next: ShellNext::Message(ShellLoop {
                project_id: PROJECT,
                diagnostics: EqwalizerDiagnostics::default(),
            }),
        }
    );
}

#[test]
fn shell_entering_module_registers_the_handle() {
    let state = ShellLoop {
        project_id: PROJECT,
        diagnostics: EqwalizerDiagnostics::Error("kept".to_string()),
    };
    let step =
        state.clone().on_message(MsgFromEqWAlizer::EnteringModule { module: "m".to_string() });
    assert_eq!(
        step,
        ShellStep {
            actions: vec![
                Action::SetModuleIpcHandle { module: ModuleName::new("m") },
                Action::ModuleDiagnostics { project_id: PROJECT, module: "m".to_string() },
            ],
            next: ShellNext::ModuleDiagnostics(state.clone()),
        }
    );
    let step = state.clone().on_message(done(&[("m", vec![diagnostic("dropped")])]));
    assert_eq!(
        step,
        ShellStep {
            actions: vec![],
            next: ShellNext::Return(EqwalizerDiagnostics::Error("kept".to_string())),
        }
    );
    let step = state.clone().on_message(get_ast("m", EqWAlizerASTFormat::RawForms));
    assert_eq!(
        step,
        ShellStep {
            actions: vec![Action::CheckCancelled, Action::Receive],
            next: ShellNext::Message(state),
        }
    );
}
