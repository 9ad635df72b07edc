use crate::text_range::TextRange;
use vstd::prelude::*;

verus! {

/// The identity of a source file.
#[derive(Debug, Clone, Copy, PartialEq, Eq, Hash, Structural)]
pub struct FileId(pub u32);

/// The kind of a token, as far as the linter tells kinds apart.
#[derive(Debug, Clone, Copy, PartialEq, Eq, Structural)]
pub enum SyntaxKind {
    Whitespace,
    Other,
}

/// A token of the source text.
#[derive(Debug, PartialEq, Eq, Clone)]
pub struct Token {
    pub kind: SyntaxKind,
    pub text: String,
}

/// A macro that a file's definitions hold, with what is known of it.
#[derive(Debug, PartialEq, Eq, Clone)]
pub struct MacroDefinition {
    /// The macro's name as it is shown, with its arity where it has one.
    pub name: String,
    /// The file that defines the macro.
    pub file_id: FileId,
    /// Whether the macro is used anywhere.
    pub used: bool,
    /// The range of the whole definition.
    pub range: TextRange,
    /// The token that follows the definition's last token, if both exist.
    pub follower: Option<Token>,
    /// The range of the macro's name inside the definition, if it has one.
    pub name_range: Option<TextRange>,
}

/// A macro as mathematical values.
pub struct MacroView {
    pub name: Seq<char>,
    pub file_id: FileId,
    pub used: bool,
    pub range: (nat, nat),
    pub follower: Option<(SyntaxKind, Seq<char>)>,
    pub name_range: Option<(nat, nat)>,
}

impl View for MacroDefinition {
    type V = MacroView;

    open spec fn view(&self) -> MacroView {
        MacroView {
            name: self.name@,
            file_id: self.file_id,
            used: self.used,
            range: self.range@,
            follower: match self.follower {
                Some(token) => Some((token.kind, token.text@)),
                None => None,
            },
            name_range: match self.name_range {
                Some(range) => Some(range@),
                None => None,
            },
        }
    }
}

impl DeepView for MacroDefinition {
    type V = MacroView;

    open spec fn deep_view(&self) -> MacroView {
        self.view()
    }
}

impl MacroView {
    /// The definition ends before the last offset that a text can have
    /// wherever a token follows it.
    pub open spec fn well_formed(self) -> bool {
        self.follower is Some ==> self.range.1 < u32::MAX
    }

    /// Whether the linter looks at the macro: it is defined in the file at
    /// hand, not in an included one, and nothing uses it.
    pub open spec fn reportable(self, file_id: FileId) -> bool {
        self.file_id == file_id && !self.used
    }

    /// Whether the linter can say where the macro is: a token follows its
    /// definition, and the definition has a name.
    pub open spec fn locatable(self) -> bool {
        self.follower is Some && self.name_range is Some
    }

    /// Whether the line break behind the definition goes with it.
    pub open spec fn takes_line_break(self) -> bool {
        self.follower matches Some((kind, text)) && kind == SyntaxKind::Whitespace && text.len() > 0
            && text[0] == '\n'
    }

    /// The range to delete: the definition, with the line break behind it
    /// where there is one.
    pub open spec fn removal(self) -> (nat, nat) {
        if self.takes_line_break() {
            (self.range.0, self.range.1 + 1)
        } else {
            self.range
        }
    }

    /// The warning for the macro.
    pub open spec fn warning(self) -> DiagnosticModel {
        make_diagnostic_spec(self.file_id, self.removal(), self.name_range->Some_0, self.name)
    }
}

/// How severe a diagnostic is.
#[derive(Debug, Clone, Copy, PartialEq, Eq, Structural)]
pub enum Severity {
    Error,
    Warning,
    WeakWarning,
}

/// What a diagnostic is about.
#[derive(Debug, Clone, Copy, PartialEq, Eq, Structural)]
pub enum DiagnosticCode {
    UnusedMacro,
}

/// One replacement in a text: the range that goes and what comes instead.
#[derive(Debug, PartialEq, Eq, Clone)]
pub struct Indel {
    pub insert: String,
    pub delete: TextRange,
}

/// A change to a text, as a list of replacements.
#[derive(Debug, PartialEq, Eq, Clone)]
pub struct TextEdit {
    pub indels: Vec<Indel>,
}

/// A change to one file.
#[derive(Debug, PartialEq, Eq, Clone)]
pub struct SourceChange {
    pub file_id: FileId,
    pub edit: TextEdit,
}

/// A fix that the user may apply.
#[derive(Debug, PartialEq, Eq, Clone)]
pub struct Assist {
    pub id: String,
    pub label: String,
    pub target: TextRange,
    pub source_change: SourceChange,
}

/// A fix as mathematical values. Its change is one list of replacements in
/// one file, each the range that goes and the text that comes.
pub struct AssistView {
    pub id: Seq<char>,
    pub label: Seq<char>,
    pub target: (nat, nat),
    pub file_id: FileId,
    pub indels: Seq<(Seq<char>, (nat, nat))>,
}

impl View for Indel {
    type V = (Seq<char>, (nat, nat));

    open spec fn view(&self) -> (Seq<char>, (nat, nat)) {
        (self.insert@, self.delete@)
    }
}

impl DeepView for Indel {
    type V = (Seq<char>, (nat, nat));

    open spec fn deep_view(&self) -> (Seq<char>, (nat, nat)) {
        self.view()
    }
}

impl View for Assist {
    type V = AssistView;

    open spec fn view(&self) -> AssistView {
        AssistView {
            id: self.id@,
            label: self.label@,
            target: self.target@,
            file_id: self.source_change.file_id,
            indels: self.source_change.edit.indels.deep_view(),
        }
    }
}

impl DeepView for Assist {
    type V = AssistView;

    open spec fn deep_view(&self) -> AssistView {
        self.view()
    }
}

/// A finding of the linter.
#[derive(Debug, PartialEq, Eq, Clone)]
pub struct Diagnostic {
    pub message: String,
    pub range: TextRange,
    pub severity: Severity,
    pub code: DiagnosticCode,
    pub fixes: Option<Vec<Assist>>,
}

/// A finding of the linter as mathematical values.
pub struct DiagnosticModel {
    pub message: Seq<char>,
    pub range: (nat, nat),
    pub severity: Severity,
    pub code: DiagnosticCode,
    pub fixes: Option<Seq<AssistView>>,
}

impl View for Diagnostic {
    type V = DiagnosticModel;

    open spec fn view(&self) -> DiagnosticModel {
        DiagnosticModel {
            message: self.message@,
            range: self.range@,
            severity: self.severity,
            code: self.code,
            fixes: match self.fixes {
                Some(fixes) => Some(fixes.deep_view()),
                None => None,
            },
        }
    }
}

impl DeepView for Diagnostic {
    type V = DiagnosticModel;

    open spec fn deep_view(&self) -> DiagnosticModel {
        self.view()
    }
}

/// The fix that deletes `range` from the file, offered at that range.
pub open spec fn delete_unused_macro_spec(
    file_id: FileId,
    range: (nat, nat),
    name: Seq<char>,
) -> AssistView {
    AssistView {
        id: "delete_unused_macro"@,
        label: "Delete unused macro ("@ + name + ")"@,
        target: range,
        file_id,
        indels: seq![(Seq::<char>::empty(), range)],
    }
}

/// The warning at `name_range` that the macro `name` is unused, with the fix
/// that deletes `macro_range`.
pub open spec fn make_diagnostic_spec(
    file_id: FileId,
    macro_range: (nat, nat),
    name_range: (nat, nat),
    name: Seq<char>,
) -> DiagnosticModel {
    DiagnosticModel {
        message: "Unused macro ("@ + name + ")"@,
        range: name_range,
        severity: Severity::Warning,
        code: DiagnosticCode::UnusedMacro,
        fixes: Some(seq![delete_unused_macro_spec(file_id, macro_range, name)]),
    }
}

/// What the linter has found after the first `n` macros, and whether it is
/// still going: it gives up at the first macro that it would report but
/// cannot locate.
pub open spec fn scanned(macros: Seq<MacroView>, file_id: FileId, n: nat) -> (
    Seq<DiagnosticModel>,
    bool,
)
    decreases n,
{
    if n == 0 || n > macros.len() {
        (seq![], true)
    } else {
        let (found, going) = scanned(macros, file_id, (n - 1) as nat);
        let def = macros[n - 1];
        if !going || !def.reportable(file_id) {
            (found, going)
        } else if def.locatable() {
            (found.push(def.warning()), true)
        } else {
            (found, false)
        }
    }
}

/// What the linter finds in a file with the extension `ext`: it only looks
/// at files whose extension is `erl`.
pub open spec fn unused_macros(macros: Seq<MacroView>, file_id: FileId, ext: Option<Seq<char>>) -> (
    Seq<DiagnosticModel>,
    bool,
) {
    if ext == Some("erl"@) {
        scanned(macros, file_id, macros.len())
    } else {
        (seq![], true)
    }
}

/// Whether `text` spells `erl`.
fn is_erl(text: &str) -> (b: bool)
    ensures
        b <==> text@ == "erl"@,
{
    proof {
        reveal_strlit("erl");
    }
    let b = text.unicode_len() == 3 && text.get_char(0) == 'e' && text.get_char(1) == 'r'
        && text.get_char(2) == 'l';
    assert(b ==> text@ =~= "erl"@);
    b
}

/// Whether `token` is whitespace that begins with a line break.
fn begins_line(token: &Token) -> (b: bool)
    ensures
        b <==> token.kind == SyntaxKind::Whitespace && token.text@.len() > 0 && token.text@[0]
            == '\n',
{
    match token.kind {
        SyntaxKind::Whitespace => {
            let text = token.text.as_str();
            text.unicode_len() > 0 && text.get_char(0) == '\n'
        },
        SyntaxKind::Other => false,
    }
}

/// The fix that deletes the macro `name`, which stands at `range` in the
/// file.
pub fn delete_unused_macro(file_id: FileId, range: TextRange, name: &str) -> (fix: Assist)
    ensures
        fix@ == delete_unused_macro_spec(file_id, range@, name@),
{
    let indels = vec![Indel { insert: String::new(), delete: range }];
    let label = String::from_str("Delete unused macro (").concat(name).concat(")");
    let fix = Assist {
        id: String::from_str("delete_unused_macro"),
        label,
        target: range,
        source_change: SourceChange { file_id, edit: TextEdit { indels } },
    };
    assert(fix@.indels =~= delete_unused_macro_spec(file_id, range@, name@).indels);
    fix
}

/// The warning that the macro `name` is unused.
pub fn make_diagnostic(
    file_id: FileId,
    macro_range: TextRange,
    name_range: TextRange,
    name: &str,
) -> (d: Diagnostic)
    ensures
        d@ == make_diagnostic_spec(file_id, macro_range@, name_range@, name@),
{
    let fixes = vec![delete_unused_macro(file_id, macro_range, name)];
    let message = String::from_str("Unused macro (").concat(name).concat(")");
    let d = Diagnostic {
        message,
        range: name_range,
        severity: Severity::Warning,
        code: DiagnosticCode::UnusedMacro,
        fixes: Some(fixes),
    };
    assert(d@.fixes->Some_0 =~= make_diagnostic_spec(
        file_id,
        macro_range@,
        name_range@,
        name@,
    ).fixes->Some_0);
    d
}

/// Appends to `acc` a warning for each macro that the file at hand defines
/// and nothing uses. `macros` are the macros that the file's definitions
/// hold, its own and those of the files it includes. The result is `None`
/// where the linter gave up at a macro that it could not locate.
pub fn unused_macro(
    acc: &mut Vec<Diagnostic>,
    macros: &Vec<MacroDefinition>,
    file_id: FileId,
    ext: Option<&str>,
) -> (done: Option<()>)
    requires
        forall|i: int| 0 <= i < macros.len() ==> (#[trigger] macros[i])@.well_formed(),
    ensures
        final(acc).deep_view() == old(acc).deep_view() + unused_macros(
            macros.deep_view(),
            file_id,
            ext.deep_view(),
        ).0,
        done is Some <==> unused_macros(macros.deep_view(), file_id, ext.deep_view()).1,
{
    let is_source = match ext {
        Some(ext) => is_erl(ext),
        None => false,
    };
    if !is_source {
        assert(acc.deep_view() =~= old(acc).deep_view() + Seq::<DiagnosticModel>::empty());
        return Some(());
    }
    let ghost defs = macros.deep_view();
    let mut i: usize = 0;
    assert(acc.deep_view() =~= old(acc).deep_view() + scanned(defs, file_id, 0).0);
    while i < macros.len()
        invariant
            i <= macros.len(),
            defs == macros.deep_view(),
            ext.deep_view() == Some("erl"@),
            forall|i: int| 0 <= i < macros.len() ==> (#[trigger] macros[i])@.well_formed(),
            acc.deep_view() == old(acc).deep_view() + scanned(defs, file_id, i as nat).0,
            scanned(defs, file_id, i as nat).1,
        decreases macros.len() - i,
    {
        let def = &macros[i];
        assert(defs[i as int] == def@);
        if def.file_id == file_id && !def.used {
            let follower = match &def.follower {
                Some(token) => token,
                None => {
                    proof {
                        assert(!defs[i as int].locatable());
                        assert(!scanned(defs, file_id, (i + 1) as nat).1);
                        lemma_gives_up(defs, file_id, (i + 1) as nat, macros.len() as nat);
                    }
                    return None;
                },
            };
            let macro_range = if begins_line(follower) {
                let start = def.range.start();
                let end = def.range.end() + 1;
                TextRange::new(start, end)
            } else {
                def.range
            };
            let name_range = match def.name_range {
                Some(range) => range,
                None => {
                    proof {
                        lemma_gives_up(defs, file_id, (i + 1) as nat, macros.len() as nat);
                    }
                    return None;
                },
            };
            let d = make_diagnostic(file_id, macro_range, name_range, def.name.as_str());
            let ghost before = acc.deep_view();
            acc.push(d);
            assert(acc.deep_view() =~= before.push(d@));
            assert(acc.deep_view() =~= old(acc).deep_view() + scanned(
                defs,
                file_id,
                (i + 1) as nat,
            ).0);
        }
        i += 1;
    }
    Some(())
}

/// Once the linter has given up, it finds nothing more.
proof fn lemma_gives_up(macros: Seq<MacroView>, file_id: FileId, m: nat, n: nat)
    requires
        m <= n <= macros.len(),
        !scanned(macros, file_id, m).1,
    ensures
        scanned(macros, file_id, n) == scanned(macros, file_id, m),
    decreases n,
{
    if m < n {
        lemma_gives_up(macros, file_id, m, (n - 1) as nat);
    }
}

} // verus!
