use vstd::prelude::*;

verus! {

/// The invocation of a child process: the program, its arguments in their
/// order, and the environment variables set for it, in the order in which
/// they were set.
#[derive(Debug, PartialEq, Eq, Clone)]
pub struct CommandProxy {
    pub program: String,
    pub args: Vec<String>,
    pub envs: Vec<(String, String)>,
}

/// An invocation as mathematical values.
pub struct CommandView {
    pub program: Seq<char>,
    pub args: Seq<Seq<char>>,
    pub envs: Seq<(Seq<char>, Seq<char>)>,
}

impl View for CommandProxy {
    type V = CommandView;

    open spec fn view(&self) -> CommandView {
        CommandView {
            program: self.program@,
            args: self.args.deep_view(),
            envs: self.envs.deep_view(),
        }
    }
}

impl CommandView {
    /// The invocation with one more argument.
    pub open spec fn arg(self, arg: Seq<char>) -> CommandView {
        CommandView { args: self.args.push(arg), ..self }
    }

    /// The invocation with more arguments.
    pub open spec fn args(self, args: Seq<Seq<char>>) -> CommandView {
        CommandView { args: self.args + args, ..self }
    }

    /// The invocation with one more variable set.
    pub open spec fn env(self, key: Seq<char>, value: Seq<char>) -> CommandView {
        CommandView { envs: self.envs.push((key, value)), ..self }
    }

    /// The invocation with the variables that say where the build
    /// information lies and, where one is given, the directory of syntax trees.
    pub open spec fn add_env(
        self,
        build_info_path: Seq<char>,
        elp_ast_dir: Option<Seq<char>>,
    ) -> CommandView {
        let with_info = self.env("EQWALIZER_BUILD_INFO"@, build_info_path);
        match elp_ast_dir {
            Some(dir) => with_info.env("EQWALIZER_ELP_AST_DIR"@, dir),
            None => with_info,
        }
    }
}

impl CommandProxy {
    /// The invocation of `program` without arguments and variables.
    pub fn new(program: String) -> (cmd: CommandProxy)
        ensures
            cmd@ == (CommandView { program: program@, args: seq![], envs: seq![] }),
    {
        let cmd = CommandProxy { program, args: Vec::new(), envs: Vec::new() };
        assert(cmd@.args =~= seq![]);
        assert(cmd@.envs =~= seq![]);
        cmd
    }

    /// Appends an argument.
    pub fn arg(&mut self, arg: &str)
        ensures
            final(self)@ == old(self)@.arg(arg@),
    {
        self.args.push(String::from_str(arg));
        assert(self@.args =~= old(self)@.args.push(arg@));
    }

    /// Appends arguments, in their order.
    pub fn args(&mut self, args: &[String])
        ensures
            final(self)@ == old(self)@.args(args.deep_view()),
    {
        let mut i: usize = 0;
        while i < args.len()
            invariant
                i <= args.len(),
                self@ == old(self)@.args(args.deep_view().take(i as int)),
            decreases args.len() - i,
        {
            self.arg(args[i].as_str());
            assert(self@.args =~= old(self)@.args + args.deep_view().take(i + 1));
            i += 1;
        }
        assert(args.deep_view().take(i as int) =~= args.deep_view());
    }

    /// Sets a variable of the child's environment.
    pub fn env(&mut self, key: &str, value: &str)
        ensures
            final(self)@ == old(self)@.env(key@, value@),
    {
        self.envs.push((String::from_str(key), String::from_str(value)));
        assert(self@.envs =~= old(self)@.envs.push((key@, value@)));
    }
}

/// Sets the variables that say where the build information lies and, where
/// one is given, the directory of syntax trees.
pub fn add_env(cmd: &mut CommandProxy, build_info_path: &str, elp_ast_dir: Option<&str>)
    ensures
        final(cmd)@ == old(cmd)@.add_env(build_info_path@, elp_ast_dir.deep_view()),
{
    cmd.env("EQWALIZER_BUILD_INFO", build_info_path);
    if let Some(elp_ast_dir) = elp_ast_dir {
        cmd.env("EQWALIZER_ELP_AST_DIR", elp_ast_dir);
    }
}

/// The type checker as an executable: how to invoke it, and whether it runs
/// a shell session.
#[derive(Debug, PartialEq, Eq, Clone)]
pub struct Eqwalizer {
    /// The program to run.
    pub cmd: String,
    /// The arguments that every invocation begins with.
    pub args: Vec<String>,
    /// Whether the child runs a shell session.
    pub shell: bool,
}

/// The executable as mathematical values.
pub struct EqwalizerView {
    pub cmd: Seq<char>,
    pub args: Seq<Seq<char>>,
    pub shell: bool,
}

impl View for Eqwalizer {
    type V = EqwalizerView;

    open spec fn view(&self) -> EqwalizerView {
        EqwalizerView { cmd: self.cmd@, args: self.args.deep_view(), shell: self.shell }
    }
}

/// Whether an executable with this file extension can be invoked: a jar, or
/// a file without extension.
pub open spec fn supported_extension(ext: Seq<char>) -> bool {
    ext == "jar"@ || ext == ""@
}

/// How an executable at `path` with the extension `ext` is invoked: a jar
/// through `java`, with a stack of 20 megabytes, and a file without extension
/// by itself.
pub open spec fn invocation(path: Seq<char>, ext: Seq<char>) -> EqwalizerView {
    if ext == "jar"@ {
        EqwalizerView { cmd: "java"@, args: seq!["-Xss20M"@, "-jar"@, path], shell: false }
    } else {
        EqwalizerView { cmd: path, args: seq![], shell: false }
    }
}

impl EqwalizerView {
    /// The bare invocation of the executable.
    pub open spec fn cmd(self) -> CommandView {
        CommandView { program: self.cmd, args: self.args, envs: seq![] }
    }

    /// The invocation for a type-checking run over `modules`.
    pub open spec fn typecheck(
        self,
        build_info_path: Seq<char>,
        modules: Seq<Seq<char>>,
    ) -> CommandView {
        let cmd = self.cmd().arg("ipc"@).args(modules).env("EQWALIZER_IPC"@, "true"@).env(
            "EQWALIZER_USE_ELP_CONVERTED_AST"@,
            "true"@,
        );
        let cmd = if self.shell {
            cmd.env("EQWALIZER_ELP_SHELL"@, "true"@)
        } else {
            cmd
        };
        cmd.add_env(build_info_path, None)
    }

    /// The invocation that hands `args` through to the executable.
    pub open spec fn passthrough(
        self,
        args: Seq<Seq<char>>,
        build_info_path: Seq<char>,
        elp_ast_dir: Seq<char>,
    ) -> CommandView {
        self.cmd().args(args).add_env(build_info_path, Some(elp_ast_dir))
    }
}

/// Whether `text` spells `jar`.
fn is_jar(text: &str) -> (b: bool)
    ensures
        b <==> text@ == "jar"@,
{
    proof {
        reveal_strlit("jar");
    }
    let b = text.unicode_len() == 3 && text.get_char(0) == 'j' && text.get_char(1) == 'a'
        && text.get_char(2) == 'r';
    assert(b ==> text@ =~= "jar"@);
    b
}

/// Whether `text` is empty.
fn is_blank(text: &str) -> (b: bool)
    ensures
        b <==> text@ == ""@,
{
    proof {
        reveal_strlit("");
    }
    let b = text.unicode_len() == 0;
    assert(b ==> text@ =~= ""@);
    b
}

impl Eqwalizer {
    /// Whether an executable with the file extension `ext` can be invoked.
    pub fn supports(ext: &str) -> (b: bool)
        ensures
            b <==> supported_extension(ext@),
    {
        is_jar(ext) || is_blank(ext)
    }

    /// The executable at `path`, whose file extension is `ext`. Only a jar
    /// and a file without extension can be invoked.
    pub fn new(path: String, ext: &str) -> (r: Eqwalizer)
        requires
            supported_extension(ext@),
        ensures
            r@ == invocation(path@, ext@),
    {
        if is_jar(ext) {
            let mut args: Vec<String> = Vec::new();
            args.push(String::from_str("-Xss20M"));
            args.push(String::from_str("-jar"));
            args.push(path);
            let r = Eqwalizer { cmd: String::from_str("java"), args, shell: false };
            assert(r@.args =~= invocation(path@, ext@).args);
            r
        } else {
            let r = Eqwalizer { cmd: path, args: Vec::new(), shell: false };
            assert(r@.args =~= invocation(path@, ext@).args);
            r
        }
    }

    /// The bare invocation of the executable.
    pub fn cmd(&self) -> (cmd: CommandProxy)
        ensures
            cmd@ == self@.cmd(),
    {
        let mut cmd = CommandProxy::new(self.cmd.clone());
        cmd.args(self.args.as_slice());
        assert(cmd@.args =~= self@.args);
        cmd
    }

    /// The invocation for a type-checking run over `modules`: the protocol
    /// over the child's pipes is switched on, the modules follow the word
    /// `ipc`, and a shell session is announced where this is one.
    pub fn typecheck(&self, build_info_path: &str, modules: Vec<&str>) -> (cmd: CommandProxy)
        ensures
            cmd@ == self@.typecheck(build_info_path@, modules.deep_view()),
    {
        let mut cmd = self.cmd();
        cmd.arg("ipc");
        let ghost start = cmd@;
        let mut i: usize = 0;
        while i < modules.len()
            invariant
                i <= modules.len(),
                cmd@ == start.args(modules.deep_view().take(i as int)),
            decreases modules.len() - i,
        {
            cmd.arg(modules[i]);
            assert(cmd@.args =~= start.args + modules.deep_view().take(i + 1));
            i += 1;
        }
        assert(modules.deep_view().take(i as int) =~= modules.deep_view());
        cmd.env("EQWALIZER_IPC", "true");
        cmd.env("EQWALIZER_USE_ELP_CONVERTED_AST", "true");
        if self.shell {
            cmd.env("EQWALIZER_ELP_SHELL", "true");
        }
        add_env(&mut cmd, build_info_path, None);
        cmd
    }

    /// The invocation that hands `args` through to the executable, with the
    /// directory of syntax trees in its environment.
    pub fn passthrough(&self, args: &[String], build_info_path: &str, elp_ast_dir: &str) -> (cmd:
        CommandProxy)
        ensures
            cmd@ == self@.passthrough(args.deep_view(), build_info_path@, elp_ast_dir@),
    {
        let mut cmd = self.cmd();
        cmd.args(args);
        add_env(&mut cmd, build_info_path, Some(elp_ast_dir));
        cmd
    }
}

} // verus!
