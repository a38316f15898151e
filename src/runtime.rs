//! The interactive front end a notebook is opened with: parsing its
//! specifier, the package that provides it, and the launch script.

use vstd::prelude::*;
use crate::bootstrap::{DATA_DIR_SETUP, SETUP_FUNCTION};
use crate::text::{find, find_text, same_text, str_views};

verus! {

/// The front ends a notebook can be launched in.
#[derive(Debug, Clone, Copy, PartialEq, Eq, Structural)]
pub enum RuntimeKind {
    Notebook,
    Lab,
    Nbclassic,
}

/// A front end together with the version asked for, if any.
#[derive(Debug)]
pub struct Runtime {
    kind: RuntimeKind,
    version: Option<String>,
}

/// A specifier whose name is not one of the known front ends.
#[derive(Debug)]
pub struct InvalidRuntimeSpecifier {
    pub input: String,
}

/// The view of an optional string.
pub open spec fn opt_view(o: Option<String>) -> Option<Seq<char>> {
    match o {
        Some(s) => Some(s@),
        None => None,
    }
}

/// The name and version parts of a specifier: split once on the first `@`,
/// else once on the first `==`, else the whole text is the name.
pub open spec fn spec_split_specifier(s: Seq<char>) -> (Seq<char>, Option<Seq<char>>) {
    match find(s, seq!['@']) {
        Some(i) => (s.take(i), Some(s.skip(i + 1))),
        None => match find(s, seq!['=', '=']) {
            Some(i) => (s.take(i), Some(s.skip(i + 2))),
            None => (s, None),
        },
    }
}

/// The front end that a name denotes, if any.
pub open spec fn spec_kind_named(name: Seq<char>) -> Option<RuntimeKind> {
    if name == "notebook"@ {
        Some(RuntimeKind::Notebook)
    } else if name == "lab"@ {
        Some(RuntimeKind::Lab)
    } else if name == "nbclassic"@ {
        Some(RuntimeKind::Nbclassic)
    } else {
        None
    }
}

/// The package that provides a front end.
pub open spec fn spec_package_name(kind: RuntimeKind) -> Seq<char> {
    match kind {
        RuntimeKind::Notebook => "notebook"@,
        RuntimeKind::Lab => "jupyterlab"@,
        RuntimeKind::Nbclassic => "nbclassic"@,
    }
}

/// The command that starts a front end.
pub open spec fn spec_executable(kind: RuntimeKind) -> Seq<char> {
    match kind {
        RuntimeKind::Notebook => "jupyter-notebook"@,
        RuntimeKind::Lab => "jupyter-lab"@,
        RuntimeKind::Nbclassic => "jupyter-nbclassic"@,
    }
}

/// Version 6 of the classic notebook, which lives at an older module path
/// and needs setuptools beside it.
pub open spec fn spec_is_notebook_six(kind: RuntimeKind, version: Option<Seq<char>>) -> bool {
    kind == RuntimeKind::Notebook && version == Some("6"@)
}

/// The module whose `main` starts a front end.
pub open spec fn spec_main_import(kind: RuntimeKind, version: Option<Seq<char>>) -> Seq<char> {
    if spec_is_notebook_six(kind, version) {
        "notebook.notebookapp"@
    } else {
        match kind {
            RuntimeKind::Notebook => "notebook.app"@,
            RuntimeKind::Lab => "jupyterlab.labapp"@,
            RuntimeKind::Nbclassic => "nbclassic.notebookapp"@,
        }
    }
}

/// The requirement that installs a front end: `<package>[==<version>]`,
/// followed by `,setuptools` for version 6 of the classic notebook.
pub open spec fn spec_dependency_specifier(kind: RuntimeKind, version: Option<Seq<char>>) -> Seq<char> {
    let base = match version {
        Some(v) => spec_package_name(kind) + "=="@ + v,
        None => spec_package_name(kind),
    };
    if spec_is_notebook_six(kind, version) {
        base + ",setuptools"@
    } else {
        base
    }
}

/// The text of an optional metadata block: empty when there is none.
pub open spec fn spec_meta_text(meta: Option<&str>) -> Seq<char> {
    match meta {
        Some(m) => m@,
        None => Seq::empty(),
    }
}

/// What `format!("{:?}", items)` gives for a list of strings.
pub uninterp spec fn debug_list_text(items: Seq<Seq<char>>) -> Seq<char>;

/// The argument vector a launch script installs: the front end's command,
/// the notebook path, then the extra arguments.
pub open spec fn spec_argv(kind: RuntimeKind, path: Seq<char>, extra: Seq<Seq<char>>) -> Seq<Seq<char>> {
    seq![spec_executable(kind), path] + extra
}

/// The line that reports the installed version of `package` on stderr.
pub open spec fn spec_version_report(package: Seq<char>) -> Seq<char> {
    "import importlib.metadata;print(\"JUV_MANGED=\" + \""@ + package
        + "\" + \",\" + importlib.metadata.version(\""@ + package
        + "\"), file=sys.stderr)"@
}

/// The launch script that defines `setup()` and `run()`: the metadata block,
/// the setup function, then `run()`, which imports the front end's `main`,
/// calls `setup()`, reports the installed version when managed, installs
/// `argv` as `sys.argv` and calls `main()`.
pub open spec fn spec_prepared_script(
    meta: Seq<char>,
    main_import: Seq<char>,
    report: Seq<char>,
    argv: Seq<char>,
) -> Seq<char> {
    meta + "\n\n"@ + SETUP_FUNCTION@ + "\n\ndef run():\n    import sys\n    from "@ + main_import
        + " import main\n\n    setup()\n    "@ + report + "\n    sys.argv = "@ + argv
        + "\n    main()\n\nif __name__ == \"__main__\":\n    run()"@
}

/// The flat launch script: the metadata block, the imports, the front end's
/// `main`, the top-level setup code, the version report in managed mode
/// only, then `sys.argv` and the call of `main()`.
pub open spec fn spec_run_script(
    meta: Seq<char>,
    main_import: Seq<char>,
    is_managed: bool,
    package: Seq<char>,
    argv: Seq<char>,
) -> Seq<char> {
    meta + "\nimport os\nimport sys\n\nfrom "@ + main_import + " import main\n\n"@ + DATA_DIR_SETUP@
        + (if is_managed { spec_flat_version_report(package) } else { Seq::empty() })
        + "\n\nsys.argv = "@ + argv + "\nmain()\n"@
}

/// The top-level lines of the flat script that report the installed version
/// of `package` on stderr.
pub open spec fn spec_flat_version_report(package: Seq<char>) -> Seq<char> {
    "\n\nimport importlib.metadata\n\nversion = importlib.metadata.version(\""@ + package
        + "\")\nprint(\"JUV_MANGED=\" + \""@ + package + "\" + \",\" + version, file=sys.stderr)"@
}

/// Relies on std's `Debug` formatting of a list of strings: the text depends
/// on the strings alone.
#[verifier::external_body]
fn debug_list(items: &Vec<String>) -> (r: String)
    ensures
        r@ == debug_list_text(str_views(items@)),
{
    format!("{:?}", items)
}

impl Runtime {
    pub closed spec fn spec_kind(&self) -> RuntimeKind {
        self.kind
    }

    pub closed spec fn spec_version(&self) -> Option<Seq<char>> {
        opt_view(self.version)
    }

    /// Parses `name[('@'|'==')version]` where the name is `notebook`, `lab`
    /// or `nbclassic`.
    pub fn parse(s: &str) -> (r: Result<Runtime, InvalidRuntimeSpecifier>)
        ensures
            match spec_kind_named(spec_split_specifier(s@).0) {
                Some(kind) => r matches Ok(rt) && rt.spec_kind() == kind
                    && rt.spec_version() == spec_split_specifier(s@).1,
                None => r matches Err(e) && e.input@ == s@,
            },
    {
        let n = s.unicode_len();
        let (name, version): (&str, Option<String>) = match find_text(s, "@") {
            Some(i) => {
                proof {
                    reveal_strlit("@");
                    assert("@"@ =~= seq!['@']);
                }
                (s.substring_char(0, i), Some(String::from_str(s.substring_char(i + 1, n))))
            },
            None => {
                proof {
                    reveal_strlit("@");
                    assert("@"@ =~= seq!['@']);
                }
                match find_text(s, "==") {
                    Some(i) => {
                        proof {
                            reveal_strlit("==");
                            assert("=="@ =~= seq!['=', '=']);
                        }
                        (s.substring_char(0, i), Some(String::from_str(s.substring_char(i + 2, n))))
                    },
                    None => {
                        proof {
                            reveal_strlit("==");
                            assert("=="@ =~= seq!['=', '=']);
                        }
                        (s, None)
                    },
                }
            },
        };
        let kind = if same_text(name, "notebook") {
            RuntimeKind::Notebook
        } else if same_text(name, "lab") {
            RuntimeKind::Lab
        } else if same_text(name, "nbclassic") {
            RuntimeKind::Nbclassic
        } else {
            return Err(InvalidRuntimeSpecifier { input: String::from_str(s) });
        };
        Ok(Runtime { kind, version })
    }

    pub fn kind(&self) -> (r: RuntimeKind)
        ensures
            r == self.spec_kind(),
    {
        self.kind
    }

    pub fn version(&self) -> (r: Option<&str>)
        ensures
            match r {
                Some(v) => self.spec_version() == Some(v@),
                None => self.spec_version() is None,
            },
    {
        match &self.version {
            Some(v) => Some(v.as_str()),
            None => None,
        }
    }
    /// The command that starts the front end.
    pub fn exacutable(&self) -> (r: &'static str)
        ensures
            r@ == spec_executable(self.spec_kind()),
    {
        match self.kind {
            RuntimeKind::Notebook => "jupyter-notebook",
            RuntimeKind::Lab => "jupyter-lab",
            RuntimeKind::Nbclassic => "jupyter-nbclassic",
        }
    }

    /// The package that provides the front end.
    pub fn package_name(&self) -> (r: &'static str)
        ensures
            r@ == spec_package_name(self.spec_kind()),
    {
        match self.kind {
            RuntimeKind::Notebook => "notebook",
            RuntimeKind::Lab => "jupyterlab",
            RuntimeKind::Nbclassic => "nbclassic",
        }
    }

    fn is_notebook_six(&self) -> (r: bool)
        ensures
            r == spec_is_notebook_six(self.spec_kind(), self.spec_version()),
    {
        match &self.version {
            Some(v) => {
                proof {
                    reveal_strlit("6");
                }
                self.kind == RuntimeKind::Notebook && same_text(v.as_str(), "6")
            },
            None => false,
        }
    }

    /// The module whose `main` starts the front end.
    pub fn main_import(&self) -> (r: &'static str)
        ensures
            r@ == spec_main_import(self.spec_kind(), self.spec_version()),
    {
        if self.is_notebook_six() {
            return "notebook.notebookapp";
        }
        match self.kind {
            RuntimeKind::Notebook => "notebook.app",
            RuntimeKind::Lab => "jupyterlab.labapp",
            RuntimeKind::Nbclassic => "nbclassic.notebookapp",
        }
    }

    /// The requirement that installs the front end.
    pub fn as_dependency_specifier(&self) -> (r: String)
        ensures
            r@ == spec_dependency_specifier(self.spec_kind(), self.spec_version()),
    {
        let mut r = String::from_str(self.package_name());
        match &self.version {
            Some(v) => {
                r.append("==");
                r.append(v.as_str());
            },
            None => {},
        }
        if self.is_notebook_six() {
            r.append(",setuptools");
        }
        r
    }

    /// The requirement handed to the package manager's `--with`.
    pub fn with_args(&self) -> (r: String)
        ensures
            r@ == spec_dependency_specifier(self.spec_kind(), self.spec_version()),
    {
        self.as_dependency_specifier()
    }

    /// The argument vector that a launch script installs.
    pub fn argv(&self, path: &str, jupyter_args: &[String]) -> (r: Vec<String>)
        ensures
            str_views(r@) == spec_argv(self.spec_kind(), path@, str_views(jupyter_args@)),
    {
        let mut r: Vec<String> = Vec::new();
        r.push(String::from_str(self.exacutable()));
        r.push(String::from_str(path));
        let mut i: usize = 0;
        while i < jupyter_args.len()
            invariant
                i <= jupyter_args@.len(),
                r@.len() == i + 2,
                r@[0]@ == spec_executable(self.spec_kind()),
                r@[1]@ == path@,
                forall|j: int| 0 <= j < i ==> r@[j + 2]@ == jupyter_args@[j]@,
            decreases jupyter_args@.len() - i,
        {
            r.push(jupyter_args[i].clone());
            i = i + 1;
        }
        assert(str_views(r@) =~= spec_argv(self.spec_kind(), path@, str_views(jupyter_args@)));
        r
    }

    /// The script that defines `setup()` and `run()`, for an argument
    /// vector already written as a list literal.
    pub fn prepare_run_script_for_argv(&self, meta: Option<&str>, is_managed: bool, argv: &str) -> (r: String)
        ensures
            r@ == spec_prepared_script(
                spec_meta_text(meta),
                spec_main_import(self.spec_kind(), self.spec_version()),
                if is_managed { spec_version_report(spec_package_name(self.spec_kind())) } else { Seq::empty() },
                argv@,
            ),
    {
        let mut r = match meta {
            Some(m) => String::from_str(m),
            None => String::new(),
        };
        r.append("\n\n");
        r.append(SETUP_FUNCTION);
        r.append("\n\ndef run():\n    import sys\n    from ");
        r.append(self.main_import());
        r.append(" import main\n\n    setup()\n    ");
        if is_managed {
            let package = self.package_name();
            r.append("import importlib.metadata;print(\"JUV_MANGED=\" + \"");
            r.append(package);
            r.append("\" + \",\" + importlib.metadata.version(\"");
            r.append(package);
            r.append("\"), file=sys.stderr)");
        }
        r.append("\n    sys.argv = ");
        r.append(argv);
        r.append("\n    main()\n\nif __name__ == \"__main__\":\n    run()");
        r
    }

    /// The script that launches the front end on the notebook at `path`,
    /// preceded by the notebook's metadata block if it has one.
    pub fn prepare_run_script(
        &self,
        path: &str,
        meta: Option<&str>,
        is_managed: bool,
        jupyter_args: &[String],
    ) -> (r: String)
        ensures
            r@ == spec_prepared_script(
                spec_meta_text(meta),
                spec_main_import(self.spec_kind(), self.spec_version()),
                if is_managed { spec_version_report(spec_package_name(self.spec_kind())) } else { Seq::empty() },
                debug_list_text(spec_argv(self.spec_kind(), path@, str_views(jupyter_args@))),
            ),
    {
        let args = self.argv(path, jupyter_args);
        let argv = debug_list(&args);
        self.prepare_run_script_for_argv(meta, is_managed, argv.as_str())
    }

    /// The flat launch script, for an argument vector already written as a
    /// list literal.
    pub fn run_script_for_argv(&self, meta: Option<&str>, is_managed: bool, argv: &str) -> (r: String)
        ensures
            r@ == spec_run_script(
                spec_meta_text(meta),
                spec_main_import(self.spec_kind(), self.spec_version()),
                is_managed,
                spec_package_name(self.spec_kind()),
                argv@,
            ),
    {
        let mut r = match meta {
            Some(m) => String::from_str(m),
            None => String::new(),
        };
        let package = self.package_name();
        r.append("\nimport os\nimport sys\n\nfrom ");
        r.append(self.main_import());
        r.append(" import main\n\n");
        r.append(DATA_DIR_SETUP);
        if is_managed {
            r.append("\n\nimport importlib.metadata\n\nversion = importlib.metadata.version(\"");
            r.append(package);
            r.append("\")\nprint(\"JUV_MANGED=\" + \"");
            r.append(package);
            r.append("\" + \",\" + version, file=sys.stderr)");
        }
        r.append("\n\nsys.argv = ");
        r.append(argv);
        r.append("\nmain()\n");
        r
    }

    /// The flat launch script for the notebook at `path`.
    pub fn run_script(&self, path: &str, meta: Option<&str>, is_managed: bool, jupyter_args: &[String]) -> (r: String)
        ensures
            r@ == spec_run_script(
                spec_meta_text(meta),
                spec_main_import(self.spec_kind(), self.spec_version()),
                is_managed,
                spec_package_name(self.spec_kind()),
                debug_list_text(spec_argv(self.spec_kind(), path@, str_views(jupyter_args@))),
            ),
    {
        let args = self.argv(path, jupyter_args);
        let argv = debug_list(&args);
        self.run_script_for_argv(meta, is_managed, argv.as_str())
    }
}

impl std::str::FromStr for Runtime {
    type Err = InvalidRuntimeSpecifier;

    fn from_str(s: &str) -> (r: Result<Runtime, InvalidRuntimeSpecifier>)
        ensures
            match spec_kind_named(spec_split_specifier(s@).0) {
                Some(kind) => r matches Ok(rt) && rt.spec_kind() == kind
                    && rt.spec_version() == spec_split_specifier(s@).1,
                None => r matches Err(e) && e.input@ == s@,
            },
    {
        Runtime::parse(s)
    }
}

} // verus!
