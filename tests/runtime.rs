use juv::{Runtime, RuntimeKind};

#[test]
fn parses_lab_without_version() {
    let rt = Runtime::parse("lab").unwrap();
    assert_eq!(rt.kind(), RuntimeKind::Lab);
    assert_eq!(rt.version(), None);
    assert_eq!(rt.as_dependency_specifier(), "jupyterlab");
}

#[test]
fn parses_notebook_six_with_setuptools() {
    let rt = Runtime::parse("notebook==6").unwrap();
    assert_eq!(rt.kind(), RuntimeKind::Notebook);
    assert_eq!(rt.version(), Some("6"));
    assert_eq!(rt.as_dependency_specifier(), "notebook==6,setuptools");
    assert_eq!(rt.with_args(), "notebook==6,setuptools");
}

#[test]
fn parses_nbclassic_at_version() {
    let rt = Runtime::parse("nbclassic@1.0").unwrap();
    assert_eq!(rt.kind(), RuntimeKind::Nbclassic);
    assert_eq!(rt.version(), Some("1.0"));
    assert_eq!(rt.as_dependency_specifier(), "nbclassic==1.0");
}

#[test]
fn rejects_unknown_name() {
    let err = Runtime::parse("foo").unwrap_err();
    assert_eq!(err.input, "foo");
}

#[test]
fn name_match_is_case_sensitive() {
    assert_eq!(Runtime::parse("Lab").unwrap_err().input, "Lab");
}

#[test]
fn at_sign_is_split_before_double_equals() {
    let rt = Runtime::parse("notebook@7==1").unwrap();
    assert_eq!(rt.version(), Some("7==1"));
    assert_eq!(Runtime::parse("notebook==6@7").unwrap_err().input, "notebook==6@7");
}

#[test]
fn empty_version_is_kept() {
    let rt = Runtime::parse("lab@").unwrap();
    assert_eq!(rt.version(), Some(""));
    assert_eq!(rt.as_dependency_specifier(), "jupyterlab==");
}

#[test]
fn from_str_agrees_with_parse() {
    let rt: Runtime = "notebook@7.1".parse().unwrap();
    assert_eq!(rt.kind(), RuntimeKind::Notebook);
    assert_eq!(rt.version(), Some("7.1"));
    assert!("jupyter".parse::<Runtime>().is_err());
}

#[test]
fn notebook_seven_needs_no_setuptools() {
    let rt = Runtime::parse("notebook==7").unwrap();
    assert_eq!(rt.as_dependency_specifier(), "notebook==7");
    assert_eq!(rt.main_import(), "notebook.app");
}

#[test]
fn executables_and_imports() {
    let nb = Runtime::parse("notebook").unwrap();
    let lab = Runtime::parse("lab").unwrap();
    let classic = Runtime::parse("nbclassic").unwrap();
    let six = Runtime::parse("notebook@6").unwrap();
    assert_eq!(nb.exacutable(), "jupyter-notebook");
    assert_eq!(lab.exacutable(), "jupyter-lab");
    assert_eq!(classic.exacutable(), "jupyter-nbclassic");
    assert_eq!(nb.main_import(), "notebook.app");
    assert_eq!(six.main_import(), "notebook.notebookapp");
    assert_eq!(lab.main_import(), "jupyterlab.labapp");
    assert_eq!(classic.main_import(), "nbclassic.notebookapp");
    assert_eq!(nb.package_name(), "notebook");
    assert_eq!(lab.package_name(), "jupyterlab");
    assert_eq!(classic.package_name(), "nbclassic");
    assert_eq!(nb.as_dependency_specifier(), "notebook");
}

#[test]
fn argv_lists_command_path_and_extras() {
    let lab = Runtime::parse("lab").unwrap();
    let extra = vec!["--port=8888".to_string()];
    assert_eq!(
        lab.argv("a.ipynb", &extra),
        vec!["jupyter-lab".to_string(), "a.ipynb".to_string(), "--port=8888".to_string()]
    );
}

#[test]
fn prepared_script_layout() {
    let lab = Runtime::parse("lab").unwrap();
    let meta = "# /// script\n# dependencies = []\n# ///";
    let script = lab.prepare_run_script("nb.ipynb", Some(meta), false, &["--no-browser".to_string()]);
    assert!(script.starts_with("# /// script\n# dependencies = []\n# ///\n\nimport os\n"));
    assert!(script.contains("\ndef setup():\n"));
    assert!(script.contains("os.environ[\"JUPYTER_DATA_DIR\"] = str(merged_dir)"));
    assert!(script.ends_with(
        "\n\ndef run():\n    import sys\n    from jupyterlab.labapp import main\n\n    setup()\n    \n    sys.argv = [\"jupyter-lab\", \"nb.ipynb\", \"--no-browser\"]\n    main()\n\nif __name__ == \"__main__\":\n    run()"
    ));
    assert!(!script.contains("JUV_MANGED"));
}

#[test]
fn prepared_script_reports_version_when_managed() {
    let six = Runtime::parse("notebook==6").unwrap();
    let script = six.prepare_run_script_for_argv(None, true, "[]");
    assert!(script.starts_with("\n\nimport os\n"));
    assert!(script.ends_with(
        "    from notebook.notebookapp import main\n\n    setup()\n    import importlib.metadata;print(\"JUV_MANGED=\" + \"notebook\" + \",\" + importlib.metadata.version(\"notebook\"), file=sys.stderr)\n    sys.argv = []\n    main()\n\nif __name__ == \"__main__\":\n    run()"
    ));
}

#[test]
fn prepared_script_escapes_arguments() {
    let lab = Runtime::parse("lab").unwrap();
    let script = lab.prepare_run_script("my \"nb\".ipynb", None, false, &[]);
    assert!(script.contains("    sys.argv = [\"jupyter-lab\", \"my \\\"nb\\\".ipynb\"]\n"));
}

#[test]
fn flat_run_script_layout() {
    let classic = Runtime::parse("nbclassic").unwrap();
    let script = classic.run_script("x.ipynb", None, false, &[]);
    assert!(script.starts_with("\nimport os\nimport sys\n\nfrom nbclassic.notebookapp import main\n\n\nimport tempfile\n"));
    assert!(script.ends_with(
        "os.pathsep.join(map(str, config_paths))\n\nsys.argv = [\"jupyter-nbclassic\", \"x.ipynb\"]\nmain()\n"
    ));
    assert!(!script.contains("JUV_MANGED"));
}

#[test]
fn flat_run_script_managed_and_meta() {
    let lab = Runtime::parse("lab@4").unwrap();
    let script = lab.run_script_for_argv(Some("# /// script\n# ///"), true, "[\"a\"]");
    assert!(script.starts_with("# /// script\n# ///\nimport os\n"));
    assert!(script.ends_with(
        "os.pathsep.join(map(str, config_paths))\n\nimport importlib.metadata\n\nversion = importlib.metadata.version(\"jupyterlab\")\nprint(\"JUV_MANGED=\" + \"jupyterlab\" + \",\" + version, file=sys.stderr)\n\nsys.argv = [\"a\"]\nmain()\n"
    ));
}

#[test]
fn from_str_scenarios() {
    let lab: Runtime = "lab".parse().unwrap();
    assert_eq!((lab.kind(), lab.version()), (RuntimeKind::Lab, None));
    let six: Runtime = "notebook==6".parse().unwrap();
    assert_eq!((six.kind(), six.version()), (RuntimeKind::Notebook, Some("6")));
    let classic: Runtime = "nbclassic@1.0".parse().unwrap();
    assert_eq!((classic.kind(), classic.version()), (RuntimeKind::Nbclassic, Some("1.0")));
    let both: Runtime = "lab@4.0==1".parse().unwrap();
    assert_eq!((both.kind(), both.version()), (RuntimeKind::Lab, Some("4.0==1")));
    assert_eq!("foo".parse::<Runtime>().unwrap_err().input, "foo");
    assert_eq!("Lab".parse::<Runtime>().unwrap_err().input, "Lab");
}
