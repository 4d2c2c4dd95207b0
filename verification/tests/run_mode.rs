use pyembed::PathEncodingError;
use pyembed::PythonRunMode;
use pyembed::TerminfoResolution;

#[test]
fn file_with_embedded_nul_is_rejected() {
    let made = PythonRunMode::file("/tmp/run\0.py");
    assert_eq!(made.unwrap_err(), PathEncodingError { nul_position: 8 });
}

#[test]
fn file_with_leading_or_trailing_nul_is_rejected() {
    assert_eq!(PythonRunMode::file("\0").unwrap_err(), PathEncodingError { nul_position: 0 });
    assert_eq!(PythonRunMode::file("run.py\0").unwrap_err(), PathEncodingError { nul_position: 6 });
}

#[test]
fn file_keeps_the_path_nul_terminated() {
    match PythonRunMode::file("/tmp/run.py").unwrap() {
        PythonRunMode::File { path } => {
            assert_eq!(path.as_bytes(), b"/tmp/run.py");
            assert_eq!(path.as_bytes_with_nul(), b"/tmp/run.py\0");
        }
        other => panic!("not a file mode: {:?}", other),
    }
}

#[test]
fn file_path_reads_back_as_given() {
    let paths =
        ["/tmp/run.py", "", "relative/dir/main.py", "/home/üser/скрипт.py", "C:\\py\\run.py"];
    for path in paths {
        let mode = PythonRunMode::file(path).unwrap();
        assert!(matches!(mode, PythonRunMode::File { .. }));
        assert_eq!(mode.path_text(), Some(path));
    }
}

#[test]
fn file_from_bytes_takes_paths_that_are_not_utf8() {
    let raw = [b'/', b't', 0xFF, 0xFE, b'.', b'p', b'y'];
    let mode = PythonRunMode::file_from_bytes(&raw).unwrap();
    match &mode {
        PythonRunMode::File { path } => assert_eq!(path.as_bytes(), &raw),
        other => panic!("not a file mode: {:?}", other),
    }
    assert_eq!(mode.path_text(), None);
}

#[test]
fn file_from_bytes_rejects_nul() {
    let made = PythonRunMode::file_from_bytes(b"/tmp/\0run\0");
    assert_eq!(made.unwrap_err(), PathEncodingError { nul_position: 5 });
}

#[test]
fn path_text_is_none_for_modes_without_a_path() {
    assert_eq!(PythonRunMode::Noop.path_text(), None);
    assert_eq!(PythonRunMode::Repl.path_text(), None);
    assert_eq!(PythonRunMode::Module { module: "myapp".to_string() }.path_text(), None);
    assert_eq!(PythonRunMode::Eval { code: "print(1)".to_string() }.path_text(), None);
}

#[test]
fn text_variants_take_any_string() {
    let module = PythonRunMode::Module { module: "not a module\0name".to_string() };
    assert!(matches!(module, PythonRunMode::Module { module } if module == "not a module\0name"));
    let eval = PythonRunMode::Eval { code: String::new() };
    assert!(matches!(eval, PythonRunMode::Eval { code } if code.is_empty()));
}

#[test]
fn terminfo_static_takes_any_string() {
    let policy = TerminfoResolution::Static("/no/such/dir:\0:".to_string());
    assert!(matches!(policy, TerminfoResolution::Static(dirs) if dirs == "/no/such/dir:\0:"));
    assert!(matches!(TerminfoResolution::Dynamic, TerminfoResolution::Dynamic));
    assert!(matches!(TerminfoResolution::Disabled, TerminfoResolution::Disabled));
}
