use portaqemu::vars::{resolve_vars, VarError};

#[test]
fn test_resolve_root() {
    let root = "/test/root";
    assert_eq!(
        resolve_vars("%ROOT%/vm/disk.qcow2", root).unwrap(),
        "/test/root/vm/disk.qcow2"
    );
}

#[test]
fn test_resolve_unresolved() {
    let root = "/test/root";
    assert!(resolve_vars("%UNKNOWN%/file", root).is_err());
}

#[test]
fn resolve_reports_unknown_name() {
    assert_eq!(
        resolve_vars("%UNKNOWN%/file", "/r"),
        Err(VarError::Unresolved("UNKNOWN".to_string()))
    );
}

#[test]
fn resolve_reports_lone_percent() {
    assert_eq!(
        resolve_vars("%ROOT%/50%", "/r"),
        Err(VarError::InvalidSyntax("/r/50%".to_string()))
    );
}

#[test]
fn resolve_converts_backslashes_in_root() {
    assert_eq!(
        resolve_vars("%ROOT%\\vm\\disk.img", "C:\\Users\\me").unwrap(),
        "C:/Users/me\\vm\\disk.img"
    );
}

#[test]
fn resolve_without_variables_is_identity() {
    assert_eq!(resolve_vars("plain/path", "/r").unwrap(), "plain/path");
    assert_eq!(resolve_vars("%ROOT%%ROOT%", "/a").unwrap(), "/a/a");
}
