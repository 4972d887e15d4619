use kronkeeper::sandbox::{components, join_path, starts_with, validate_script_path};

#[test]
fn join_replaces_with_absolute_paths() {
    assert_eq!(join_path(b"/opt/daemon/scripts", b"hello.sh"), b"/opt/daemon/scripts/hello.sh".to_vec());
    assert_eq!(join_path(b"/opt/scripts/", b"hello.sh"), b"/opt/scripts/hello.sh".to_vec());
    assert_eq!(join_path(b"/opt/scripts", b"/etc/passwd"), b"/etc/passwd".to_vec());
    assert_eq!(join_path(b"", b"x"), b"x".to_vec());
    assert_eq!(join_path(b"/a", b""), b"/a/".to_vec());
}

#[test]
fn components_follow_unix_rules() {
    let v = |p: &[u8]| components(p);
    assert_eq!(v(b"/a//b/./c/"), vec![b"/".to_vec(), b"a".to_vec(), b"b".to_vec(), b"c".to_vec()]);
    assert_eq!(v(b"./a/../b"), vec![b".".to_vec(), b"a".to_vec(), b"..".to_vec(), b"b".to_vec()]);
    assert_eq!(v(b".a"), vec![b".a".to_vec()]);
    assert_eq!(v(b""), Vec::<Vec<u8>>::new());
}

#[test]
fn starts_with_compares_whole_components() {
    assert!(starts_with(b"/opt/safe/run.sh", b"/opt/safe"));
    assert!(starts_with(b"/opt/safe", b"/opt/safe/"));
    assert!(!starts_with(b"/opt/safer/run.sh", b"/opt/safe"));
    assert!(!starts_with(b"/opt/outside.sh", b"/opt/safe"));
    assert!(starts_with(b"/anything", b"/"));
}

#[test]
fn script_paths_must_stay_inside_the_safe_directory() {
    assert_eq!(
        validate_script_path(Ok(b"/tmp/x/safe".to_vec()), Ok(b"/tmp/x/safe/run.sh".to_vec())),
        Ok(b"/tmp/x/safe/run.sh".to_vec())
    );
    assert_eq!(
        validate_script_path(Ok(b"/tmp/x/safe".to_vec()), Ok(b"/tmp/x/outside.sh".to_vec())),
        Err("script path escapes safe directory".to_string())
    );
    assert_eq!(
        validate_script_path(Err("No such file or directory (os error 2)".to_string()), Ok(b"/x".to_vec())),
        Err("script safe dir unavailable: No such file or directory (os error 2)".to_string())
    );
    assert_eq!(
        validate_script_path(Ok(b"/tmp".to_vec()), Err("No such file or directory (os error 2)".to_string())),
        Err("script path invalid: No such file or directory (os error 2)".to_string())
    );
}
