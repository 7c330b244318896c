use torchlings::discovery::{find_python_files, is_ignored_path, is_python_file};

fn paths(list: &[&[u8]]) -> Vec<Vec<u8>> {
    list.iter().map(|p| p.to_vec()).collect()
}

#[test]
fn discovery_excludes_hidden_and_environment_subtrees() {
    // Of a tree holding a plain exercise, a file under a hidden directory
    // and a file under an environment directory, exactly the plain
    // exercise is discovered.
    let found = find_python_files(paths(&[
        b"exercises/a.py",
        b"exercises/.hidden/b.py",
        b"exercises/venv/c.py",
    ]));
    assert_eq!(found, vec![b"exercises/a.py".to_vec()]);
}

#[test]
fn discovery_keeps_the_given_order() {
    let found = find_python_files(paths(&[
        b"exercises/02_b.py",
        b"exercises/01_a.py",
        b"exercises/readme.md",
        b"exercises/deep/03_c.py",
    ]));
    assert_eq!(
        found,
        paths(&[b"exercises/02_b.py", b"exercises/01_a.py", b"exercises/deep/03_c.py"])
    );
}

#[test]
fn python_files_are_recognised_by_extension() {
    assert!(is_python_file(&b"exercises/a.py".to_vec()));
    assert!(is_python_file(&b"a.py".to_vec()));
    assert!(is_python_file(&b"exercises/a.b.py".to_vec()));
    assert!(!is_python_file(&b"exercises/a.pyc".to_vec()));
    assert!(!is_python_file(&b"exercises/apy".to_vec()));
    assert!(!is_python_file(&b"exercises/readme.md".to_vec()));
}

#[test]
fn a_bare_extension_has_no_stem() {
    // ".py" alone names a hidden entry, not a Python source file.
    assert!(!is_python_file(&b".py".to_vec()));
    assert!(!is_python_file(&b"exercises/.py".to_vec()));
    assert!(is_python_file(&b"exercises/.a.py".to_vec()));
}

#[test]
fn ignored_components_cover_all_conventions() {
    assert!(is_ignored_path(&b"exercises/.hidden/b.py".to_vec()));
    assert!(is_ignored_path(&b"exercises/venv/c.py".to_vec()));
    assert!(is_ignored_path(&b"exercises/__pycache__/d.py".to_vec()));
    assert!(is_ignored_path(&b"exercises/my-venv/e.py".to_vec()));
    assert!(is_ignored_path(&b".torchlings/lib/f.py".to_vec()));
    assert!(!is_ignored_path(&b"exercises/plain/g.py".to_vec()));
}

#[test]
fn a_hidden_file_itself_is_ignored() {
    // The exclusion looks at every component, the file name included.
    assert!(is_ignored_path(&b"exercises/.secret.py".to_vec()));
    assert_eq!(find_python_files(paths(&[b"exercises/.secret.py"])), Vec::<Vec<u8>>::new());
}

#[test]
fn names_merely_containing_conventions_are_kept() {
    assert!(!is_ignored_path(&b"exercises/venvs/a.py".to_vec()));
    assert!(!is_ignored_path(&b"exercises/avenv/a.py".to_vec()));
    assert!(!is_ignored_path(&b"exercises/pycache/a.py".to_vec()));
}

#[test]
fn empty_input_discovers_nothing() {
    assert_eq!(find_python_files(Vec::new()), Vec::<Vec<u8>>::new());
}
