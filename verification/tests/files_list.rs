use std::collections::HashSet;

use pytest_typechecker::files::{get_files_list, FileEntry};

fn file(path: &str) -> FileEntry {
    FileEntry::File {
        path: path.to_string(),
    }
}

fn dir(path: &str, entries: Vec<FileEntry>) -> FileEntry {
    FileEntry::Dir {
        path: path.to_string(),
        entries,
    }
}

#[test]
fn assert_files_list() {
    let base_dir = dir(
        "./python-examples",
        vec![
            file("./python-examples/test_sample.py"),
            dir(
                "./python-examples/folder",
                vec![file("./python-examples/folder/test_empty.py")],
            ),
            file("./python-examples/test_sample_complex.py"),
        ],
    );
    let output = get_files_list(&vec![base_dir], true);
    let filenames: HashSet<&str> = output.iter().map(|p| p.as_str()).collect();

    assert_eq!(
        filenames,
        HashSet::from([
            "./python-examples/test_sample.py",
            "./python-examples/folder/test_empty.py",
            "./python-examples/test_sample_complex.py",
        ])
    )
}

#[test]
fn directories_are_skipped_without_recursion() {
    let entries = vec![
        file("./a.py"),
        dir("./folder", vec![file("./folder/b.py")]),
    ];
    let output = get_files_list(&entries, false);
    assert_eq!(output, vec!["./a.py".to_string()]);
}

#[test]
fn files_keep_their_order() {
    let entries = vec![
        file("./b.py"),
        dir("./folder", vec![file("./folder/c.py"), file("./folder/d.py")]),
        file("./a.py"),
    ];
    let output = get_files_list(&entries, true);
    assert_eq!(
        output,
        vec![
            "./b.py".to_string(),
            "./folder/c.py".to_string(),
            "./folder/d.py".to_string(),
            "./a.py".to_string(),
        ]
    );
}
