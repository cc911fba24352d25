use std::io::Write;

use tempfile::{Builder, TempDir};

use todoco::scan::discover;

#[test]
fn discover_finds_real_files_on_disk() {
    let dir = TempDir::new().unwrap();
    let mut file = Builder::new().suffix(".txt").tempfile_in(dir.path()).unwrap();
    file.write_all(b"TODO: Test\n").unwrap();

    let pattern = format!("{}/*.txt", dir.path().to_str().unwrap());
    let files = discover(&pattern).unwrap();

    assert_eq!(files.len(), 1);
    assert_eq!(files[0].path, file.path().to_str().unwrap());
    assert_eq!(files[0].name, file.path().file_name().unwrap().to_str().unwrap());
}

#[test]
fn discover_ignores_files_outside_the_pattern() {
    let dir = TempDir::new().unwrap();
    let mut file = Builder::new().suffix(".rs").tempfile_in(dir.path()).unwrap();
    file.write_all(b"TODO: hidden\n").unwrap();

    let pattern = format!("{}/*.txt", dir.path().to_str().unwrap());
    let files = discover(&pattern).unwrap();

    assert_eq!(files.len(), 0);
}
