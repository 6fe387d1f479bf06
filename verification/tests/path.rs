use fshare::path::{base_name, destination, join, DOT, SEPARATOR};
use std::path::{Path, PathBuf};

fn name_of(path: &str) -> Option<String> {
    base_name(path.as_bytes()).map(|bytes| String::from_utf8(bytes).unwrap())
}

fn std_name_of(path: &str) -> Option<String> {
    Path::new(path)
        .file_name()
        .map(|name| name.to_string_lossy().to_string())
}

#[test]
fn separator_and_dot_are_the_ascii_bytes() {
    assert_eq!(SEPARATOR, b'/');
    assert_eq!(DOT, b'.');
}

#[test]
fn base_name_of_a_bare_name_is_the_name() {
    assert_eq!(name_of("note.txt"), Some("note.txt".to_string()));
    assert_eq!(name_of("a"), Some("a".to_string()));
    assert_eq!(name_of(".hidden"), Some(".hidden".to_string()));
    assert_eq!(name_of("..."), Some("...".to_string()));
    assert_eq!(name_of("a.."), Some("a..".to_string()));
}

#[test]
fn base_name_strips_directory_components() {
    assert_eq!(name_of("/tmp/dir/note.txt"), Some("note.txt".to_string()));
    assert_eq!(name_of("dir/note.txt"), Some("note.txt".to_string()));
    assert_eq!(name_of("./note.txt"), Some("note.txt".to_string()));
    assert_eq!(name_of("/note.txt"), Some("note.txt".to_string()));
}

#[test]
fn base_name_of_a_traversal_is_its_last_component() {
    assert_eq!(name_of("../../etc/passwd"), Some("passwd".to_string()));
    assert_eq!(name_of("../secret"), Some("secret".to_string()));
    assert_eq!(name_of("/../../x"), Some("x".to_string()));
}

#[test]
fn base_name_passes_over_trailing_separators_and_dots() {
    assert_eq!(name_of("dir/"), Some("dir".to_string()));
    assert_eq!(name_of("dir//"), Some("dir".to_string()));
    assert_eq!(name_of("dir/."), Some("dir".to_string()));
    assert_eq!(name_of("dir/./"), Some("dir".to_string()));
    assert_eq!(name_of("a/b/././/"), Some("b".to_string()));
}

#[test]
fn base_name_is_none_without_a_final_component() {
    assert_eq!(name_of(""), None);
    assert_eq!(name_of("/"), None);
    assert_eq!(name_of("//"), None);
    assert_eq!(name_of("."), None);
    assert_eq!(name_of("./"), None);
    assert_eq!(name_of("./."), None);
}

#[test]
fn base_name_is_none_for_a_path_that_ends_in_the_parent() {
    assert_eq!(name_of(".."), None);
    assert_eq!(name_of("../"), None);
    assert_eq!(name_of("dir/.."), None);
    assert_eq!(name_of("dir/../"), None);
    assert_eq!(name_of("dir/../."), None);
    assert_eq!(name_of("../.."), None);
}

#[test]
fn base_name_agrees_with_the_standard_library() {
    let paths = [
        "",
        "/",
        ".",
        "..",
        "a",
        "a/",
        "a/b",
        "a//b",
        "/a/b/",
        "a/.",
        "a/..",
        "a/./b/..",
        "./a",
        "../a",
        "../../etc/passwd",
        "note.txt",
        "/tmp/dir/note.txt",
        "...",
        ".a",
        "a.",
        "a/.b",
        "a/b./",
        "a/../b",
        "//a",
        "a/././.",
        "./..",
        "../.",
        "x/y/z.tar.gz",
    ];
    for path in paths {
        assert_eq!(name_of(path), std_name_of(path), "path {:?}", path);
    }
}

#[test]
fn base_name_never_holds_a_separator() {
    let paths = ["a/b/c", "/x/", "../../etc/passwd", "////q////", "r/s/./t/."];
    for path in paths {
        let name = base_name(path.as_bytes()).unwrap();
        assert!(!name.is_empty());
        assert!(!name.contains(&SEPARATOR));
        assert_ne!(name, b".".to_vec());
        assert_ne!(name, b"..".to_vec());
    }
}

#[test]
fn base_name_takes_bytes_that_are_not_utf8() {
    assert_eq!(base_name(&[0xff, b'/', 0xfe, 0x80]), Some(vec![0xfe, 0x80]));
}

#[test]
fn join_puts_one_separator_between() {
    assert_eq!(join(b"dir", b"note.txt"), b"dir/note.txt".to_vec());
    assert_eq!(join(b"/srv/in", b"a"), b"/srv/in/a".to_vec());
    assert_eq!(join(b".", b"a"), b"./a".to_vec());
}

#[test]
fn join_adds_no_separator_behind_one() {
    assert_eq!(join(b"dir/", b"note.txt"), b"dir/note.txt".to_vec());
    assert_eq!(join(b"/", b"a"), b"/a".to_vec());
    assert_eq!(join(b"./", b"a"), b"./a".to_vec());
}

#[test]
fn join_of_an_empty_root_is_the_name() {
    assert_eq!(join(b"", b"note.txt"), b"note.txt".to_vec());
}

#[test]
fn join_agrees_with_the_standard_library() {
    for root in ["", ".", "./", "dir", "dir/", "/", "/srv/in", "a/b/"] {
        for name in ["note.txt", "a", ".hidden"] {
            let mut expected = PathBuf::from(root);
            expected.push(name);
            let joined = String::from_utf8(join(root.as_bytes(), name.as_bytes())).unwrap();
            assert_eq!(PathBuf::from(joined), expected, "{:?} {:?}", root, name);
        }
    }
}

#[test]
fn destination_of_a_traversal_stays_in_the_directory() {
    assert_eq!(
        destination(b"/srv/in", b"../../etc/passwd"),
        Some(b"/srv/in/passwd".to_vec())
    );
    assert_eq!(
        destination(b"./", b"/etc/shadow"),
        Some(b"./shadow".to_vec())
    );
    assert_eq!(
        destination(b"inbox", b"a/../../b"),
        Some(b"inbox/b".to_vec())
    );
}

#[test]
fn destination_of_a_plain_name_is_the_name_in_the_directory() {
    assert_eq!(
        destination(b"inbox", b"note.txt"),
        Some(b"inbox/note.txt".to_vec())
    );
}

#[test]
fn destination_is_none_without_a_base_name() {
    assert_eq!(destination(b"inbox", b""), None);
    assert_eq!(destination(b"inbox", b".."), None);
    assert_eq!(destination(b"inbox", b"../.."), None);
    assert_eq!(destination(b"inbox", b"/"), None);
    assert_eq!(destination(b"inbox", b"."), None);
}

fn paths_over(alphabet: &[u8], length: usize) -> Vec<String> {
    let mut paths = vec![String::new()];
    for _ in 0..length {
        let mut longer = Vec::new();
        for path in &paths {
            for &byte in alphabet {
                let mut next = path.clone();
                next.push(byte as char);
                longer.push(next);
            }
        }
        paths = longer;
    }
    paths
}

#[test]
fn base_name_agrees_with_the_standard_library_on_every_short_path() {
    let mut checked = 0;
    for length in 0..=7 {
        for path in paths_over(b"/.ab", length) {
            assert_eq!(name_of(&path), std_name_of(&path), "path {:?}", path);
            checked += 1;
        }
    }
    assert_eq!(checked, 21845);
}

#[test]
fn join_agrees_with_the_standard_library_on_every_short_root() {
    for length in 0..=5 {
        for root in paths_over(b"/.a", length) {
            let mut expected = PathBuf::from(&root);
            expected.push("note.txt");
            let joined = String::from_utf8(join(root.as_bytes(), b"note.txt")).unwrap();
            assert_eq!(joined, expected.to_str().unwrap(), "root {:?}", root);
        }
    }
}

#[test]
fn destination_has_the_directory_as_its_parent() {
    for length in 0..=6 {
        for payload in paths_over(b"/.a", length) {
            if let Some(place) = destination(b"/srv/in", payload.as_bytes()) {
                let place = String::from_utf8(place).unwrap();
                let path = Path::new(&place);
                assert_eq!(path.parent(), Some(Path::new("/srv/in")), "{:?}", payload);
                assert_eq!(
                    path.components().count(),
                    Path::new("/srv/in").components().count() + 1
                );
                assert!(path
                    .components()
                    .all(|part| part.as_os_str() != ".." && part.as_os_str() != "."));
            } else {
                assert_eq!(std_name_of(&payload), None);
            }
        }
    }
}
