use std::path::Path;

use sbsh::api::get_file;
use sbsh::api::plugin_warning;
use sbsh::path::file_name;
use sbsh::variables::can_be_value;
use sbsh::variables::can_name_variable;

fn name(value: &str) -> Option<String> {
    Some(value.to_string())
}

#[test]
fn get_file_gives_the_last_piece_of_a_path() {
    assert_eq!(get_file("/home/me/notes.txt"), name("notes.txt"));
    assert_eq!(get_file("notes.txt"), name("notes.txt"));
    assert_eq!(get_file("dir/sub"), name("sub"));
    assert_eq!(get_file("über/grüße.txt"), name("grüße.txt"));
    assert_eq!(get_file(".hidden"), name(".hidden"));
    assert_eq!(get_file("a/..."), name("..."));
}

#[test]
fn get_file_passes_over_slashes_and_dots_at_the_end() {
    assert_eq!(get_file("/usr/bin/"), name("bin"));
    assert_eq!(get_file("/usr/bin///"), name("bin"));
    assert_eq!(get_file("/usr/bin/."), name("bin"));
    assert_eq!(get_file("/usr/bin/./"), name("bin"));
    assert_eq!(get_file("/usr/bin/.//./"), name("bin"));
    assert_eq!(get_file("./bin"), name("bin"));
}

#[test]
fn get_file_finds_no_name_where_none_is_left() {
    for path in ["", "/", "//", ".", "./", "./.", "/.", "/./"] {
        assert_eq!(get_file(path), None, "{path:?}");
    }
}

#[test]
fn get_file_finds_no_name_behind_the_parent_directory() {
    for path in ["..", "../", "a/..", "/a/b/..", "a/../.", "a/..//"] {
        assert_eq!(get_file(path), None, "{path:?}");
    }
    assert_eq!(get_file("../a"), name("a"));
}

#[test]
fn file_name_agrees_with_std_on_paths_of_few_pieces() {
    let pieces = ["", ".", "..", "a", "...", ".b", "c.", "d e", "é"];
    let mut paths: Vec<String> = vec![String::new()];
    for _ in 0..4 {
        let mut longer = Vec::new();
        for path in &paths {
            for piece in pieces {
                longer.push(format!("{path}/{piece}"));
                if path.is_empty() {
                    longer.push(piece.to_string());
                }
            }
        }
        paths.extend(longer);
        paths.sort();
        paths.dedup();
    }
    assert!(paths.len() > 5000);
    for path in &paths {
        let expected = Path::new(path).file_name().map(|name| name.to_string_lossy().to_string());
        assert_eq!(file_name(path), expected, "{path:?}");
    }
}

#[test]
fn a_variable_name_is_not_empty_and_holds_no_equals_sign_or_nul() {
    for good in ["PS1", "HOME", "a", "with space", "ünï", "_", "1"] {
        assert!(can_name_variable(good), "{good:?}");
    }
    for bad in ["", "=", "A=B", "=A", "A=", "\0", "A\0B", "A\0"] {
        assert!(!can_name_variable(bad), "{bad:?}");
    }
}

#[test]
fn a_variable_value_holds_no_nul() {
    for good in ["", "$ ", "a=b", "ünï", "line\nbreak"] {
        assert!(can_be_value(good), "{good:?}");
    }
    for bad in ["\0", "a\0", "\0a", "a\0b"] {
        assert!(!can_be_value(bad), "{bad:?}");
    }
}

#[test]
fn a_plugin_that_fails_is_reported_with_its_path() {
    assert_eq!(
        plugin_warning("/home/me/plugin.rhai", "no such file"),
        "Warning: Failed to load plugin /home/me/plugin.rhai: no such file"
    );
    assert_eq!(plugin_warning("", ""), "Warning: Failed to load plugin : ");
}
