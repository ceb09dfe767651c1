use code_lines::error::{ErrorKind, LinesError};
use code_lines::folder::Environment;
use code_lines::language::Language;
use code_lines::sampler::{
    get_random_file_path, get_random_line_of, keep_readable, next_action, Action, Event, LineConfig,
};

fn strings(lines: &[&str]) -> Vec<String> {
    lines.iter().map(|line| line.to_string()).collect()
}

fn entries(lines: &[Option<&str>]) -> Vec<Option<String>> {
    lines.iter().map(|line| line.map(String::from)).collect()
}

fn finished(action: Action) -> Result<String, LinesError> {
    match action {
        Action::Finish(result) => result,
        Action::ListFiles(_) => panic!("asked to list files"),
        Action::ReadFile(path) => panic!("asked to read {}", path),
    }
}

#[test]
fn unreadable_entries_are_skipped() {
    assert_eq!(
        keep_readable(entries(&[None, Some("a"), None, None, Some("b"), Some("a"), None])),
        strings(&["a", "b", "a"])
    );
    assert_eq!(keep_readable(entries(&[None, None])), Vec::<String>::new());
    assert_eq!(keep_readable(Vec::new()), Vec::<String>::new());
    assert_eq!(keep_readable(entries(&[Some("only")])), strings(&["only"]));
}

#[test]
fn no_file_is_an_error_of_the_language() {
    for language in [Language::Rust, Language::Java] {
        let config = LineConfig { language };
        let error = get_random_file_path(&config, &Vec::new()).unwrap_err();
        assert_eq!(error.kind, ErrorKind::NoFilesFound(language));
        assert_eq!(error.message, "Error getting random string.");
    }
}

#[test]
fn the_only_file_is_chosen() {
    let config = LineConfig { language: Language::Rust };
    let files = strings(&["src/main.rs"]);
    assert_eq!(get_random_file_path(&config, &files).unwrap(), "src/main.rs");
}

#[test]
fn the_chosen_file_is_one_of_the_files() {
    let config = LineConfig { language: Language::Java };
    let files = strings(&["A.java", "b/B.java", "b/c/C.java"]);
    for _ in 0..200 {
        assert!(files.contains(&get_random_file_path(&config, &files).unwrap()));
    }
}

#[test]
fn no_line_left_is_an_error() {
    let config = LineConfig { language: Language::Java };
    let error = get_random_line_of(&config, strings(&["import a.b.c.d.e.f;", "}", "// nothing"]))
        .unwrap_err();
    assert_eq!(error.kind, ErrorKind::NoMatchingLines);
    assert_eq!(error.message, "Error getting random string.");
    let error = get_random_line_of(&config, Vec::new()).unwrap_err();
    assert_eq!(error.kind, ErrorKind::NoMatchingLines);
}

#[test]
fn the_only_line_left_is_chosen() {
    let lines = strings(&["import thing thing thing", "///", "   let thing = other_thing;   "]);
    let config = LineConfig { language: Language::Java };
    assert_eq!(get_random_line_of(&config, lines).unwrap(), "let thing = other_thing;");
}

#[test]
fn the_chosen_line_is_one_that_was_kept() {
    let lines = strings(&["import thing thing thing", "///", "   let thing = other_thing;   "]);
    let config = LineConfig { language: Language::Rust };
    let kept = strings(&["import thing thing thing", "let thing = other_thing;"]);
    for _ in 0..200 {
        assert!(kept.contains(&get_random_line_of(&config, lines.clone()).unwrap()));
    }
}

#[test]
fn a_start_without_a_folder_ends_at_once() {
    let config = LineConfig { language: Language::Java };
    let env = Environment { rust_lines: None, java_lines: None, home: Some("/home/duke".to_string()) };
    let error = finished(next_action(&config, Event::Started(env))).unwrap_err();
    assert_eq!(error.kind, ErrorKind::NoFolderConfigured(Language::Java));
    assert_eq!(error.message, "Error getting file paths for Java.");
}

#[test]
fn a_start_with_a_malformed_pattern_ends_at_once() {
    let config = LineConfig { language: Language::Rust };
    let env = Environment { rust_lines: Some("***".to_string()), java_lines: None, home: None };
    let error = finished(next_action(&config, Event::Started(env))).unwrap_err();
    assert_eq!(error.kind, ErrorKind::GlobError);
    assert_eq!(error.message, "Error getting file paths for Rust.");
}

#[test]
fn a_start_with_a_folder_asks_for_the_files() {
    let config = LineConfig { language: Language::Rust };
    let env = Environment {
        rust_lines: Some("/no/such/directory/anywhere".to_string()),
        java_lines: None,
        home: None,
    };
    match next_action(&config, Event::Started(env)) {
        Action::ListFiles(paths) => assert_eq!(paths.count(), 0),
        _ => panic!("the files were not asked for"),
    }
}

#[test]
fn a_walk_without_files_ends_with_an_error() {
    let config = LineConfig { language: Language::Rust };
    let error = finished(next_action(&config, Event::Listed(Vec::new()))).unwrap_err();
    assert_eq!(error.kind, ErrorKind::NoFilesFound(Language::Rust));
    let error = finished(next_action(&config, Event::Listed(entries(&[None, None])))).unwrap_err();
    assert_eq!(error.kind, ErrorKind::NoFilesFound(Language::Rust));
    assert_eq!(error.message, "Error getting random string.");
}

#[test]
fn a_walk_with_files_asks_to_read_one_of_them() {
    let config = LineConfig { language: Language::Rust };
    for _ in 0..100 {
        let listed = entries(&[Some("a.rs"), None, Some("b.rs")]);
        match next_action(&config, Event::Listed(listed)) {
            Action::ReadFile(path) => assert!(path == "a.rs" || path == "b.rs"),
            _ => panic!("no file was asked for"),
        }
    }
    match next_action(&config, Event::Listed(entries(&[None, Some("only.rs")]))) {
        Action::ReadFile(path) => assert_eq!(path, "only.rs"),
        _ => panic!("no file was asked for"),
    }
}

#[test]
fn a_file_that_cannot_be_opened_ends_with_its_reason() {
    let config = LineConfig { language: Language::Rust };
    let reason = "No such file or directory (os error 2)".to_string();
    let error = finished(next_action(&config, Event::Unreadable(reason))).unwrap_err();
    assert_eq!(error.kind, ErrorKind::FileAccess);
    assert_eq!(error.message, "No such file or directory (os error 2)");
    assert_eq!(
        error.describe(),
        "There is an error: No such file or directory (os error 2)"
    );
}

#[test]
fn a_file_without_code_ends_with_an_error() {
    let config = LineConfig { language: Language::Rust };
    let read = entries(&[Some("// a comment"), None, Some("}"), Some("")]);
    let error = finished(next_action(&config, Event::Read(read))).unwrap_err();
    assert_eq!(error.kind, ErrorKind::NoMatchingLines);
    assert_eq!(error.message, "Error getting random string.");
}

#[test]
fn a_file_with_code_ends_with_a_line_of_it() {
    let config = LineConfig { language: Language::Java };
    for _ in 0..100 {
        let read = entries(&[
            Some("import java.util.List;"),
            None,
            Some("    public static void main(String[] args) {"),
            Some("        // nothing to see"),
            Some("        System.out.println(args);"),
            Some("    }"),
        ]);
        let line = finished(next_action(&config, Event::Read(read))).unwrap();
        assert!(
            line == "public static void main(String[] args) {"
                || line == "System.out.println(args);"
        );
    }
}

#[test]
fn the_steps_lead_from_the_files_to_a_line() {
    let config = LineConfig { language: Language::Rust };
    let path = match next_action(&config, Event::Listed(entries(&[Some("src/lib.rs")]))) {
        Action::ReadFile(path) => path,
        _ => panic!("no file was asked for"),
    };
    assert_eq!(path, "src/lib.rs");
    let read = entries(&[Some("  pub mod language;  "), Some("")]);
    assert_eq!(finished(next_action(&config, Event::Read(read))).unwrap(), "pub mod language;");
}
