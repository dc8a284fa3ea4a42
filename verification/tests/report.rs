use sourcegen::report::Report;

fn text(s: &str) -> String {
    s.to_string()
}

#[test]
fn add_lines() {
    assert_eq!(
        Report::AddMalformed { source: text("x") }.line(),
        "Failed to add new source: \"x\" (URL malformed or invalid)"
    );
    assert_eq!(
        Report::AddDuplicate { source: text("github") }.line(),
        "Failed to add new source: \"github\" (Already exists)"
    );
    assert_eq!(
        Report::AddFailed { error: text("Permission denied (os error 13)") }.line(),
        "An error occurred while trying to add a source (Permission denied (os error 13))"
    );
    assert_eq!(
        Report::Added { source: text("github"), url: text("https://github.com") }.line(),
        "Added new source: \"github\" = \"https://github.com\""
    );
}

#[test]
fn edit_lines() {
    assert_eq!(
        Report::EditMalformed { source: text("x") }.line(),
        "Failed to edit existing source: \"x\" (New URL malformed or invalid)"
    );
    assert_eq!(
        Report::EditMissing { source: text("github") }.line(),
        "Failed to edit existing source: \"github\" (Does not exist)"
    );
    assert_eq!(
        Report::EditFailed { error: text("No space left on device (os error 28)") }.line(),
        "An error occurred while trying to edit a source (No space left on device (os error 28))"
    );
    assert_eq!(
        Report::Edited { source: text("github"), url: text("https://new.com") }.line(),
        "Changed existing source: \"github\" = \"https://new.com\""
    );
}

#[test]
fn reset_lines() {
    assert_eq!(
        Report::Skipped { directory: text("/home/alice/.config/sourcegen") }.line(),
        "Skipped: \"/home/alice/.config/sourcegen\" (already wiped)"
    );
    assert_eq!(
        Report::WipeFailed { directory: text("/d"), error: text("Permission denied (os error 13)") }
            .line(),
        "Wipe failed: \"/d\" (Permission denied (os error 13))"
    );
    assert_eq!(Report::Wiped { directory: text("/d") }.line(), "Wiped: \"/d\"");
}

#[test]
fn lines_with_empty_names() {
    assert_eq!(
        Report::Added { source: text(""), url: text("") }.line(),
        "Added new source: \"\" = \"\""
    );
    assert_eq!(Report::Wiped { directory: text("") }.line(), "Wiped: \"\"");
}

#[test]
fn failures_go_to_standard_error() {
    assert!(Report::AddMalformed { source: text("x") }.is_error());
    assert!(Report::AddDuplicate { source: text("x") }.is_error());
    assert!(Report::AddFailed { error: text("e") }.is_error());
    assert!(Report::EditMalformed { source: text("x") }.is_error());
    assert!(Report::EditMissing { source: text("x") }.is_error());
    assert!(Report::EditFailed { error: text("e") }.is_error());
    assert!(Report::WipeFailed { directory: text("/d"), error: text("e") }.is_error());
}

#[test]
fn successes_go_to_standard_output() {
    assert!(!Report::Added { source: text("x"), url: text("u") }.is_error());
    assert!(!Report::Edited { source: text("x"), url: text("u") }.is_error());
    assert!(!Report::Skipped { directory: text("/d") }.is_error());
    assert!(!Report::Wiped { directory: text("/d") }.is_error());
}
