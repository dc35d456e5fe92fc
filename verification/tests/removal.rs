use desktop_commands::{plan_removal, report, Operation, Removal};

#[test]
fn directory_with_contents() {
    assert_eq!(plan_removal(true, true), Removal::Tree);
}

#[test]
fn directory_alone() {
    assert_eq!(plan_removal(true, false), Removal::Directory);
}

#[test]
fn file_ignores_recursive() {
    assert_eq!(plan_removal(false, true), Removal::File);
    assert_eq!(plan_removal(false, false), Removal::File);
}

#[test]
fn removal_of_a_directory_is_reported_as_such() {
    assert_eq!(Removal::Tree.operation(), Operation::RemoveDirectory);
    assert_eq!(Removal::Directory.operation(), Operation::RemoveDirectory);
}

#[test]
fn removal_of_a_file_is_reported_as_such() {
    assert_eq!(Removal::File.operation(), Operation::RemoveFile);
}

#[test]
fn failed_removal_of_a_missing_path() {
    let removal = plan_removal(false, true);
    let outcome: Result<(), String> = Err(String::from("No such file or directory (os error 2)"));
    assert_eq!(
        report(removal.operation(), outcome),
        Err(String::from("Failed to remove file: No such file or directory (os error 2)"))
    );
}

#[test]
fn failed_removal_of_a_full_directory() {
    let removal = plan_removal(true, false);
    let outcome: Result<(), String> = Err(String::from("Directory not empty (os error 39)"));
    assert_eq!(
        report(removal.operation(), outcome),
        Err(String::from("Failed to remove directory: Directory not empty (os error 39)"))
    );
}
