use crumbbox::upload::{UploadAction, UploadError, UploadEvent, UploadOrchestrator};

fn path_field(value: &str) -> UploadEvent {
    UploadEvent::TextField {
        name: "relative_path".to_string(),
        value: Some(value.to_string()),
    }
}

fn file_field(name: &str) -> UploadEvent {
    UploadEvent::FileField {
        file_name: Some(name.to_string()),
    }
}

/// Runs one request to its response: feeds the machine the events in
/// order, performing no real I/O, and returns the write orders it gave
/// together with either the kept paths or the cleanup list and error.
fn drive(
    root: &str,
    events: Vec<UploadEvent>,
) -> (Vec<String>, Result<Vec<String>, (Vec<String>, UploadError)>) {
    let mut machine = UploadOrchestrator::new(root.to_string());
    let mut ordered: Vec<String> = Vec::new();
    let mut pending = events.into_iter();
    loop {
        let event = pending.next().expect("the machine still awaits an event");
        let (next, action) = machine.step(event);
        machine = next;
        match action {
            UploadAction::ReadField => {}
            UploadAction::WriteFile { path } => ordered.push(path),
            UploadAction::Succeed => {
                assert!(machine.is_terminal());
                return (ordered, Ok(machine.written_paths().clone()));
            }
            UploadAction::Fail { cleanup, error } => {
                assert!(machine.is_terminal());
                return (ordered, Err((cleanup, error)));
            }
        }
    }
}

#[test]
fn single_file_upload_succeeds() {
    let (ordered, outcome) = drive(
        "store",
        vec![
            path_field(""),
            file_field("report.txt"),
            UploadEvent::WriteDone,
            UploadEvent::NoMoreFields,
        ],
    );
    assert_eq!(ordered, vec!["store//report.txt".to_string()]);
    assert_eq!(outcome.unwrap(), vec!["store//report.txt".to_string()]);
}

#[test]
fn request_with_no_fields_is_rejected() {
    let (ordered, outcome) = drive("store", vec![UploadEvent::NoMoreFields]);
    assert!(ordered.is_empty());
    let (cleanup, error) = outcome.unwrap_err();
    assert!(cleanup.is_empty());
    assert!(error.is_client_error());
    assert_eq!(error.into_message(), "missing relative_path field");
}

#[test]
fn zero_file_fields_is_a_client_error() {
    let (ordered, outcome) = drive("store", vec![path_field(""), UploadEvent::NoMoreFields]);
    assert!(ordered.is_empty());
    let (cleanup, error) = outcome.unwrap_err();
    assert!(cleanup.is_empty());
    assert!(error.is_client_error());
    assert_eq!(error.into_message(), "No files were in the multipart form");
}

#[test]
fn first_field_must_be_the_path_field() {
    let (ordered, outcome) = drive("store", vec![file_field("report.txt")]);
    assert!(ordered.is_empty());
    let (cleanup, error) = outcome.unwrap_err();
    assert!(cleanup.is_empty());
    assert!(error.is_client_error());
    assert_eq!(error.into_message(), "expected field 'relative_path'");
}

#[test]
fn misnamed_first_field_is_rejected() {
    let (_, outcome) = drive(
        "store",
        vec![UploadEvent::TextField {
            name: "path".to_string(),
            value: Some("".to_string()),
        }],
    );
    let (cleanup, error) = outcome.unwrap_err();
    assert!(cleanup.is_empty());
    assert!(error.is_client_error());
    assert_eq!(error.into_message(), "expected field 'relative_path'");
}

#[test]
fn undecodable_path_field_is_rejected() {
    let (_, outcome) = drive(
        "store",
        vec![UploadEvent::TextField {
            name: "relative_path".to_string(),
            value: None,
        }],
    );
    let (cleanup, error) = outcome.unwrap_err();
    assert!(cleanup.is_empty());
    assert!(error.is_client_error());
    assert_eq!(error.into_message(), "relative_path is not valid UTF-8");
}

#[test]
fn invalid_file_name_is_a_client_error() {
    let (ordered, outcome) = drive(
        "store",
        vec![path_field(""), file_field("a\u{0007}b")],
    );
    assert!(ordered.is_empty());
    let (cleanup, error) = outcome.unwrap_err();
    assert!(cleanup.is_empty());
    assert!(error.is_client_error());
    assert_eq!(error.into_message(), "Invalid file name: a\u{0007}b");
}

#[test]
fn file_name_with_a_slash_is_a_client_error() {
    let (ordered, outcome) = drive("store", vec![path_field(""), file_field("a/b")]);
    assert!(ordered.is_empty());
    let (cleanup, error) = outcome.unwrap_err();
    assert!(cleanup.is_empty());
    assert!(error.is_client_error());
    assert_eq!(error.into_message(), "Invalid file name: a/b");
}

#[test]
fn over_long_file_names_are_rejected() {
    for name in [
        "/".to_string(),
        "a".repeat(256),
        "\u{3042}".repeat(128),
    ] {
        let (ordered, outcome) = drive("store", vec![path_field(""), file_field(&name)]);
        assert!(ordered.is_empty(), "illegal file name: {}", name);
        let (cleanup, error) = outcome.unwrap_err();
        assert!(cleanup.is_empty());
        assert!(error.is_client_error(), "illegal file name: {}", name);
        assert_eq!(error.into_message(), format!("Invalid file name: {}", name));
    }
}

#[test]
fn file_names_with_spaces_are_allowed() {
    let (ordered, outcome) = drive(
        "store",
        vec![
            path_field(""),
            file_field("test with spaces.txt"),
            UploadEvent::WriteDone,
            UploadEvent::NoMoreFields,
        ],
    );
    assert_eq!(ordered, vec!["store//test with spaces.txt".to_string()]);
    assert!(outcome.is_ok());
}

#[test]
fn multiple_files_in_one_request_are_all_written() {
    let (ordered, outcome) = drive(
        "store",
        vec![
            path_field(""),
            file_field("one.txt"),
            UploadEvent::WriteDone,
            file_field("two.txt"),
            UploadEvent::WriteDone,
            UploadEvent::NoMoreFields,
        ],
    );
    let expected = vec!["store//one.txt".to_string(), "store//two.txt".to_string()];
    assert_eq!(ordered, expected);
    assert_eq!(outcome.unwrap(), expected);
}

#[test]
fn path_field_selects_the_subdirectory() {
    let (ordered, outcome) = drive(
        "store",
        vec![
            path_field("directed_path_folder/"),
            file_field("data.bin"),
            UploadEvent::WriteDone,
            UploadEvent::NoMoreFields,
        ],
    );
    assert_eq!(
        ordered,
        vec!["store/directed_path_folder//data.bin".to_string()]
    );
    assert!(outcome.is_ok());
}

#[test]
fn mid_request_write_failure_rolls_back_earlier_files() {
    let (ordered, outcome) = drive(
        "store",
        vec![
            path_field(""),
            file_field("one.txt"),
            UploadEvent::WriteDone,
            file_field("two.txt"),
            UploadEvent::WriteFailed {
                message: "disk full".to_string(),
            },
        ],
    );
    // the third file of the request is never asked for: the machine is
    // terminal as soon as the failure is classified
    assert_eq!(
        ordered,
        vec!["store//one.txt".to_string(), "store//two.txt".to_string()]
    );
    let (cleanup, error) = outcome.unwrap_err();
    assert_eq!(cleanup, ordered);
    assert!(!error.is_client_error());
    assert_eq!(error.into_message(), "disk full");
}

#[test]
fn missing_target_directory_is_a_server_error() {
    let (ordered, outcome) = drive(
        "store",
        vec![
            path_field("sub/"),
            file_field("file.txt"),
            UploadEvent::WriteFailed {
                message: "No such file or directory".to_string(),
            },
        ],
    );
    assert_eq!(ordered, vec!["store/sub//file.txt".to_string()]);
    let (cleanup, error) = outcome.unwrap_err();
    assert_eq!(cleanup, ordered);
    assert!(!error.is_client_error());
    assert_eq!(error.into_message(), "No such file or directory");
}

#[test]
fn transport_failure_is_a_server_error() {
    let (_, outcome) = drive(
        "store",
        vec![
            path_field(""),
            UploadEvent::TransportError {
                message: "bad multipart boundary".to_string(),
            },
        ],
    );
    let (cleanup, error) = outcome.unwrap_err();
    assert!(cleanup.is_empty());
    assert!(!error.is_client_error());
    assert_eq!(error.into_message(), "bad multipart boundary");
}

#[test]
fn file_part_without_a_name_is_a_server_error() {
    let (_, outcome) = drive(
        "store",
        vec![path_field(""), UploadEvent::FileField { file_name: None }],
    );
    let (_, error) = outcome.unwrap_err();
    assert!(!error.is_client_error());
    assert_eq!(error.into_message(), "Failed to get file name");
}

#[test]
fn text_part_in_file_position_is_a_server_error() {
    let (_, outcome) = drive(
        "store",
        vec![
            path_field(""),
            UploadEvent::TextField {
                name: "note".to_string(),
                value: Some("hello".to_string()),
            },
        ],
    );
    let (_, error) = outcome.unwrap_err();
    assert!(!error.is_client_error());
    assert_eq!(error.into_message(), "Failed to get file name");
}

#[test]
fn two_interleaved_requests_do_not_disturb_each_other() {
    let mut a = UploadOrchestrator::new("store_a".to_string());
    let mut b = UploadOrchestrator::new("store_b".to_string());
    let (a1, act_a1) = a.step(path_field(""));
    a = a1;
    let (b1, act_b1) = b.step(path_field("nested/"));
    b = b1;
    assert!(matches!(act_a1, UploadAction::ReadField));
    assert!(matches!(act_b1, UploadAction::ReadField));
    let (a2, act_a2) = a.step(file_field("left.txt"));
    a = a2;
    let (b2, act_b2) = b.step(file_field("right.txt"));
    b = b2;
    match (&act_a2, &act_b2) {
        (UploadAction::WriteFile { path: pa }, UploadAction::WriteFile { path: pb }) => {
            assert_eq!(pa, "store_a//left.txt");
            assert_eq!(pb, "store_b/nested//right.txt");
        }
        _ => panic!("both machines must order a write"),
    }
    let (a3, _) = a.step(UploadEvent::WriteDone);
    a = a3;
    let (b3, _) = b.step(UploadEvent::WriteDone);
    b = b3;
    let (a4, act_a4) = a.step(UploadEvent::NoMoreFields);
    let (b4, act_b4) = b.step(UploadEvent::NoMoreFields);
    assert!(matches!(act_a4, UploadAction::Succeed));
    assert!(matches!(act_b4, UploadAction::Succeed));
    assert_eq!(a4.written_paths(), &vec!["store_a//left.txt".to_string()]);
    assert_eq!(
        b4.written_paths(),
        &vec!["store_b/nested//right.txt".to_string()]
    );
}
