use continuum::folders::parse_event_folder;

fn parts(name: &str) -> (Option<String>, Option<String>) {
    parse_event_folder(name)
}

#[test]
fn dated_folder_with_description() {
    assert_eq!(
        parts("20260601 Субботник"),
        (Some("2026-06-01".to_string()), Some("Субботник".to_string()))
    );
}

#[test]
fn dated_folder_without_description() {
    assert_eq!(parts("20260601"), (Some("2026-06-01".to_string()), None));
}

#[test]
fn dated_folder_with_only_spaces_after_date() {
    assert_eq!(parts("20260601 \t  "), (Some("2026-06-01".to_string()), None));
}

#[test]
fn description_is_trimmed_on_both_sides() {
    assert_eq!(
        parts("19991231   New year eve \u{3000}"),
        (Some("1999-12-31".to_string()), Some("New year eve".to_string()))
    );
}

#[test]
fn description_directly_after_date() {
    assert_eq!(
        parts("20240115Wedding"),
        (Some("2024-01-15".to_string()), Some("Wedding".to_string()))
    );
}

#[test]
fn undated_folder_is_all_description() {
    assert_eq!(parts("Wedding  "), (None, Some("Wedding  ".to_string())));
}

#[test]
fn seven_digits_are_not_a_date() {
    assert_eq!(parts("2026060 x"), (None, Some("2026060 x".to_string())));
}

#[test]
fn non_ascii_digits_are_not_a_date() {
    assert_eq!(parts("٢٠٢٦٠٦٠١ x"), (None, Some("٢٠٢٦٠٦٠١ x".to_string())));
}

#[test]
fn empty_folder_name() {
    assert_eq!(parts(""), (None, Some(String::new())));
}

#[test]
fn date_digits_are_not_checked_as_a_calendar_date() {
    assert_eq!(parts("99999999 x"), (Some("9999-99-99".to_string()), Some("x".to_string())));
}
