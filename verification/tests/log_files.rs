use capture_card_viewer::logger::{
    crash_notice, decimal, log_file_name, panic_location_text, panic_message_text,
    rotation_steps, MAX_ROTATED_LOGS,
};

#[test]
fn log_names() {
    assert_eq!(log_file_name(0), "app.log");
    assert_eq!(log_file_name(1), "app.log.1");
    assert_eq!(log_file_name(3), "app.log.3");
    assert_eq!(log_file_name(12), "app.log.12");
}

#[test]
fn decimal_text() {
    assert_eq!(decimal(0), "0");
    assert_eq!(decimal(9), "9");
    assert_eq!(decimal(10), "10");
    assert_eq!(decimal(4_294_967_295), "4294967295");
}

#[test]
fn rotation_order() {
    assert_eq!(MAX_ROTATED_LOGS, 3);
    assert_eq!(rotation_steps(MAX_ROTATED_LOGS), vec![(2, 3), (1, 2), (0, 1)]);
    assert_eq!(rotation_steps(1), vec![(0, 1)]);
}

#[test]
fn crash_texts() {
    assert_eq!(
        crash_notice("boom"),
        "The application crashed unexpectedly and needs to close.\n\nboom\n\nA log file has been saved and may help diagnose the issue."
    );
    assert_eq!(panic_location_text(Some(("src/main.rs", 42))), "src/main.rs:42");
    assert_eq!(panic_location_text(None), "unknown location");
    assert_eq!(panic_message_text(Some("oops".to_string())), "oops");
    assert_eq!(panic_message_text(None), "no panic message available");
}

#[test]
fn rotation_of_nothing() {
    assert!(rotation_steps(0).is_empty());
}
