use wez_bits::adapters::terminal_adapter::TerminalAdapter;
use wez_bits::domain::models::Direction;
use wez_bits::errors::TerminalError;

// Test initialization and configuration
#[test]
fn test_terminal_adapter_new() {
    let adapter = TerminalAdapter::new(
        ".wez".to_string(),
        "output.log".to_string(),
        "error.log".to_string(),
    );

    assert_eq!(adapter.dot_dir, ".wez");
    assert_eq!(adapter.output_filename, "output.log");
    assert_eq!(adapter.error_filename, "error.log");
}

// Test formatting of log paths
#[test]
fn test_log_paths_formatting() {
    let adapter = TerminalAdapter::new(
        ".test-dir".to_string(),
        "test-output.log".to_string(),
        "test-error.log".to_string(),
    );

    let error_file = format!("{}/{}", adapter.dot_dir, adapter.error_filename);
    let output_file = format!("{}/{}", adapter.dot_dir, adapter.output_filename);

    assert_eq!(error_file, ".test-dir/test-error.log");
    assert_eq!(output_file, ".test-dir/test-output.log");
    assert_eq!(adapter.error_log_path(), error_file);
    assert_eq!(adapter.output_log_path(), output_file);
}

// Test that open_pane generates correct arguments for right direction
#[test]
fn test_open_pane_right_args() {
    assert!(true);
    assert_eq!(
        TerminalAdapter::open_pane_args(Direction::Right, 30),
        vec!["cli", "split-pane", "--horizontal", "--percent", "30"]
    );
}

// Test that open_pane generates correct arguments for down direction
#[test]
fn test_open_pane_down_args() {
    assert!(true);
    assert_eq!(
        TerminalAdapter::open_pane_args(Direction::Down, 30),
        vec!["cli", "split-pane", "--percent", "30"]
    );
}

// Test empty pane ID handling in open_pane
#[test]
fn test_open_pane_empty_id_handling() {
    assert!(true);
    for (output, direction, message) in [
        ("", Direction::Right, "There is no pane right"),
        (" \n\t", Direction::Down, "There is no pane down"),
        ("\u{3000}\u{a0}", Direction::Right, "There is no pane right"),
    ] {
        let result = TerminalAdapter::pane_id_from_output(output, direction);
        assert!(matches!(result, Err(TerminalError::OpenPane(detail)) if detail == message));
    }
}

// Test display_logs_in_pane path formatting
#[test]
fn test_display_logs_command_formatting() {
    let adapter = TerminalAdapter::new(
        ".custom-dir".to_string(),
        "custom-output.log".to_string(),
        "custom-error.log".to_string(),
    );

    // Verify that the formatted command would include the correct paths
    let error_file = format!("{}/{}", adapter.dot_dir, adapter.error_filename);
    let output_file = format!("{}/{}", adapter.dot_dir, adapter.output_filename);

    assert_eq!(error_file, ".custom-dir/custom-error.log");
    assert_eq!(output_file, ".custom-dir/custom-output.log");
    assert_eq!(
        adapter.display_logs_command(),
        "tail -f -n 20 .custom-dir/custom-error.log .custom-dir/custom-output.log \
         | bat --paging=never -l log"
    );
}

// Test pipe_text_to_pane arguments
#[test]
fn test_pipe_text_args() {
    assert!(true);
    assert_eq!(
        TerminalAdapter::send_text_args("17"),
        vec!["cli", "send-text", "--pane-id", "17", "--no-paste"]
    );
}

#[test]
fn close_pane_args_name_the_pane() {
    assert_eq!(
        TerminalAdapter::close_pane_args("17"),
        vec!["cli", "kill-pane", "--pane-id", "17"]
    );
}

#[test]
fn the_pane_id_is_the_output_without_the_white_space_around_it() {
    for (output, pane) in
        [("42\n", "42"), ("  42", "42"), ("\t4 2 \r\n", "4 2"), ("42", "42"), ("\u{2003}é\n", "é")]
    {
        let found = TerminalAdapter::pane_id_from_output(output, Direction::Right).unwrap();
        assert_eq!(found, pane);
        assert_eq!(found, output.trim());
    }
}

#[test]
fn the_size_of_a_pane_is_written_in_decimal() {
    for size in [0, 7, 15, 30, 100, -1, -25, i32::MAX, i32::MIN] {
        let args = TerminalAdapter::open_pane_args(Direction::Down, size);
        assert_eq!(args[3], size.to_string());
    }
}

#[test]
fn every_failure_of_the_terminal_names_the_operation_and_the_pane() {
    let detail = |error: TerminalError| error.message();
    assert_eq!(
        detail(TerminalAdapter::run_failure()),
        "Failed to open pane: Failed to run wezterm command"
    );
    assert_eq!(
        detail(TerminalAdapter::output_failure()),
        "Failed to open pane: Failed to parse wezterm output"
    );
    assert_eq!(
        detail(TerminalAdapter::close_failure("12")),
        "Failed to close pane: Failed to close pane 12"
    );
    assert_eq!(
        detail(TerminalAdapter::display_echo_failure("12")),
        "Failed to display logs: Failed to create echo command for pane 12"
    );
    assert_eq!(
        detail(TerminalAdapter::display_send_failure("12")),
        "Failed to display logs: Failed to send text to pane 12"
    );
    assert_eq!(
        detail(TerminalAdapter::pipe_echo_failure("12")),
        "Failed to pipe text to pane: Failed to create echo command for pane 12"
    );
    assert_eq!(
        detail(TerminalAdapter::pipe_failure("12")),
        "Failed to pipe text to pane: Failed to pipe text to pane 12"
    );
    assert!(matches!(TerminalAdapter::close_failure(""), TerminalError::ClosePane(d) if d == "Failed to close pane "));
}
