use saltwater_parser::error::{DiagCode, ErrorHandler, Location};
use saltwater_parser::guard::{RecursionGuard, RECURSION_EXIT_STATUS};

fn at(line: u32) -> Location {
    Location { file: 0, line, column: 1, offset: 0 }
}

#[test]
fn guard_counts_live_handles() {
    let mut handler = ErrorHandler::new();
    let root = RecursionGuard::new(3);
    assert_eq!(root.current_depth(), 1);
    let second = root.recursion_check(&mut handler).ok().unwrap();
    assert_eq!(second.current_depth(), 2);
    let third = second.recursion_check(&mut handler).ok().unwrap();
    assert_eq!(third.current_depth(), 3);
    assert_eq!(root.current_depth(), 1);
    assert!(third.recursion_check(&mut handler).is_err());
}

#[test]
fn guard_failure_reports_pending_diagnostics() {
    let mut handler = ErrorHandler::new();
    handler.error(DiagCode::UndeclaredIdentifier, at(1));
    handler.warn(DiagCode::SignedOverflow, at(2));
    handler.error(DiagCode::DivisionByZero, at(3));
    let root = RecursionGuard::new(1);
    let report = root.recursion_check(&mut handler).err().unwrap();
    assert_eq!(report.exit_status(), 102);
    assert_eq!(RECURSION_EXIT_STATUS, 102);
    assert_eq!(report.headline(), "fatal: maximum recursion depth exceeded (2 > 1)");
    let lines = report.pending_lines();
    assert_eq!(
        lines,
        vec![
            "pending errors:".to_string(),
            "- error: use of undeclared identifier".to_string(),
            "- error: division by zero in a constant expression".to_string(),
            "- warning: signed overflow in a constant expression".to_string(),
        ]
    );
    assert!(handler.is_empty());
    assert_eq!(handler.warning_count(), 0);
}
