use health_checker::status::HttpStatus;

#[test]
fn status_accepts_three_digit_codes_only() {
    assert!(HttpStatus::new(0).is_none());
    assert!(HttpStatus::new(99).is_none());
    assert!(HttpStatus::new(100).is_some());
    assert!(HttpStatus::new(200).is_some());
    assert!(HttpStatus::new(999).is_some());
    assert!(HttpStatus::new(1000).is_none());
    assert!(HttpStatus::new(u16::MAX).is_none());
}

#[test]
fn status_keeps_its_code() {
    assert_eq!(HttpStatus::new(100).unwrap().as_u16(), 100);
    assert_eq!(HttpStatus::new(404).unwrap().as_u16(), 404);
    assert_eq!(HttpStatus::new(999).unwrap().as_u16(), 999);
}

#[test]
fn success_range_is_200_to_299() {
    assert!(!HttpStatus::new(100).unwrap().is_success());
    assert!(!HttpStatus::new(199).unwrap().is_success());
    assert!(HttpStatus::new(200).unwrap().is_success());
    assert!(HttpStatus::new(204).unwrap().is_success());
    assert!(HttpStatus::new(299).unwrap().is_success());
    assert!(!HttpStatus::new(300).unwrap().is_success());
    assert!(!HttpStatus::new(404).unwrap().is_success());
    assert!(!HttpStatus::new(500).unwrap().is_success());
    assert!(!HttpStatus::new(999).unwrap().is_success());
}

#[test]
fn status_line_of_registered_codes() {
    assert_eq!(HttpStatus::new(200).unwrap().describe(), "200 OK");
    assert_eq!(HttpStatus::new(301).unwrap().describe(), "301 Moved Permanently");
    assert_eq!(HttpStatus::new(404).unwrap().describe(), "404 Not Found");
    assert_eq!(HttpStatus::new(500).unwrap().describe(), "500 Internal Server Error");
    assert_eq!(HttpStatus::new(503).unwrap().describe(), "503 Service Unavailable");
}

#[test]
fn status_line_of_unregistered_codes() {
    assert_eq!(HttpStatus::new(299).unwrap().describe(), "299 <unknown status code>");
    assert_eq!(HttpStatus::new(999).unwrap().describe(), "999 <unknown status code>");
}

#[test]
fn status_line_begins_with_the_three_digits() {
    let mut code: u16 = 100;
    while code <= 999 {
        let line = HttpStatus::new(code).unwrap().describe();
        let digits = format!("{} ", code);
        assert_eq!(digits.len(), 4);
        assert!(line.starts_with(&digits));
        code += 1;
    }
}

#[test]
fn status_line_agrees_with_reqwest() {
    let mut code: u16 = 100;
    while code <= 999 {
        let theirs = reqwest::StatusCode::from_u16(code).unwrap();
        let ours = HttpStatus::new(code).unwrap();
        assert_eq!(ours.describe(), theirs.to_string());
        assert_eq!(ours.is_success(), theirs.is_success());
        assert_eq!(ours.as_u16(), theirs.as_u16());
        code += 1;
    }
}
