use check_if_email_exists::mx::{check_mx_outcome, MxDetails, MxError, ResolveFailure};

#[test]
fn records_and_accepts_mail() {
    let d = MxDetails::from_records(vec!["a.example.".to_string(), "b.example.".to_string()]);
    assert_eq!(d.records(), vec!["a.example.".to_string(), "b.example.".to_string()]);
    assert!(d.accepts_mail());
    let d = MxDetails::default();
    assert!(d.records().is_empty());
    assert!(!d.accepts_mail());
    let d = MxDetails::from_records(vec![]);
    assert!(!d.accepts_mail());
}

#[test]
fn no_records_is_not_an_error() {
    match check_mx_outcome(Err(ResolveFailure::NoRecordsFound("no MX".to_string()))) {
        Ok(d) => assert!(!d.accepts_mail()),
        Err(_) => panic!("a domain without MX records is reported, not failed"),
    }
    match check_mx_outcome(Err(ResolveFailure::Other("timeout".to_string()))) {
        Err(MxError::ResolveError(m)) => assert_eq!(m, "timeout"),
        _ => panic!("other failures are errors"),
    }
    match check_mx_outcome(Ok(vec!["mx.example.".to_string()])) {
        Ok(d) => assert_eq!(d.records(), vec!["mx.example.".to_string()]),
        Err(_) => panic!("records give details"),
    }
}
