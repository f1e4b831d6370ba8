use filehost::routes::{RejectReason, RequestOutcome};
use filehost::upload::UploadMode;

#[test]
fn filtered_name_is_discarded_with_200() {
    let mut policy = UploadMode::new_upload(vec!["x.txt".to_string()], 0);
    let wrong = "y.txt".to_string();
    let r = policy.dispatch_upload(true, "/upload", Some(&wrong));
    assert_eq!(r, RequestOutcome::RejectUpload(RejectReason::FilteredOut));
    assert_eq!(r.status(), 200);
    assert_eq!(r.fixed_body().unwrap(), "");

    let right = "x.txt".to_string();
    let r2 = policy.dispatch_upload(true, "/upload", Some(&right));
    assert_eq!(r2, RequestOutcome::AcceptUpload("x.txt".to_string()));
    assert_eq!(r2.status(), 201);
}

#[test]
fn empty_filter_admits_any_name() {
    let mut policy = UploadMode::new_upload(Vec::new(), 0);
    let name = "anything.bin".to_string();
    let r = policy.dispatch_upload(true, "/upload", Some(&name));
    assert_eq!(r, RequestOutcome::AcceptUpload("anything.bin".to_string()));
}

#[test]
fn missing_header_is_400() {
    let mut policy = UploadMode::new_upload(Vec::new(), 0);
    let r = policy.dispatch_upload(true, "/upload", None);
    assert_eq!(r, RequestOutcome::RejectUpload(RejectReason::MissingHeader));
    assert_eq!(r.status(), 400);
    assert_eq!(r.fixed_body().unwrap(), "Could not find File-Name header");
}

#[test]
fn budget_of_one_stops_after_one_accept() {
    let mut policy = UploadMode::new_upload(Vec::new(), 1);
    let name = "a.txt".to_string();
    let r = policy.dispatch_upload(true, "/upload", Some(&name));
    assert!(matches!(r, RequestOutcome::AcceptUpload(_)));
    assert_eq!(policy.left, 0);

    let r2 = policy.dispatch_upload(true, "/upload", Some(&name));
    assert_eq!(r2, RequestOutcome::RejectUpload(RejectReason::BudgetSpent));
    assert_eq!(r2.status(), 503);
}

#[test]
fn zero_count_never_stops() {
    let mut policy = UploadMode::new_upload(Vec::new(), 0);
    let name = "a.txt".to_string();
    let mut accepted: usize = 0;
    while accepted < 5 {
        let r = policy.dispatch_upload(true, "/upload", Some(&name));
        assert!(matches!(r, RequestOutcome::AcceptUpload(_)));
        accepted += 1;
    }
    assert_eq!(policy.budget, 0);
    assert_eq!(policy.left, 0);
}

#[test]
fn other_method_on_upload_redirects() {
    let mut policy = UploadMode::new_upload(Vec::new(), 0);
    let r = policy.dispatch_upload(false, "/upload", None);
    assert_eq!(r, RequestOutcome::RedirectUploadForm);
    assert_eq!(r.status(), 308);
    assert_eq!(r.fixed_body().unwrap(), "Redirecting you back...");
}

#[test]
fn upload_mode_routes() {
    let mut policy = UploadMode::new_upload(Vec::new(), 0);
    assert_eq!(
        policy.dispatch_upload(false, "/", None),
        RequestOutcome::ServeIndex
    );
    assert_eq!(
        policy.dispatch_upload(true, "/elsewhere", None),
        RequestOutcome::NotFound
    );
}
