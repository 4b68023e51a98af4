use service_registry::ServiceId;

#[test]
fn test_all() {
    let _ = ServiceId(0);
}
