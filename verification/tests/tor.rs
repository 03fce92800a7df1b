use async_wsocket::tor::{Claim, ClientRegistry, Slot};

#[test]
fn new_registry_holds_nothing() {
    let registry = ClientRegistry::new();
    assert_eq!(registry.slot(&None), None);
    assert_eq!(registry.slot(&Some(String::from("/data"))), None);
}

#[test]
fn two_requests_start_one_client() {
    let mut registry = ClientRegistry::new();
    assert_eq!(registry.request(&None), Claim::Bootstrap);
    assert_eq!(registry.request(&None), Claim::Wait);
    assert_eq!(registry.slot(&None), Some(Slot::Bootstrapping));
}

#[test]
fn many_requests_start_one_client() {
    let mut registry = ClientRegistry::new();
    let path = Some(String::from("/data"));
    let mut started = 0;
    for _ in 0..100 {
        if registry.request(&path) == Claim::Bootstrap {
            started += 1;
        }
    }
    assert_eq!(started, 1);
}

#[test]
fn client_that_started_is_used() {
    let mut registry = ClientRegistry::new();
    registry.request(&None);
    registry.request(&None);
    registry.finished(&None, true);
    assert_eq!(registry.slot(&None), Some(Slot::Ready));
    assert_eq!(registry.request(&None), Claim::Use);
    assert_eq!(registry.request(&None), Claim::Use);
}

#[test]
fn client_that_failed_is_started_again() {
    let mut registry = ClientRegistry::new();
    registry.request(&None);
    registry.finished(&None, false);
    assert_eq!(registry.slot(&None), None);
    assert_eq!(registry.request(&None), Claim::Bootstrap);
    assert_eq!(registry.request(&None), Claim::Wait);
}

#[test]
fn each_path_has_its_own_client() {
    let mut registry = ClientRegistry::new();
    let a = Some(String::from("/a"));
    let b = Some(String::from("/b"));
    assert_eq!(registry.request(&a), Claim::Bootstrap);
    assert_eq!(registry.request(&b), Claim::Bootstrap);
    assert_eq!(registry.request(&None), Claim::Bootstrap);
    assert_eq!(registry.request(&a), Claim::Wait);
    registry.finished(&a, true);
    assert_eq!(registry.request(&a), Claim::Use);
    assert_eq!(registry.request(&b), Claim::Wait);
    assert_eq!(registry.request(&None), Claim::Wait);
    registry.finished(&b, false);
    assert_eq!(registry.request(&b), Claim::Bootstrap);
    assert_eq!(registry.request(&a), Claim::Use);
}

#[test]
fn report_without_a_start_changes_nothing() {
    let mut registry = ClientRegistry::new();
    registry.finished(&None, true);
    assert_eq!(registry.slot(&None), None);
    assert_eq!(registry.request(&None), Claim::Bootstrap);
    registry.finished(&None, true);
    registry.finished(&None, false);
    assert_eq!(registry.slot(&None), Some(Slot::Ready));
    assert_eq!(registry.request(&None), Claim::Use);
}
