use network_client::error::forward_result;
use network_client::error::LocalClientError;
use network_client::peer_id::PeerId;

#[test]
fn success_of_the_handler_is_success_of_the_call() {
    assert_eq!(forward_result(Ok(())), Ok(()));
}

#[test]
fn failure_of_the_handler_is_wrapped_with_its_description() {
    let result = forward_result(Err(String::from("Status { code: 500 }")));
    assert_eq!(result, Err(LocalClientError::Internal(String::from("Status { code: 500 }"))));
    assert_ne!(result, Err(LocalClientError::Internal(String::new())));
}

#[test]
fn only_a_shutdown_forbids_another_try() {
    let id = PeerId([3u8; 32]);
    assert!(!LocalClientError::ShuttingDown.is_retriable());
    assert!(LocalClientError::WorkerNotStarted(id).is_retriable());
    assert!(LocalClientError::PrimaryNotStarted(id).is_retriable());
    assert!(LocalClientError::Internal(String::from("x")).is_retriable());
}

#[test]
fn errors_carry_the_identity_they_are_about() {
    let a = PeerId([1u8; 32]);
    let b = PeerId([2u8; 32]);
    assert_eq!(LocalClientError::WorkerNotStarted(a), LocalClientError::WorkerNotStarted(a));
    assert_ne!(LocalClientError::WorkerNotStarted(a), LocalClientError::WorkerNotStarted(b));
    assert_ne!(LocalClientError::WorkerNotStarted(a), LocalClientError::PrimaryNotStarted(a));
}
