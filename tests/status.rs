use esp_eventloop::status::{
    check_status, isr_post_outcome, post_outcome, EventLoopError, ESP_ERR_INVALID_ARG,
    ESP_ERR_INVALID_STATE, ESP_ERR_TIMEOUT, ESP_FAIL, ESP_OK,
};

#[test]
fn check_status_ok_only_for_zero() {
    assert_eq!(check_status(ESP_OK), Ok(()));
    assert_eq!(check_status(ESP_FAIL), Err(EventLoopError::NativeFailure(-1)));
    assert_eq!(check_status(0x101), Err(EventLoopError::NativeFailure(0x101)));
}

#[test]
fn post_timeout_is_declined_not_error() {
    assert_eq!(post_outcome(ESP_ERR_TIMEOUT), Ok(false));
}

#[test]
fn post_success_is_delivered() {
    assert_eq!(post_outcome(ESP_OK), Ok(true));
}

#[test]
fn post_other_failure_is_error() {
    assert_eq!(post_outcome(ESP_FAIL), Err(EventLoopError::NativeFailure(ESP_FAIL)));
    assert_eq!(
        post_outcome(ESP_ERR_INVALID_ARG),
        Err(EventLoopError::NativeFailure(ESP_ERR_INVALID_ARG))
    );
}

#[test]
fn isr_post_generic_failure_is_declined() {
    assert_eq!(isr_post_outcome(ESP_FAIL), Ok(false));
    assert_eq!(isr_post_outcome(ESP_OK), Ok(true));
}

#[test]
fn isr_post_timeout_is_error() {
    assert_eq!(
        isr_post_outcome(ESP_ERR_TIMEOUT),
        Err(EventLoopError::NativeFailure(ESP_ERR_TIMEOUT))
    );
}

#[test]
fn error_codes() {
    assert_eq!(EventLoopError::AlreadyExists.code(), ESP_ERR_INVALID_STATE);
    assert_eq!(EventLoopError::NativeFailure(0x105).code(), 0x105);
}
