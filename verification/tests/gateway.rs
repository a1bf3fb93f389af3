use akeno::{APIResponse, AppError, ChatCompletion, GatewayError, FALLBACK_REPLY};

fn response(content: Option<&str>) -> APIResponse {
    APIResponse {
        code: 0,
        message: "ok".to_string(),
        content: content.map(str::to_string),
        images: None,
    }
}

#[test]
fn content_is_the_reply() {
    assert_eq!(ChatCompletion(Ok(response(Some("hello there")))), Ok("hello there".to_string()));
}

#[test]
fn empty_content_is_still_content() {
    assert_eq!(ChatCompletion(Ok(response(Some("")))), Ok(String::new()));
}

#[test]
fn missing_content_gives_the_fallback() {
    assert_eq!(FALLBACK_REPLY, "I can't respond to that.");
    assert_eq!(ChatCompletion(Ok(response(None))), Ok("I can't respond to that.".to_string()));
}

#[test]
fn code_and_images_do_not_matter() {
    let answer = APIResponse {
        code: -7,
        message: String::new(),
        content: Some("text".to_string()),
        images: Some(vec!["a.png".to_string()]),
    };
    assert_eq!(ChatCompletion(Ok(answer)), Ok("text".to_string()));
}

#[test]
fn transport_failure_is_surfaced() {
    assert_eq!(
        ChatCompletion(Err(GatewayError::Transport)),
        Err(AppError::ReqwestError(GatewayError::Transport))
    );
}

#[test]
fn protocol_failure_is_surfaced() {
    assert_eq!(
        ChatCompletion(Err(GatewayError::Protocol)),
        Err(AppError::ReqwestError(GatewayError::Protocol))
    );
}
