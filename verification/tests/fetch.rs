use msedgedriver_tool::error::Error;
use msedgedriver_tool::fetch::fetch;
use msedgedriver_tool::fetch::request_for;
use msedgedriver_tool::fetch::user_agent;
use msedgedriver_tool::fetch::Request;
use msedgedriver_tool::fetch::Response;
use msedgedriver_tool::fetch::MAX_BODY_BYTES;

#[test]
fn the_ceiling_is_100_mib() {
    assert_eq!(MAX_BODY_BYTES, 100 * 1024 * 1024);
}

#[test]
fn a_body_at_the_ceiling_is_delivered() {
    let body = vec![7u8; MAX_BODY_BYTES as usize];
    let fetched = fetch(Response::Body(body)).unwrap();
    assert_eq!(fetched.len(), MAX_BODY_BYTES as usize);
    assert!(fetched.iter().all(|byte| *byte == 7));
}

#[test]
fn a_body_one_byte_over_is_too_large() {
    let body = vec![7u8; MAX_BODY_BYTES as usize + 1];
    assert_eq!(fetch(Response::Body(body)), Err(Error::BodyTooLarge));
}

#[test]
fn a_body_is_delivered_unchanged() {
    assert_eq!(fetch(Response::Body(Vec::new())), Ok(Vec::new()));
    assert_eq!(fetch(Response::Body(vec![1, 2, 3])), Ok(vec![1, 2, 3]));
}

#[test]
fn a_read_past_the_limit_is_too_large() {
    assert_eq!(fetch(Response::TooLarge), Err(Error::BodyTooLarge));
}

#[test]
fn a_failed_request_is_a_network_error() {
    assert_eq!(
        fetch(Response::Failed("http status: 404".to_string())),
        Err(Error::NetworkError("http status: 404".to_string()))
    );
}

#[test]
fn a_request_carries_the_tool_and_the_limit() {
    assert_eq!(user_agent(), "msedgedriver_tool 0.1.0");
    assert_eq!(
        request_for("https://host.example/x.zip"),
        Request {
            url: "https://host.example/x.zip".to_string(),
            user_agent: "msedgedriver_tool 0.1.0".to_string(),
            read_limit: 100 * 1024 * 1024 + 1,
        }
    );
}
