use imagen_gateway::response::{STATUS_INTERNAL_SERVER_ERROR, STATUS_OK};
use imagen_gateway::{
    generate_image_path, generate_image_post, image_response, GenerateImageParams,
    GenerateImagePathParams, HttpResponse, Prediction,
};

fn prediction(mime_type: &str, bytes: &str) -> Prediction {
    Prediction { mime_type: mime_type.to_string(), bytes_base64_encoded: bytes.to_string() }
}

/// Stands for the prediction service: answers every request with one image.
fn stub_one_image() -> Result<Vec<Prediction>, String> {
    Ok(vec![prediction("image/png", "iVBORw0KGgo=")])
}

#[test]
fn post_scenario_serves_the_image() {
    let request = generate_image_post(GenerateImageParams {
        prompt: "a cat".to_string(),
        mime_type: "image/png".to_string(),
        aspect_ratio: "1:1".to_string(),
    });
    assert!(request.is_some());
    let response = image_response(stub_one_image());
    assert_eq!(response.status, 200);
    assert_eq!(response.content_type.as_deref(), Some("image/png"));
    assert_eq!(response.body, "iVBORw0KGgo=");
}

#[test]
fn get_scenario_serves_the_same_response() {
    let by_form = generate_image_post(GenerateImageParams {
        prompt: "a cat".to_string(),
        mime_type: "image/png".to_string(),
        aspect_ratio: "1:1".to_string(),
    });
    let by_url = generate_image_path(
        "a cat".to_string(),
        GenerateImagePathParams {
            mime_type: "image/png".to_string(),
            aspect_ratio: "1:1".to_string(),
        },
    );
    assert_eq!(
        by_form.unwrap().prediction_request(),
        by_url.unwrap().prediction_request()
    );
    let first = image_response(stub_one_image());
    let second = image_response(stub_one_image());
    assert_eq!(first, second);
    assert_eq!(
        second,
        HttpResponse {
            status: 200,
            content_type: Some("image/png".to_string()),
            body: "iVBORw0KGgo=".to_string(),
        }
    );
}

#[test]
fn empty_result_is_a_server_error() {
    let response = image_response(Ok(Vec::new()));
    assert_eq!(response.status, 500);
    assert_eq!(response.body, "No predictions returned");
    assert_eq!(response.content_type, None);
}

#[test]
fn transport_error_is_a_server_error() {
    let response = image_response(Err("connection refused".to_string()));
    assert_eq!(response.status, 500);
    assert!(response.body.starts_with("Error: "));
    assert_eq!(response.body, "Error: connection refused");
    assert_eq!(response.content_type, None);
}

#[test]
fn error_with_empty_description() {
    let response = image_response(Err(String::new()));
    assert_eq!(response.status, 500);
    assert_eq!(response.body, "Error: ");
}

#[test]
fn last_prediction_is_served_not_the_first() {
    let response = image_response(Ok(vec![
        prediction("image/png", "Zmlyc3Q="),
        prediction("image/webp", "bWlkZGxl"),
        prediction("image/jpeg", "bGFzdA=="),
    ]));
    assert_eq!(response.status, 200);
    assert_eq!(response.content_type.as_deref(), Some("image/jpeg"));
    assert_eq!(response.body, "bGFzdA==");
    assert_ne!(response.body, "Zmlyc3Q=");
}

#[test]
fn payload_is_passed_through_undecoded() {
    // "aGVsbG8=" is the base64 text of "hello": the body is the text as it
    // came, not the bytes it encodes.
    let response = image_response(Ok(vec![prediction("image/png", "aGVsbG8=")]));
    assert_eq!(response.body.as_bytes(), b"aGVsbG8=");
    assert_ne!(response.body.as_bytes(), b"hello");
}

#[test]
fn content_type_follows_the_prediction() {
    // The mime type of the response is the one the prediction declares,
    // whatever the request asked for.
    let response = image_response(Ok(vec![prediction("image/jpeg", "AAAA")]));
    assert_eq!(response.content_type.as_deref(), Some("image/jpeg"));
}

#[test]
fn empty_prediction_fields_are_served() {
    let response = image_response(Ok(vec![prediction("", "")]));
    assert_eq!(response.status, 200);
    assert_eq!(response.content_type.as_deref(), Some(""));
    assert_eq!(response.body, "");
}

#[test]
fn later_outcomes_do_not_depend_on_earlier_ones() {
    let failed = image_response(Err("timeout".to_string()));
    assert_eq!(failed.status, 500);
    let served = image_response(stub_one_image());
    assert_eq!(served.status, 200);
    let failed_again = image_response(Err("timeout".to_string()));
    assert_eq!(failed, failed_again);
}

#[test]
fn status_constants() {
    assert_eq!(STATUS_OK, 200);
    assert_eq!(STATUS_INTERNAL_SERVER_ERROR, 500);
}
