use oneinch_swap::{
    error_from_body, http_failure, legacy_outcome, route_response, status_text, swap_url, swap_v6_url, v6_outcome,
    HttpExceptionMeta, ResponseRoute, SwapDetailsBuilder, SwapDetailsV6Builder, SwapError, SwapRequestError,
    SwapTranactionData,
};

fn request_error() -> SwapRequestError {
    SwapRequestError {
        error: "Bad Request".to_string(),
        description: "insufficient liquidity".to_string(),
        status_code: 400,
        request_id: "req-1".to_string(),
        meta: Some(vec![HttpExceptionMeta { type_field: "amount".to_string(), value: "0".to_string() }]),
    }
}

#[test]
fn routes_by_status() {
    assert_eq!(route_response(400), ResponseRoute::StructuredError);
    assert_eq!(route_response(404), ResponseRoute::HttpFailure);
    assert_eq!(route_response(401), ResponseRoute::HttpFailure);
    assert_eq!(route_response(500), ResponseRoute::HttpFailure);
    assert_eq!(route_response(599), ResponseRoute::HttpFailure);
    assert_eq!(route_response(200), ResponseRoute::Success);
    assert_eq!(route_response(302), ResponseRoute::Success);
    assert_eq!(route_response(600), ResponseRoute::Success);
}

#[test]
fn structured_error_fields_verbatim() {
    match error_from_body("{}", Ok(request_error())) {
        SwapError::SwapRequest { description, error, status_code, request_id } => {
            assert_eq!(description, "insufficient liquidity");
            assert_eq!(error, "Bad Request");
            assert_eq!(status_code, 400);
            assert_eq!(request_id, "req-1");
        }
        _ => panic!("expected a swap request error"),
    }
}

#[test]
fn malformed_error_body_is_other() {
    match error_from_body("oops", Err("expected value at line 1 column 1".to_string())) {
        SwapError::Other(m) => {
            assert_eq!(m, "Error parsing error response: expected value at line 1 column 1; body: oops")
        }
        _ => panic!("expected an other error"),
    }
}

#[test]
fn status_404_failure() {
    assert_eq!(status_text(404), "404 Not Found");
    assert_eq!(status_text(500), "500 Internal Server Error");
    assert_eq!(status_text(499), "499 <unknown status code>");
    match http_failure(404) {
        SwapError::Other(m) => assert_eq!(m, "Server responded with error: 404 Not Found"),
        _ => panic!("expected an other error"),
    }
}

#[test]
fn v6_decode_failure_is_json_error() {
    let parsed: Result<u32, serde_json::Error> = serde_json::from_str("{\"dstAmount\":\"1\"}");
    assert!(matches!(v6_outcome(parsed), Err(SwapError::JsonParse(_))));
    let ok: Result<u32, serde_json::Error> = serde_json::from_str("7");
    assert!(matches!(v6_outcome(ok), Ok(7)));
}

#[test]
fn legacy_success_passes_through() {
    let ok: Result<&str, reqwest::Error> = Ok("999");
    assert!(matches!(legacy_outcome(ok), Ok("999")));
}

#[test]
fn legacy_end_to_end_scenario() {
    let d = SwapDetailsBuilder::new()
        .src("A".to_string())
        .dst("B".to_string())
        .amount("1000".to_string())
        .from_addr("0xabc".to_string())
        .slippage(5)
        .unwrap()
        .build()
        .unwrap();
    let url = swap_url(1, d).unwrap();
    assert!(url.ends_with("/swap/?from=0xabc&slippage=5&src=A&dst=B&amount=1000"));
    assert_eq!(route_response(200), ResponseRoute::Success);
    let tx = SwapTranactionData {
        from: "0xabc".to_string(),
        to: "0xdef".to_string(),
        data: "0x".to_string(),
        value: "0".to_string(),
        gas_price: "1".to_string(),
        gas: 21000,
    };
    let decoded: Result<(String, SwapTranactionData), reqwest::Error> = Ok(("999".to_string(), tx));
    match legacy_outcome(decoded) {
        Ok((to_amount, tx)) => {
            assert_eq!(to_amount, "999");
            assert_eq!(tx.from, "0xabc");
            assert_eq!(tx.to, "0xdef");
            assert_eq!(tx.data, "0x");
            assert_eq!(tx.value, "0");
            assert_eq!(tx.gas_price, "1");
            assert_eq!(tx.gas, 21000);
        }
        Err(_) => panic!("expected success"),
    }
}

#[test]
fn v6_scenario_parse_failure_is_json_error() {
    let d = SwapDetailsV6Builder::new()
        .src("A".to_string())
        .dst("B".to_string())
        .amount("1000".to_string())
        .from("0xabc".to_string())
        .origin("0xabc".to_string())
        .slippage(5)
        .unwrap()
        .build()
        .unwrap();
    let url = swap_v6_url(1, d).unwrap();
    assert!(url.ends_with("/swap/?from=0xabc&slippage=5&src=A&dst=B&amount=1000&origin=0xabc"));
    let body = "{\"dstAmount\":\"999\",\"tx\":{\"from\":\"0xabc\",\"to\":\"0xdef\",\"data\":\"0x\",\"value\":\"0\",\"gasPrice\":\"1\",\"gas\":21000}}";
    let parsed: Result<String, serde_json::Error> = serde_json::from_str(body);
    assert!(matches!(v6_outcome(parsed), Err(SwapError::JsonParse(_))));
}
