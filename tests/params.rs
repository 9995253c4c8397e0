use oneinch_swap::{bool_string, decimal_string, swap_params, swap_v6_params, SwapDetailsBuilder, SwapDetailsV6Builder};

fn pairs(v: &[(&str, &str)]) -> Vec<(String, String)> {
    v.iter().map(|(k, x)| (k.to_string(), x.to_string())).collect()
}

fn query(ps: &[(String, String)]) -> String {
    ps.iter().map(|(k, v)| format!("{}={}", k, v)).collect::<Vec<_>>().join("&")
}

#[test]
fn decimal_text_values() {
    assert_eq!(decimal_string(0), "0");
    assert_eq!(decimal_string(7), "7");
    assert_eq!(decimal_string(10), "10");
    assert_eq!(decimal_string(1000000000), "1000000000");
    assert_eq!(decimal_string(u128::MAX), u128::MAX.to_string());
    assert_eq!(bool_string(true), "true");
    assert_eq!(bool_string(false), "false");
}

#[test]
fn minimal_legacy_query() {
    let d = SwapDetailsBuilder::new()
        .src("A".to_string())
        .dst("B".to_string())
        .amount("1000".to_string())
        .from_addr("0xabc".to_string())
        .slippage(5)
        .unwrap()
        .build()
        .unwrap();
    let ps = swap_params(d);
    assert_eq!(ps, pairs(&[("from", "0xabc"), ("slippage", "5"), ("src", "A"), ("dst", "B"), ("amount", "1000")]));
    assert_eq!(query(&ps), "from=0xabc&slippage=5&src=A&dst=B&amount=1000");
}

#[test]
fn minimal_v6_query() {
    let d = SwapDetailsV6Builder::new()
        .src("A".to_string())
        .dst("B".to_string())
        .amount("1000".to_string())
        .from("0xabc".to_string())
        .origin("0xabc".to_string())
        .slippage(5)
        .unwrap()
        .build()
        .unwrap();
    let ps = swap_v6_params(d);
    assert_eq!(query(&ps), "from=0xabc&slippage=5&src=A&dst=B&amount=1000&origin=0xabc");
}

#[test]
fn optional_fields_in_query() {
    let d = SwapDetailsV6Builder::new()
        .src("A".to_string())
        .dst("B".to_string())
        .amount("1000000000000000000".to_string())
        .from("0xf".to_string())
        .origin("0xo".to_string())
        .slippage(10)
        .unwrap()
        .fee(0)
        .unwrap()
        .gas_price(1000000000.to_string())
        .gas_limit(10000000)
        .disable_estimate(true)
        .use_permit2(false)
        .referrer("me".to_string())
        .build()
        .unwrap();
    let ps = swap_v6_params(d);
    assert_eq!(
        query(&ps),
        "from=0xf&slippage=10&src=A&dst=B&amount=1000000000000000000&origin=0xo&disableEstimate=true&fee=0&gasLimit=10000000&gasPrice=1000000000&referrer=me&usePermit2=false"
    );
    for name in ["allowPartialFill", "includeGas", "parts", "protocols", "permit", "receiver"] {
        assert!(ps.iter().all(|(k, _)| k != name));
    }
    for name in ["disableEstimate", "fee", "gasLimit", "gasPrice", "referrer", "usePermit2"] {
        assert_eq!(ps.iter().filter(|(k, _)| k == name).count(), 1);
    }
}

#[test]
fn legacy_round_trip_of_set_fields() {
    let d = SwapDetailsBuilder::new()
        .src("A".to_string())
        .dst("B".to_string())
        .amount("5".to_string())
        .from_addr("0x1".to_string())
        .slippage(50)
        .unwrap()
        .include_tokens_info(true)
        .complexity_level(2)
        .main_route_parts(3)
        .connector_tokens("0xc".to_string())
        .build()
        .unwrap();
    let ps = swap_params(d);
    let optional: Vec<(String, String)> = ps[5..].to_vec();
    assert_eq!(
        optional,
        pairs(&[("includeTokensInfo", "true"), ("complexityLevel", "2"), ("mainRouteParts", "3"), ("connectorTokens", "0xc")])
    );
}

fn query_of(url: &str) -> Vec<(String, String)> {
    reqwest::Url::parse(url).unwrap().query_pairs().map(|(k, v)| (k.into_owned(), v.into_owned())).collect()
}

#[test]
fn legacy_url_scenario() {
    let d = SwapDetailsBuilder::new()
        .src("A".to_string())
        .dst("B".to_string())
        .amount("1000".to_string())
        .from_addr("0xabc".to_string())
        .slippage(5)
        .unwrap()
        .build()
        .unwrap();
    let url = oneinch_swap::swap_url(8453, d).unwrap();
    assert_eq!(url, "https://api.1inch.dev/swap/v5.2/8453/swap/?from=0xabc&slippage=5&src=A&dst=B&amount=1000");
}

#[test]
fn v6_url_round_trip() {
    let make = || {
        SwapDetailsV6Builder::new()
            .src("0x4200000000000000000000000000000000000006".to_string())
            .dst("0x833589fcd6edb6e08f4c7c32d4f71b54bda02913".to_string())
            .amount("1000000000000000000".to_string())
            .from("0xDCc3100ba3768D277cABffe2f117887A661ee5A4".to_string())
            .origin("0xDCc3100ba3768D277cABffe2f117887A661ee5A4".to_string())
            .slippage(10)
            .unwrap()
            .fee(0)
            .unwrap()
            .gas_price(1000000000.to_string())
            .gas_limit(10000000)
            .disable_estimate(true)
            .use_permit2(true)
            .protocols("UNISWAP_V3,CURVE".to_string())
            .build()
            .unwrap()
    };
    let url = oneinch_swap::swap_v6_url(8453, make()).unwrap();
    assert!(url.starts_with("https://api.1inch.dev/swap/v6.0/8453/swap/?"));
    assert!(url.contains("protocols=UNISWAP_V3%2CCURVE"));
    assert_eq!(query_of(&url), swap_v6_params(make()));
}
