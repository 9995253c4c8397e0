use oneinch_swap::{
    QuoteDetailsBuilder, QuoteDetailsBuilderError, SwapDetailsBuilder, SwapDetailsBuilderError,
    SwapDetailsV6Builder,
};

#[test]
fn test_valid_swap_details_builder() {
    let swap_details = SwapDetailsBuilder::new()
        .src("from_token".to_string())
        .dst("to_token".to_string())
        .amount("1000".to_string())
        .from_addr("from_addr".to_string())
        .slippage(5)
        .expect("Invalid slippage")
        .disable_estimate(false)
        .allow_partial_fill(false)
        .build()
        .expect("Failed to build SwapDetails");

    assert_eq!(swap_details.src, "from_token");
    assert_eq!(swap_details.dst, "to_token");
    assert_eq!(swap_details.amount, "1000");
    assert_eq!(swap_details.from, "from_addr");
    assert_eq!(swap_details.slippage, 5);
    assert!(!swap_details.disable_estimate.unwrap());
    assert!(!swap_details.allow_partial_fill.unwrap());
}

#[test]
fn test_invalid_slippage_in_builder() {
    let result = SwapDetailsBuilder::new()
        .src("from_token".to_string())
        .dst("to_token".to_string())
        .amount("1000".to_string())
        .from_addr("from_addr".to_string())
        .slippage(102);

    assert!(result.is_err());
    if let Err(err) = result {
        assert_eq!(err, SwapDetailsBuilderError::InvalidSlippage);
    }
}

#[test]
fn slippage_bounds() {
    assert!(SwapDetailsBuilder::new().slippage(50).is_ok());
    assert!(SwapDetailsBuilder::new().slippage(0).is_ok());
    for s in [51usize, 100, usize::MAX] {
        assert_eq!(SwapDetailsBuilder::new().slippage(s).err(), Some(SwapDetailsBuilderError::InvalidSlippage));
        assert_eq!(SwapDetailsV6Builder::new().slippage(s).err(), Some(SwapDetailsBuilderError::InvalidSlippage));
    }
}

#[test]
fn fee_bounds() {
    assert!(SwapDetailsBuilder::new().fee(3).is_ok());
    assert!(QuoteDetailsBuilder::new().fee(0).is_ok());
    for f in [4u8, 10, 255] {
        assert_eq!(SwapDetailsBuilder::new().fee(f).err(), Some(SwapDetailsBuilderError::InvalidFee));
        assert_eq!(QuoteDetailsBuilder::new().fee(f).err(), Some(QuoteDetailsBuilderError::InvalidFee));
        assert_eq!(SwapDetailsV6Builder::new().fee(f).err(), Some(QuoteDetailsBuilderError::InvalidFee));
    }
}

#[test]
fn fee_is_kept_when_valid() {
    let d = SwapDetailsBuilder::new()
        .src("A".to_string())
        .dst("B".to_string())
        .amount("1".to_string())
        .from_addr("0x1".to_string())
        .slippage(1)
        .unwrap()
        .fee(2)
        .unwrap()
        .build()
        .unwrap();
    assert_eq!(d.fee, Some(2));
}

#[test]
fn missing_fields_in_order() {
    assert_eq!(SwapDetailsBuilder::new().build().err(), Some(SwapDetailsBuilderError::MissingField("src")));
    let b = SwapDetailsBuilder::new().src("A".to_string()).dst("B".to_string()).amount("1".to_string());
    assert_eq!(b.build().err(), Some(SwapDetailsBuilderError::MissingField("from_addr")));
    let b = SwapDetailsBuilder::new()
        .src("A".to_string())
        .dst("B".to_string())
        .amount("1".to_string())
        .from_addr("0x1".to_string());
    assert_eq!(b.build().err(), Some(SwapDetailsBuilderError::MissingField("slippage")));
    let b = QuoteDetailsBuilder::new().src("A".to_string());
    assert_eq!(b.build().err(), Some(QuoteDetailsBuilderError::MissingField("dst")));
    let b = SwapDetailsV6Builder::new()
        .src("A".to_string())
        .dst("B".to_string())
        .amount("1".to_string())
        .from("0x1".to_string())
        .slippage(1)
        .unwrap();
    assert_eq!(b.build().err(), Some(SwapDetailsBuilderError::MissingField("origin")));
}

#[test]
fn quote_builder_builds() {
    let q = QuoteDetailsBuilder::new()
        .src("A".to_string())
        .dst("B".to_string())
        .amount("10".to_string())
        .gas_limit(7)
        .build()
        .unwrap();
    assert_eq!(q.src, "A");
    assert_eq!(q.dst, "B");
    assert_eq!(q.amount, "10");
    assert_eq!(q.gas_limit, Some(7));
    assert_eq!(q.fee, None);
}

#[test]
fn error_messages() {
    assert_eq!(SwapDetailsBuilderError::MissingField("src").message(), "Missing src");
    assert_eq!(
        SwapDetailsBuilderError::InvalidSlippage.message(),
        "Invalid slippage value. It should be between 0 and 50."
    );
    assert_eq!(QuoteDetailsBuilderError::InvalidFee.message(), "Invalid fee value. It should be between 0 and 3.");
}

#[test]
fn build_rejects_out_of_range_fields_written_directly() {
    let mut b = SwapDetailsBuilder::new()
        .src("A".to_string())
        .dst("B".to_string())
        .amount("1".to_string())
        .from_addr("0x1".to_string());
    b.slippage = Some(51);
    assert_eq!(b.build().err(), Some(SwapDetailsBuilderError::InvalidSlippage));

    let mut b = SwapDetailsV6Builder::new()
        .src("A".to_string())
        .dst("B".to_string())
        .amount("1".to_string())
        .from("0x1".to_string())
        .origin("0x1".to_string())
        .slippage(1)
        .unwrap();
    b.fee = Some(4);
    assert_eq!(b.build().err(), Some(SwapDetailsBuilderError::InvalidFee));

    let mut q = QuoteDetailsBuilder::new().src("A".to_string()).dst("B".to_string()).amount("1".to_string());
    q.fee = Some(9);
    assert_eq!(q.build().err(), Some(QuoteDetailsBuilderError::InvalidFee));
}
