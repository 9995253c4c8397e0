use vstd::prelude::*;

verus! {

/// Failures while assembling a swap request.
#[derive(Debug, PartialEq, Eq)]
pub enum SwapDetailsBuilderError {
    /// A required field was never set; carries the field's name.
    MissingField(&'static str),
    /// The slippage exceeds the allowed maximum of 50 percent.
    InvalidSlippage,
    /// The fee exceeds the allowed maximum of 3.
    InvalidFee,
}

/// Failures while assembling a quote request.
#[derive(Debug, PartialEq, Eq)]
pub enum QuoteDetailsBuilderError {
    /// A required field was never set; carries the field's name.
    MissingField(&'static str),
    /// The fee exceeds the allowed maximum of 3.
    InvalidFee,
}

impl SwapDetailsBuilderError {
    /// Human-readable description of the error.
    pub fn message(&self) -> (r: String)
        ensures
            match self {
                SwapDetailsBuilderError::MissingField(f) => r@ == "Missing "@ + f@,
                SwapDetailsBuilderError::InvalidSlippage => r@
                    == "Invalid slippage value. It should be between 0 and 50."@,
                SwapDetailsBuilderError::InvalidFee => r@
                    == "Invalid fee value. It should be between 0 and 3."@,
            },
    {
        match self {
            SwapDetailsBuilderError::MissingField(f) => String::from_str("Missing ").concat(f),
            SwapDetailsBuilderError::InvalidSlippage => String::from_str(
                "Invalid slippage value. It should be between 0 and 50.",
            ),
            SwapDetailsBuilderError::InvalidFee => String::from_str(
                "Invalid fee value. It should be between 0 and 3.",
            ),
        }
    }
}

impl QuoteDetailsBuilderError {
    /// Human-readable description of the error.
    pub fn message(&self) -> (r: String)
        ensures
            match self {
                QuoteDetailsBuilderError::MissingField(f) => r@ == "Missing "@ + f@,
                QuoteDetailsBuilderError::InvalidFee => r@
                    == "Invalid fee value. It should be between 0 and 3."@,
            },
    {
        match self {
            QuoteDetailsBuilderError::MissingField(f) => String::from_str("Missing ").concat(f),
            QuoteDetailsBuilderError::InvalidFee => String::from_str(
                "Invalid fee value. It should be between 0 and 3.",
            ),
        }
    }
}

} // verus!
