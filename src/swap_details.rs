use vstd::prelude::*;

use crate::errors::SwapDetailsBuilderError;

verus! {

/// A validated request for the legacy swap endpoint.
#[derive(Debug, Clone)]
pub struct SwapDetails {
    /// Source token address.
    pub src: String,
    /// Destination token address.
    pub dst: String,
    /// Amount to swap, as a decimal string of arbitrary precision.
    pub amount: String,
    /// Address of the user initiating the swap.
    pub from: String,
    /// Permitted slippage percentage, at most 50.
    pub slippage: usize,
    pub fee: Option<u8>,
    pub protocols: Option<String>,
    pub gas_price: Option<String>,
    pub complexity_level: Option<u128>,
    pub parts: Option<u128>,
    pub main_route_parts: Option<u128>,
    pub gas_limit: Option<u128>,
    pub include_tokens_info: Option<bool>,
    pub include_protocols: Option<bool>,
    pub include_gas: Option<bool>,
    pub connector_tokens: Option<String>,
    pub permit: Option<String>,
    pub receiver: Option<String>,
    pub referrer: Option<String>,
    /// If true, the server skips its estimation.
    pub disable_estimate: Option<bool>,
    /// If true, the swap may be partially filled.
    pub allow_partial_fill: Option<bool>,
}

/// Accumulates the fields of a [`SwapDetails`]; every field starts unset.
pub struct SwapDetailsBuilder {
    pub src: Option<String>,
    pub dst: Option<String>,
    pub amount: Option<String>,
    pub from_addr: Option<String>,
    pub slippage: Option<usize>,
    pub fee: Option<u8>,
    pub protocols: Option<String>,
    pub gas_price: Option<String>,
    pub complexity_level: Option<u128>,
    pub parts: Option<u128>,
    pub main_route_parts: Option<u128>,
    pub gas_limit: Option<u128>,
    pub include_tokens_info: Option<bool>,
    pub include_protocols: Option<bool>,
    pub include_gas: Option<bool>,
    pub connector_tokens: Option<String>,
    pub permit: Option<String>,
    pub receiver: Option<String>,
    pub referrer: Option<String>,
    pub disable_estimate: Option<bool>,
    pub allow_partial_fill: Option<bool>,
}

impl SwapDetailsBuilder {
    /// The builder with no field set.
    pub open spec fn spec_empty() -> Self {
        SwapDetailsBuilder {
            src: None,
            dst: None,
            amount: None,
            from_addr: None,
            slippage: None,
            fee: None,
            protocols: None,
            gas_price: None,
            complexity_level: None,
            parts: None,
            main_route_parts: None,
            gas_limit: None,
            include_tokens_info: None,
            include_protocols: None,
            include_gas: None,
            connector_tokens: None,
            permit: None,
            receiver: None,
            referrer: None,
            disable_estimate: None,
            allow_partial_fill: None,
        }
    }

    /// The first required field that is unset, checked in the order
    /// src, dst, amount, from_addr, slippage.
    pub open spec fn spec_missing(self) -> Option<Seq<char>> {
        if self.src is None {
            Some("src"@)
        } else if self.dst is None {
            Some("dst"@)
        } else if self.amount is None {
            Some("amount"@)
        } else if self.from_addr is None {
            Some("from_addr"@)
        } else if self.slippage is None {
            Some("slippage"@)
        } else {
            None
        }
    }

    /// The request this builder describes, meaningful once nothing is missing.
    pub open spec fn spec_details(self) -> SwapDetails {
        SwapDetails {
            src: self.src.unwrap(),
            dst: self.dst.unwrap(),
            amount: self.amount.unwrap(),
            from: self.from_addr.unwrap(),
            slippage: self.slippage.unwrap(),
            fee: self.fee,
            protocols: self.protocols,
            gas_price: self.gas_price,
            complexity_level: self.complexity_level,
            parts: self.parts,
            main_route_parts: self.main_route_parts,
            gas_limit: self.gas_limit,
            include_tokens_info: self.include_tokens_info,
            include_protocols: self.include_protocols,
            include_gas: self.include_gas,
            connector_tokens: self.connector_tokens,
            permit: self.permit,
            receiver: self.receiver,
            referrer: self.referrer,
            disable_estimate: self.disable_estimate,
            allow_partial_fill: self.allow_partial_fill,
        }
    }

    /// Creates a builder with every field unset.
    pub fn new() -> (r: Self)
        ensures
            r == Self::spec_empty(),
    {
        SwapDetailsBuilder {
            src: None,
            dst: None,
            amount: None,
            from_addr: None,
            slippage: None,
            fee: None,
            protocols: None,
            gas_price: None,
            complexity_level: None,
            parts: None,
            main_route_parts: None,
            gas_limit: None,
            include_tokens_info: None,
            include_protocols: None,
            include_gas: None,
            connector_tokens: None,
            permit: None,
            receiver: None,
            referrer: None,
            disable_estimate: None,
            allow_partial_fill: None,
        }
    }

    /// Sets the fee; fails with `InvalidFee` when it exceeds 3.
    pub fn fee(self, fee: u8) -> (r: Result<Self, SwapDetailsBuilderError>)
        ensures
            fee > 3 ==> r == Err::<Self, SwapDetailsBuilderError>(
                SwapDetailsBuilderError::InvalidFee,
            ),
            fee <= 3 ==> r == Ok::<Self, SwapDetailsBuilderError>(
                Self { fee: Some(fee), ..self },
            ),
    {
        if fee > 3 {
            return Err(SwapDetailsBuilderError::InvalidFee);
        }
        Ok(Self { fee: Some(fee), ..self })
    }

    /// Sets the slippage; fails with `InvalidSlippage` when it exceeds 50.
    pub fn slippage(self, slippage: usize) -> (r: Result<Self, SwapDetailsBuilderError>)
        ensures
            slippage > 50 ==> r == Err::<Self, SwapDetailsBuilderError>(
                SwapDetailsBuilderError::InvalidSlippage,
            ),
            slippage <= 50 ==> r == Ok::<Self, SwapDetailsBuilderError>(
                Self { slippage: Some(slippage), ..self },
            ),
    {
        if slippage > 50 {
            return Err(SwapDetailsBuilderError::InvalidSlippage);
        }
        Ok(Self { slippage: Some(slippage), ..self })
    }

    /// Finishes the request: names the first required field left unset, or
    /// rejects a slippage over 50 or a fee over 3 written to the fields directly.
    pub fn build(self) -> (r: Result<SwapDetails, SwapDetailsBuilderError>)
        ensures
            match self.spec_missing() {
                Some(name) => r matches Err(SwapDetailsBuilderError::MissingField(f)) && f@
                    == name,
                None => if self.slippage.unwrap() > 50 {
                    r == Err::<SwapDetails, SwapDetailsBuilderError>(SwapDetailsBuilderError::InvalidSlippage)
                } else if self.fee is Some && self.fee.unwrap() > 3 {
                    r == Err::<SwapDetails, SwapDetailsBuilderError>(SwapDetailsBuilderError::InvalidFee)
                } else {
                    r == Ok::<SwapDetails, SwapDetailsBuilderError>(self.spec_details())
                },
            },
    {
        let src = match self.src {
            Some(v) => v,
            None => return Err(SwapDetailsBuilderError::MissingField("src")),
        };
        let dst = match self.dst {
            Some(v) => v,
            None => return Err(SwapDetailsBuilderError::MissingField("dst")),
        };
        let amount = match self.amount {
            Some(v) => v,
            None => return Err(SwapDetailsBuilderError::MissingField("amount")),
        };
        let from = match self.from_addr {
            Some(v) => v,
            None => return Err(SwapDetailsBuilderError::MissingField("from_addr")),
        };
        let slippage = match self.slippage {
            Some(v) => v,
            None => return Err(SwapDetailsBuilderError::MissingField("slippage")),
        };
        if slippage > 50 {
            return Err(SwapDetailsBuilderError::InvalidSlippage);
        }
        if let Some(f) = self.fee {
            if f > 3 {
                return Err(SwapDetailsBuilderError::InvalidFee);
            }
        }
        Ok(SwapDetails {
            src,
            dst,
            amount,
            from,
            slippage,
            fee: self.fee,
            protocols: self.protocols,
            gas_price: self.gas_price,
            complexity_level: self.complexity_level,
            parts: self.parts,
            main_route_parts: self.main_route_parts,
            gas_limit: self.gas_limit,
            include_tokens_info: self.include_tokens_info,
            include_protocols: self.include_protocols,
            include_gas: self.include_gas,
            connector_tokens: self.connector_tokens,
            permit: self.permit,
            receiver: self.receiver,
            referrer: self.referrer,
            disable_estimate: self.disable_estimate,
            allow_partial_fill: self.allow_partial_fill,
        })
    }

    /// Sets `src`.
    pub fn src(self, src: String) -> (r: Self)
        ensures
            r == (Self { src: Some(src), ..self }),
    {
        Self { src: Some(src), ..self }
    }

    /// Sets `dst`.
    pub fn dst(self, dst: String) -> (r: Self)
        ensures
            r == (Self { dst: Some(dst), ..self }),
    {
        Self { dst: Some(dst), ..self }
    }

    /// Sets `amount`.
    pub fn amount(self, amount: String) -> (r: Self)
        ensures
            r == (Self { amount: Some(amount), ..self }),
    {
        Self { amount: Some(amount), ..self }
    }

    /// Sets `from_addr`.
    pub fn from_addr(self, from_addr: String) -> (r: Self)
        ensures
            r == (Self { from_addr: Some(from_addr), ..self }),
    {
        Self { from_addr: Some(from_addr), ..self }
    }

    /// Sets `protocols`.
    pub fn protocols(self, protocols: String) -> (r: Self)
        ensures
            r == (Self { protocols: Some(protocols), ..self }),
    {
        Self { protocols: Some(protocols), ..self }
    }

    /// Sets `gas_price`.
    pub fn gas_price(self, gas_price: String) -> (r: Self)
        ensures
            r == (Self { gas_price: Some(gas_price), ..self }),
    {
        Self { gas_price: Some(gas_price), ..self }
    }

    /// Sets `complexity_level`.
    pub fn complexity_level(self, complexity_level: u128) -> (r: Self)
        ensures
            r == (Self { complexity_level: Some(complexity_level), ..self }),
    {
        Self { complexity_level: Some(complexity_level), ..self }
    }

    /// Sets `parts`.
    pub fn parts(self, parts: u128) -> (r: Self)
        ensures
            r == (Self { parts: Some(parts), ..self }),
    {
        Self { parts: Some(parts), ..self }
    }

    /// Sets `main_route_parts`.
    pub fn main_route_parts(self, main_route_parts: u128) -> (r: Self)
        ensures
            r == (Self { main_route_parts: Some(main_route_parts), ..self }),
    {
        Self { main_route_parts: Some(main_route_parts), ..self }
    }

    /// Sets `gas_limit`.
    pub fn gas_limit(self, gas_limit: u128) -> (r: Self)
        ensures
            r == (Self { gas_limit: Some(gas_limit), ..self }),
    {
        Self { gas_limit: Some(gas_limit), ..self }
    }

    /// Sets `include_tokens_info`.
    pub fn include_tokens_info(self, include_tokens_info: bool) -> (r: Self)
        ensures
            r == (Self { include_tokens_info: Some(include_tokens_info), ..self }),
    {
        Self { include_tokens_info: Some(include_tokens_info), ..self }
    }

    /// Sets `include_protocols`.
    pub fn include_protocols(self, include_protocols: bool) -> (r: Self)
        ensures
            r == (Self { include_protocols: Some(include_protocols), ..self }),
    {
        Self { include_protocols: Some(include_protocols), ..self }
    }

    /// Sets `include_gas`.
    pub fn include_gas(self, include_gas: bool) -> (r: Self)
        ensures
            r == (Self { include_gas: Some(include_gas), ..self }),
    {
        Self { include_gas: Some(include_gas), ..self }
    }

    /// Sets `connector_tokens`.
    pub fn connector_tokens(self, connector_tokens: String) -> (r: Self)
        ensures
            r == (Self { connector_tokens: Some(connector_tokens), ..self }),
    {
        Self { connector_tokens: Some(connector_tokens), ..self }
    }

    /// Sets `permit`.
    pub fn permit(self, permit: String) -> (r: Self)
        ensures
            r == (Self { permit: Some(permit), ..self }),
    {
        Self { permit: Some(permit), ..self }
    }

    /// Sets `receiver`.
    pub fn receiver(self, receiver: String) -> (r: Self)
        ensures
            r == (Self { receiver: Some(receiver), ..self }),
    {
        Self { receiver: Some(receiver), ..self }
    }

    /// Sets `referrer`.
    pub fn referrer(self, referrer: String) -> (r: Self)
        ensures
            r == (Self { referrer: Some(referrer), ..self }),
    {
        Self { referrer: Some(referrer), ..self }
    }

    /// Sets `disable_estimate`.
    pub fn disable_estimate(self, disable_estimate: bool) -> (r: Self)
        ensures
            r == (Self { disable_estimate: Some(disable_estimate), ..self }),
    {
        Self { disable_estimate: Some(disable_estimate), ..self }
    }

    /// Sets `allow_partial_fill`.
    pub fn allow_partial_fill(self, allow_partial_fill: bool) -> (r: Self)
        ensures
            r == (Self { allow_partial_fill: Some(allow_partial_fill), ..self }),
    {
        Self { allow_partial_fill: Some(allow_partial_fill), ..self }
    }

}

} // verus!
