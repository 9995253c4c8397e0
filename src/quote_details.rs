use vstd::prelude::*;

use crate::errors::QuoteDetailsBuilderError;

verus! {

/// A validated request for the quote endpoint.
#[derive(Debug, Clone)]
pub struct QuoteDetails {
    /// Source token address.
    pub src: String,
    /// Destination token address.
    pub dst: String,
    /// Amount to swap, as a decimal string of arbitrary precision.
    pub amount: String,
    pub fee: Option<u8>,
    pub protocols: Option<String>,
    pub gas_price: Option<String>,
    pub complexity_level: Option<u128>,
    pub parts: Option<u128>,
    pub main_route_parts: Option<u128>,
    pub gas_limit: Option<u128>,
    pub include_tokens_info: Option<bool>,
    pub include_protocols: Option<bool>,
    pub include_gas: Option<bool>,
    pub connector_tokens: Option<String>,
}

/// Accumulates the fields of a [`QuoteDetails`]; every field starts unset.
pub struct QuoteDetailsBuilder {
    pub src: Option<String>,
    pub dst: Option<String>,
    pub amount: Option<String>,
    pub fee: Option<u8>,
    pub protocols: Option<String>,
    pub gas_price: Option<String>,
    pub complexity_level: Option<u128>,
    pub parts: Option<u128>,
    pub main_route_parts: Option<u128>,
    pub gas_limit: Option<u128>,
    pub include_tokens_info: Option<bool>,
    pub include_protocols: Option<bool>,
    pub include_gas: Option<bool>,
    pub connector_tokens: Option<String>,
}

impl QuoteDetailsBuilder {
    /// The builder with no field set.
    pub open spec fn spec_empty() -> Self {
        QuoteDetailsBuilder {
            src: None,
            dst: None,
            amount: None,
            fee: None,
            protocols: None,
            gas_price: None,
            complexity_level: None,
            parts: None,
            main_route_parts: None,
            gas_limit: None,
            include_tokens_info: None,
            include_protocols: None,
            include_gas: None,
            connector_tokens: None,
        }
    }

    /// The first required field that is unset, checked in the order
    /// src, dst, amount.
    pub open spec fn spec_missing(self) -> Option<Seq<char>> {
        if self.src is None {
            Some("src"@)
        } else if self.dst is None {
            Some("dst"@)
        } else if self.amount is None {
            Some("amount"@)
        } else {
            None
        }
    }

    /// The request this builder describes, meaningful once nothing is missing.
    pub open spec fn spec_details(self) -> QuoteDetails {
        QuoteDetails {
            src: self.src.unwrap(),
            dst: self.dst.unwrap(),
            amount: self.amount.unwrap(),
            fee: self.fee,
            protocols: self.protocols,
            gas_price: self.gas_price,
            complexity_level: self.complexity_level,
            parts: self.parts,
            main_route_parts: self.main_route_parts,
            gas_limit: self.gas_limit,
            include_tokens_info: self.include_tokens_info,
            include_protocols: self.include_protocols,
            include_gas: self.include_gas,
            connector_tokens: self.connector_tokens,
        }
    }

    /// Creates a builder with every field unset.
    pub fn new() -> (r: Self)
        ensures
            r == Self::spec_empty(),
    {
        QuoteDetailsBuilder {
            src: None,
            dst: None,
            amount: None,
            fee: None,
            protocols: None,
            gas_price: None,
            complexity_level: None,
            parts: None,
            main_route_parts: None,
            gas_limit: None,
            include_tokens_info: None,
            include_protocols: None,
            include_gas: None,
            connector_tokens: None,
        }
    }

    /// Sets the fee; fails with `InvalidFee` when it exceeds 3.
    pub fn fee(self, fee: u8) -> (r: Result<Self, QuoteDetailsBuilderError>)
        ensures
            fee > 3 ==> r == Err::<Self, QuoteDetailsBuilderError>(QuoteDetailsBuilderError::InvalidFee),
            fee <= 3 ==> r == Ok::<Self, QuoteDetailsBuilderError>(Self { fee: Some(fee), ..self }),
    {
        if fee > 3 {
            return Err(QuoteDetailsBuilderError::InvalidFee);
        }
        Ok(Self { fee: Some(fee), ..self })
    }

    /// Finishes the request: names the first required field left unset, or
    /// rejects a fee over 3 written to the field directly.
    pub fn build(self) -> (r: Result<QuoteDetails, QuoteDetailsBuilderError>)
        ensures
            match self.spec_missing() {
                Some(name) => r matches Err(QuoteDetailsBuilderError::MissingField(f)) && f@ == name,
                None => if self.fee is Some && self.fee.unwrap() > 3 {
                    r == Err::<QuoteDetails, QuoteDetailsBuilderError>(QuoteDetailsBuilderError::InvalidFee)
                } else {
                    r == Ok::<QuoteDetails, QuoteDetailsBuilderError>(self.spec_details())
                },
            },
    {
        let src = match self.src {
            Some(v) => v,
            None => return Err(QuoteDetailsBuilderError::MissingField("src")),
        };
        let dst = match self.dst {
            Some(v) => v,
            None => return Err(QuoteDetailsBuilderError::MissingField("dst")),
        };
        let amount = match self.amount {
            Some(v) => v,
            None => return Err(QuoteDetailsBuilderError::MissingField("amount")),
        };
        if let Some(f) = self.fee {
            if f > 3 {
                return Err(QuoteDetailsBuilderError::InvalidFee);
            }
        }
        Ok(QuoteDetails {
            src,
            dst,
            amount,
            fee: self.fee,
            protocols: self.protocols,
            gas_price: self.gas_price,
            complexity_level: self.complexity_level,
            parts: self.parts,
            main_route_parts: self.main_route_parts,
            gas_limit: self.gas_limit,
            include_tokens_info: self.include_tokens_info,
            include_protocols: self.include_protocols,
            include_gas: self.include_gas,
            connector_tokens: self.connector_tokens,
        })
    }

    /// Sets `src`.
    pub fn src(self, src: String) -> (r: Self)
        ensures
            r == (Self { src: Some(src), ..self }),
    {
        Self { src: Some(src), ..self }
    }

    /// Sets `dst`.
    pub fn dst(self, dst: String) -> (r: Self)
        ensures
            r == (Self { dst: Some(dst), ..self }),
    {
        Self { dst: Some(dst), ..self }
    }

    /// Sets `amount`.
    pub fn amount(self, amount: String) -> (r: Self)
        ensures
            r == (Self { amount: Some(amount), ..self }),
    {
        Self { amount: Some(amount), ..self }
    }

    /// Sets `protocols`.
    pub fn protocols(self, protocols: String) -> (r: Self)
        ensures
            r == (Self { protocols: Some(protocols), ..self }),
    {
        Self { protocols: Some(protocols), ..self }
    }

    /// Sets `gas_price`.
    pub fn gas_price(self, gas_price: String) -> (r: Self)
        ensures
            r == (Self { gas_price: Some(gas_price), ..self }),
    {
        Self { gas_price: Some(gas_price), ..self }
    }

    /// Sets `complexity_level`.
    pub fn complexity_level(self, complexity_level: u128) -> (r: Self)
        ensures
            r == (Self { complexity_level: Some(complexity_level), ..self }),
    {
        Self { complexity_level: Some(complexity_level), ..self }
    }

    /// Sets `parts`.
    pub fn parts(self, parts: u128) -> (r: Self)
        ensures
            r == (Self { parts: Some(parts), ..self }),
    {
        Self { parts: Some(parts), ..self }
    }

    /// Sets `main_route_parts`.
    pub fn main_route_parts(self, main_route_parts: u128) -> (r: Self)
        ensures
            r == (Self { main_route_parts: Some(main_route_parts), ..self }),
    {
        Self { main_route_parts: Some(main_route_parts), ..self }
    }

    /// Sets `gas_limit`.
    pub fn gas_limit(self, gas_limit: u128) -> (r: Self)
        ensures
            r == (Self { gas_limit: Some(gas_limit), ..self }),
    {
        Self { gas_limit: Some(gas_limit), ..self }
    }

    /// Sets `include_tokens_info`.
    pub fn include_tokens_info(self, include_tokens_info: bool) -> (r: Self)
        ensures
            r == (Self { include_tokens_info: Some(include_tokens_info), ..self }),
    {
        Self { include_tokens_info: Some(include_tokens_info), ..self }
    }

    /// Sets `include_protocols`.
    pub fn include_protocols(self, include_protocols: bool) -> (r: Self)
        ensures
            r == (Self { include_protocols: Some(include_protocols), ..self }),
    {
        Self { include_protocols: Some(include_protocols), ..self }
    }

    /// Sets `include_gas`.
    pub fn include_gas(self, include_gas: bool) -> (r: Self)
        ensures
            r == (Self { include_gas: Some(include_gas), ..self }),
    {
        Self { include_gas: Some(include_gas), ..self }
    }

    /// Sets `connector_tokens`.
    pub fn connector_tokens(self, connector_tokens: String) -> (r: Self)
        ensures
            r == (Self { connector_tokens: Some(connector_tokens), ..self }),
    {
        Self { connector_tokens: Some(connector_tokens), ..self }
    }
}

} // verus!
