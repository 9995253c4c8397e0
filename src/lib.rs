pub mod errors;
pub mod laws;
pub mod params;
pub mod quote_details;
pub mod request;
pub mod response;
pub mod swap_details;
pub mod swap_details_v6;
pub mod text;

pub use errors::{QuoteDetailsBuilderError, SwapDetailsBuilderError};
pub use params::{append_optional, swap_params, swap_v6_params};
pub use quote_details::{QuoteDetails, QuoteDetailsBuilder};
pub use request::{swap_url, swap_v6_url};
pub use response::{
    error_from_body, http_failure, legacy_outcome, route_response, status_text, v6_outcome,
    HttpExceptionMeta, ResponseRoute, SwapError, SwapRequestError, SwapTranactionData,
};
pub use swap_details::{SwapDetails, SwapDetailsBuilder};
pub use swap_details_v6::{SwapDetailsV6, SwapDetailsV6Builder};
pub use text::{bool_string, decimal_string};
