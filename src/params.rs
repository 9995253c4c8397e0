use vstd::prelude::*;

use crate::swap_details::SwapDetails;
use crate::swap_details_v6::SwapDetailsV6;
use crate::text::{bool_string, bool_text, decimal_string, decimal_text};

verus! {

/// A query pair as text: name and value.
pub open spec fn pairs_view(ps: Seq<(String, String)>) -> Seq<(Seq<char>, Seq<char>)> {
    ps.map_values(|p: (String, String)| (p.0@, p.1@))
}

/// An optional field as text: name, and value when set.
pub open spec fn entries_view(es: Seq<(String, Option<String>)>) -> Seq<(Seq<char>, Option<Seq<char>>)> {
    es.map_values(|e: (String, Option<String>)| (e.0@, opt_view(e.1)))
}

pub open spec fn opt_view(s: Option<String>) -> Option<Seq<char>> {
    match s {
        Some(v) => Some(v@),
        None => None,
    }
}

pub open spec fn opt_bool_text(b: Option<bool>) -> Option<Seq<char>> {
    match b {
        Some(v) => Some(bool_text(v)),
        None => None,
    }
}

pub open spec fn opt_decimal_text(n: Option<u128>) -> Option<Seq<char>> {
    match n {
        Some(v) => Some(decimal_text(v as nat)),
        None => None,
    }
}

pub open spec fn opt_fee_text(n: Option<u8>) -> Option<Seq<char>> {
    match n {
        Some(v) => Some(decimal_text(v as nat)),
        None => None,
    }
}

/// The pair for one optional field: one pair when set, none when unset.
pub open spec fn optional_pair(name: Seq<char>, value: Option<Seq<char>>) -> Seq<(Seq<char>, Seq<char>)> {
    match value {
        Some(v) => seq![(name, v)],
        None => seq![],
    }
}

/// The pairs of a list of optional fields, in the list's order.
pub open spec fn flatten_optional(fs: Seq<(Seq<char>, Option<Seq<char>>)>) -> Seq<(Seq<char>, Seq<char>)>
    decreases fs.len(),
{
    if fs.len() == 0 {
        seq![]
    } else {
        flatten_optional(fs.drop_last()) + optional_pair(fs.last().0, fs.last().1)
    }
}

/// Optional fields of a legacy swap request, in the order they are sent.
pub open spec fn swap_optional_fields(d: SwapDetails) -> Seq<(Seq<char>, Option<Seq<char>>)> {
    seq![
        ("disableEstimate"@, opt_bool_text(d.disable_estimate)),
        ("allowPartialFill"@, opt_bool_text(d.allow_partial_fill)),
        ("includeGas"@, opt_bool_text(d.include_gas)),
        ("includeProtocols"@, opt_bool_text(d.include_protocols)),
        ("includeTokensInfo"@, opt_bool_text(d.include_tokens_info)),
        ("fee"@, opt_fee_text(d.fee)),
        ("complexityLevel"@, opt_decimal_text(d.complexity_level)),
        ("parts"@, opt_decimal_text(d.parts)),
        ("mainRouteParts"@, opt_decimal_text(d.main_route_parts)),
        ("gasLimit"@, opt_decimal_text(d.gas_limit)),
        ("protocols"@, opt_view(d.protocols)),
        ("gasPrice"@, opt_view(d.gas_price)),
        ("connectorTokens"@, opt_view(d.connector_tokens)),
        ("permit"@, opt_view(d.permit)),
        ("receiver"@, opt_view(d.receiver)),
        ("referrer"@, opt_view(d.referrer)),
    ]
}

/// Required pairs of a legacy swap request, in the order they are sent.
pub open spec fn swap_required_params(d: SwapDetails) -> Seq<(Seq<char>, Seq<char>)> {
    seq![
        ("from"@, d.from@),
        ("slippage"@, decimal_text(d.slippage as nat)),
        ("src"@, d.src@),
        ("dst"@, d.dst@),
        ("amount"@, d.amount@),
    ]
}

/// The full query of a legacy swap request.
pub open spec fn swap_params_spec(d: SwapDetails) -> Seq<(Seq<char>, Seq<char>)> {
    swap_required_params(d) + flatten_optional(swap_optional_fields(d))
}

/// Optional fields of a v6 swap request, in the order they are sent.
pub open spec fn swap_v6_optional_fields(d: SwapDetailsV6) -> Seq<(Seq<char>, Option<Seq<char>>)> {
    seq![
        ("disableEstimate"@, opt_bool_text(d.disable_estimate)),
        ("allowPartialFill"@, opt_bool_text(d.allow_partial_fill)),
        ("includeGas"@, opt_bool_text(d.include_gas)),
        ("includeProtocols"@, opt_bool_text(d.include_protocols)),
        ("includeTokensInfo"@, opt_bool_text(d.include_tokens_info)),
        ("fee"@, opt_fee_text(d.fee)),
        ("complexityLevel"@, opt_decimal_text(d.complexity_level)),
        ("parts"@, opt_decimal_text(d.parts)),
        ("mainRouteParts"@, opt_decimal_text(d.main_route_parts)),
        ("gasLimit"@, opt_decimal_text(d.gas_limit)),
        ("protocols"@, opt_view(d.protocols)),
        ("gasPrice"@, opt_view(d.gas_price)),
        ("connectorTokens"@, opt_view(d.connector_tokens)),
        ("permit"@, opt_view(d.permit)),
        ("receiver"@, opt_view(d.receiver)),
        ("referrer"@, opt_view(d.referrer)),
        ("usePermit2"@, opt_bool_text(d.use_permit2)),
    ]
}

/// Required pairs of a v6 swap request, in the order they are sent.
pub open spec fn swap_v6_required_params(d: SwapDetailsV6) -> Seq<(Seq<char>, Seq<char>)> {
    seq![
        ("from"@, d.from@),
        ("slippage"@, decimal_text(d.slippage as nat)),
        ("src"@, d.src@),
        ("dst"@, d.dst@),
        ("amount"@, d.amount@),
        ("origin"@, d.origin@),
    ]
}

/// The full query of a v6 swap request.
pub open spec fn swap_v6_params_spec(d: SwapDetailsV6) -> Seq<(Seq<char>, Seq<char>)> {
    swap_v6_required_params(d) + flatten_optional(swap_v6_optional_fields(d))
}

fn opt_bool_string(b: Option<bool>) -> (r: Option<String>)
    ensures
        opt_view(r) == opt_bool_text(b),
{
    match b {
        Some(v) => Some(bool_string(v)),
        None => None,
    }
}

fn opt_decimal_string(n: Option<u128>) -> (r: Option<String>)
    ensures
        opt_view(r) == opt_decimal_text(n),
{
    match n {
        Some(v) => Some(decimal_string(v)),
        None => None,
    }
}

fn opt_fee_string(n: Option<u8>) -> (r: Option<String>)
    ensures
        opt_view(r) == opt_fee_text(n),
{
    match n {
        Some(v) => Some(decimal_string(v as u128)),
        None => None,
    }
}

fn named(name: &str, value: Option<String>) -> (r: (String, Option<String>))
    ensures
        r.0@ == name@,
        opt_view(r.1) == opt_view(value),
{
    (String::from_str(name), value)
}

/// Appends one pair for each set entry, in order, and none for unset ones.
pub fn append_optional(params: &mut Vec<(String, String)>, entries: Vec<(String, Option<String>)>)
    ensures
        pairs_view(final(params)@) == pairs_view(old(params)@) + flatten_optional(
            entries_view(entries@),
        ),
{
    let ghost start = pairs_view(params@);
    let ghost all = entries_view(entries@);
    let mut rest = entries;
    let ghost mut done: int = 0;
    proof {
        assert(all.subrange(0, 0) =~= Seq::<(Seq<char>, Option<Seq<char>>)>::empty());
        assert(all.subrange(0, all.len() as int) =~= all);
        assert(start + flatten_optional(all.subrange(0, 0)) =~= start);
    }
    while rest.len() > 0
        invariant
            0 <= done <= all.len(),
            entries_view(rest@) =~= all.subrange(done, all.len() as int),
            pairs_view(params@) == start + flatten_optional(all.subrange(0, done)),
        decreases rest.len(),
    {
        let ghost before = pairs_view(params@);
        let ghost rest_before = rest@;
        proof {
            assert(entries_view(rest_before).len() == all.len() - done);
            assert(entries_view(rest_before)[0] == all.subrange(done, all.len() as int)[0]);
        }
        let (name, value) = rest.remove(0);
        proof {
            assert(rest_before[0] == (name, value));
            assert(entries_view(rest_before)[0] == all[done]);
            assert(entries_view(rest@) =~= entries_view(rest_before).drop_first());
        }
        match value {
            Some(v) => {
                params.push((name, v));
                assert(pairs_view(params@) =~= before.push((all[done].0, all[done].1.unwrap())));
            },
            None => {},
        }
        proof {
            let next = all.subrange(0, done + 1);
            assert(next.drop_last() =~= all.subrange(0, done));
            assert(next.last() == all[done]);
            assert(optional_pair(all[done].0, all[done].1) =~= (match all[done].1 {
                Some(v) => seq![(all[done].0, v)],
                None => seq![],
            }));
            done = done + 1;
            assert(entries_view(rest@) =~= all.subrange(done, all.len() as int));
            assert(pairs_view(params@) =~= start + flatten_optional(all.subrange(0, done)));
        }
    }
    proof {
        assert(all.subrange(0, done) =~= all);
    }
}


/// Lays out a legacy swap request as query pairs: the required pairs first, then one
/// pair for each optional field that is set.
pub fn swap_params(details: SwapDetails) -> (r: Vec<(String, String)>)
    ensures
        pairs_view(r@) == swap_params_spec(details),
{
    let ghost d = details;
    let mut params: Vec<(String, String)> = Vec::new();
    params.push((String::from_str("from"), details.from));
    params.push((String::from_str("slippage"), decimal_string(details.slippage as u128)));
    params.push((String::from_str("src"), details.src));
    params.push((String::from_str("dst"), details.dst));
    params.push((String::from_str("amount"), details.amount));
    proof {
        assert(pairs_view(params@) =~= swap_required_params(d));
    }
    let mut entries: Vec<(String, Option<String>)> = Vec::new();
    entries.push(named("disableEstimate", opt_bool_string(details.disable_estimate)));
    entries.push(named("allowPartialFill", opt_bool_string(details.allow_partial_fill)));
    entries.push(named("includeGas", opt_bool_string(details.include_gas)));
    entries.push(named("includeProtocols", opt_bool_string(details.include_protocols)));
    entries.push(named("includeTokensInfo", opt_bool_string(details.include_tokens_info)));
    entries.push(named("fee", opt_fee_string(details.fee)));
    entries.push(named("complexityLevel", opt_decimal_string(details.complexity_level)));
    entries.push(named("parts", opt_decimal_string(details.parts)));
    entries.push(named("mainRouteParts", opt_decimal_string(details.main_route_parts)));
    entries.push(named("gasLimit", opt_decimal_string(details.gas_limit)));
    entries.push(named("protocols", details.protocols));
    entries.push(named("gasPrice", details.gas_price));
    entries.push(named("connectorTokens", details.connector_tokens));
    entries.push(named("permit", details.permit));
    entries.push(named("receiver", details.receiver));
    entries.push(named("referrer", details.referrer));
    proof {
        assert(entries_view(entries@) =~= swap_optional_fields(d));
    }
    append_optional(&mut params, entries);
    params
}

/// Lays out a v6 swap request as query pairs: the required pairs first, then one
/// pair for each optional field that is set.
pub fn swap_v6_params(details: SwapDetailsV6) -> (r: Vec<(String, String)>)
    ensures
        pairs_view(r@) == swap_v6_params_spec(details),
{
    let ghost d = details;
    let mut params: Vec<(String, String)> = Vec::new();
    params.push((String::from_str("from"), details.from));
    params.push((String::from_str("slippage"), decimal_string(details.slippage as u128)));
    params.push((String::from_str("src"), details.src));
    params.push((String::from_str("dst"), details.dst));
    params.push((String::from_str("amount"), details.amount));
    params.push((String::from_str("origin"), details.origin));
    proof {
        assert(pairs_view(params@) =~= swap_v6_required_params(d));
    }
    let mut entries: Vec<(String, Option<String>)> = Vec::new();
    entries.push(named("disableEstimate", opt_bool_string(details.disable_estimate)));
    entries.push(named("allowPartialFill", opt_bool_string(details.allow_partial_fill)));
    entries.push(named("includeGas", opt_bool_string(details.include_gas)));
    entries.push(named("includeProtocols", opt_bool_string(details.include_protocols)));
    entries.push(named("includeTokensInfo", opt_bool_string(details.include_tokens_info)));
    entries.push(named("fee", opt_fee_string(details.fee)));
    entries.push(named("complexityLevel", opt_decimal_string(details.complexity_level)));
    entries.push(named("parts", opt_decimal_string(details.parts)));
    entries.push(named("mainRouteParts", opt_decimal_string(details.main_route_parts)));
    entries.push(named("gasLimit", opt_decimal_string(details.gas_limit)));
    entries.push(named("protocols", details.protocols));
    entries.push(named("gasPrice", details.gas_price));
    entries.push(named("connectorTokens", details.connector_tokens));
    entries.push(named("permit", details.permit));
    entries.push(named("receiver", details.receiver));
    entries.push(named("referrer", details.referrer));
    entries.push(named("usePermit2", opt_bool_string(details.use_permit2)));
    proof {
        assert(entries_view(entries@) =~= swap_v6_optional_fields(d));
    }
    append_optional(&mut params, entries);
    params
}

} // verus!
