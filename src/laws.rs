use vstd::prelude::*;

use crate::params::{
    flatten_optional, optional_pair, swap_optional_fields, swap_params_spec,
    swap_required_params, swap_v6_optional_fields, swap_v6_params_spec, swap_v6_required_params,
};
use crate::swap_details::{SwapDetails, SwapDetailsBuilder};
use crate::swap_details_v6::{SwapDetailsV6, SwapDetailsV6Builder};

verus! {

/// The values of all pairs named `k`, in order.
pub open spec fn values_named(ps: Seq<(Seq<char>, Seq<char>)>, k: Seq<char>) -> Seq<Seq<char>>
    decreases ps.len(),
{
    if ps.len() == 0 {
        seq![]
    } else {
        values_named(ps.drop_last(), k) + (if ps.last().0 == k {
            seq![ps.last().1]
        } else {
            seq![]
        })
    }
}

/// Reading a query back by name: the value of the first pair named `k`.
pub open spec fn lookup(ps: Seq<(Seq<char>, Seq<char>)>, k: Seq<char>) -> Option<Seq<char>> {
    if values_named(ps, k).len() > 0 {
        Some(values_named(ps, k)[0])
    } else {
        None
    }
}

/// No value, or the one value that is set.
pub open spec fn opt_seq(v: Option<Seq<char>>) -> Seq<Seq<char>> {
    match v {
        Some(x) => seq![x],
        None => seq![],
    }
}

/// Names of the required pairs followed by names of the optional fields.
pub open spec fn field_names(
    req: Seq<(Seq<char>, Seq<char>)>,
    fs: Seq<(Seq<char>, Option<Seq<char>>)>,
) -> Seq<Seq<char>> {
    req.map_values(|p: (Seq<char>, Seq<char>)| p.0) + fs.map_values(
        |e: (Seq<char>, Option<Seq<char>>)| e.0,
    )
}

/// Every name that either request version sends.
pub open spec fn all_param_names() -> Seq<Seq<char>> {
    seq![
        "from"@,
        "slippage"@,
        "src"@,
        "dst"@,
        "amount"@,
        "origin"@,
        "disableEstimate"@,
        "allowPartialFill"@,
        "includeGas"@,
        "includeProtocols"@,
        "includeTokensInfo"@,
        "fee"@,
        "complexityLevel"@,
        "parts"@,
        "mainRouteParts"@,
        "gasLimit"@,
        "protocols"@,
        "gasPrice"@,
        "connectorTokens"@,
        "permit"@,
        "receiver"@,
        "referrer"@,
        "usePermit2"@,
    ]
}

proof fn lemma_all_param_names_distinct()
    ensures
        all_param_names().no_duplicates(),
{
    reveal_strlit("from");
    reveal_strlit("slippage");
    reveal_strlit("src");
    reveal_strlit("dst");
    reveal_strlit("amount");
    reveal_strlit("origin");
    reveal_strlit("disableEstimate");
    reveal_strlit("allowPartialFill");
    reveal_strlit("includeGas");
    reveal_strlit("includeProtocols");
    reveal_strlit("includeTokensInfo");
    reveal_strlit("fee");
    reveal_strlit("complexityLevel");
    reveal_strlit("parts");
    reveal_strlit("mainRouteParts");
    reveal_strlit("gasLimit");
    reveal_strlit("protocols");
    reveal_strlit("gasPrice");
    reveal_strlit("connectorTokens");
    reveal_strlit("permit");
    reveal_strlit("receiver");
    reveal_strlit("referrer");
    reveal_strlit("usePermit2");
    let n = all_param_names();
    assert forall|i: int, j: int|
        0 <= i < n.len() && 0 <= j < n.len() && i != j implies n[i] != n[j] by {
        if n[i] == n[j] {
            assert(n[i].len() == n[j].len());
            assert(n[i][0] == n[j][0]);
            assert(n[i][1] == n[j][1]);
            assert(n[i][2] == n[j][2]);
            assert(n[i][3] == n[j][3]);
        }
    }
}

proof fn lemma_values_named_concat(
    a: Seq<(Seq<char>, Seq<char>)>,
    b: Seq<(Seq<char>, Seq<char>)>,
    k: Seq<char>,
)
    ensures
        values_named(a + b, k) == values_named(a, k) + values_named(b, k),
    decreases b.len(),
{
    if b.len() == 0 {
        assert(a + b =~= a);
        assert(values_named(b, k) =~= Seq::<Seq<char>>::empty());
        assert(values_named(a, k) + values_named(b, k) =~= values_named(a, k));
    } else {
        assert((a + b).drop_last() =~= a + b.drop_last());
        assert((a + b).last() == b.last());
        lemma_values_named_concat(a, b.drop_last(), k);
        let tail = if b.last().0 == k {
            seq![b.last().1]
        } else {
            seq![]
        };
        assert(values_named(a, k) + values_named(b.drop_last(), k) + tail =~= values_named(a, k)
            + (values_named(b.drop_last(), k) + tail));
    }
}

proof fn lemma_values_named_absent(ps: Seq<(Seq<char>, Seq<char>)>, k: Seq<char>)
    requires
        forall|i: int| 0 <= i < ps.len() ==> ps[i].0 != k,
    ensures
        values_named(ps, k) =~= Seq::<Seq<char>>::empty(),
    decreases ps.len(),
{
    if ps.len() > 0 {
        lemma_values_named_absent(ps.drop_last(), k);
    }
}

proof fn lemma_values_named_single(ps: Seq<(Seq<char>, Seq<char>)>, i: int)
    requires
        0 <= i < ps.len(),
        forall|j: int| 0 <= j < ps.len() && j != i ==> ps[j].0 != ps[i].0,
    ensures
        values_named(ps, ps[i].0) =~= seq![ps[i].1],
    decreases ps.len(),
{
    let k = ps[i].0;
    if i == ps.len() - 1 {
        lemma_values_named_absent(ps.drop_last(), k);
    } else {
        lemma_values_named_single(ps.drop_last(), i);
    }
}

proof fn lemma_values_named_optional_pair(n: Seq<char>, v: Option<Seq<char>>, k: Seq<char>)
    ensures
        values_named(optional_pair(n, v), k) =~= (if n == k {
            opt_seq(v)
        } else {
            seq![]
        }),
{
    let p = optional_pair(n, v);
    if p.len() > 0 {
        assert(p.drop_last() =~= Seq::<(Seq<char>, Seq<char>)>::empty());
        assert(values_named(p.drop_last(), k) =~= Seq::<Seq<char>>::empty());
        assert(p.last() == (n, v.unwrap()));
    } else {
        assert(values_named(p, k) =~= Seq::<Seq<char>>::empty());
    }
}

proof fn lemma_values_named_flatten(fs: Seq<(Seq<char>, Option<Seq<char>>)>, k: Seq<char>)
    requires
        forall|i: int, j: int| 0 <= i < fs.len() && 0 <= j < fs.len() && i != j ==> fs[i].0 != fs[j].0,
    ensures
        forall|j: int|
            0 <= j < fs.len() && fs[j].0 == k ==> values_named(flatten_optional(fs), k) =~= opt_seq(
                fs[j].1,
            ),
        (forall|j: int| 0 <= j < fs.len() ==> fs[j].0 != k) ==> values_named(
            flatten_optional(fs),
            k,
        ) =~= Seq::<Seq<char>>::empty(),
    decreases fs.len(),
{
    if fs.len() > 0 {
        let init = fs.drop_last();
        let last = fs.last();
        lemma_values_named_flatten(init, k);
        lemma_values_named_concat(flatten_optional(init), optional_pair(last.0, last.1), k);
        lemma_values_named_optional_pair(last.0, last.1, k);
        if last.0 == k {
            assert forall|j: int| 0 <= j < init.len() implies init[j].0 != k by {
                assert(fs[j].0 != fs[fs.len() - 1].0);
            }
            assert forall|j: int| 0 <= j < fs.len() && fs[j].0 == k implies j == fs.len() - 1 by {
                if j != fs.len() - 1 {
                    assert(fs[j].0 != fs[fs.len() - 1].0);
                }
            }
        } else {
            assert forall|j: int| 0 <= j < fs.len() && fs[j].0 == k implies j < init.len()
                && init[j] == fs[j] by {}
        }
    }
}

proof fn lemma_flatten_from_fields(fs: Seq<(Seq<char>, Option<Seq<char>>)>)
    ensures
        forall|i: int|
            0 <= i < flatten_optional(fs).len() ==> exists|j: int|
                0 <= j < fs.len() && #[trigger] fs[j].0 == (#[trigger] flatten_optional(fs)[i]).0,
    decreases fs.len(),
{
    if fs.len() > 0 {
        let init = fs.drop_last();
        lemma_flatten_from_fields(init);
        let last = fs.last();
        let f = flatten_optional(fs);
        assert forall|i: int| 0 <= i < f.len() implies exists|j: int|
            0 <= j < fs.len() && #[trigger] fs[j].0 == (#[trigger] f[i]).0 by {
            if i < flatten_optional(init).len() {
                let fi = flatten_optional(init);
                assert(f[i] == fi[i]);
                let j = choose|j: int| 0 <= j < init.len() && #[trigger] init[j].0 == fi[i].0;
                assert(fs[j] == init[j]);
            } else {
                assert(f[i] == optional_pair(last.0, last.1)[i - flatten_optional(init).len()]);
                assert(fs[fs.len() - 1].0 == f[i].0);
            }
        }
    }
}

/// What the query states of each field, given that the field names are distinct.
proof fn lemma_query_fields(
    req: Seq<(Seq<char>, Seq<char>)>,
    fs: Seq<(Seq<char>, Option<Seq<char>>)>,
)
    requires
        field_names(req, fs).no_duplicates(),
    ensures
        forall|j: int|
            0 <= j < fs.len() ==> #[trigger] values_named(req + flatten_optional(fs), fs[j].0)
                =~= opt_seq(fs[j].1),
        forall|j: int|
            0 <= j < req.len() ==> #[trigger] values_named(req + flatten_optional(fs), req[j].0)
                =~= seq![req[j].1],
        forall|i: int|
            0 <= i < (req + flatten_optional(fs)).len() ==> #[trigger] field_names(req, fs).contains(
                (req + flatten_optional(fs))[i].0,
            ),
{
    let names = field_names(req, fs);
    let q = req + flatten_optional(fs);
    assert forall|i: int, j: int|
        0 <= i < fs.len() && 0 <= j < fs.len() && i != j implies fs[i].0 != fs[j].0 by {
        assert(names[req.len() + i] == fs[i].0);
        assert(names[req.len() + j] == fs[j].0);
    }
    assert forall|j: int| 0 <= j < fs.len() implies #[trigger] values_named(q, fs[j].0) =~= opt_seq(
        fs[j].1,
    ) by {
        lemma_values_named_concat(req, flatten_optional(fs), fs[j].0);
        assert forall|i: int| 0 <= i < req.len() implies req[i].0 != fs[j].0 by {
            assert(names[i] == req[i].0);
            assert(names[req.len() + j] == fs[j].0);
        }
        lemma_values_named_absent(req, fs[j].0);
        lemma_values_named_flatten(fs, fs[j].0);
    }
    assert forall|j: int| 0 <= j < req.len() implies #[trigger] values_named(q, req[j].0) =~= seq![
        req[j].1,
    ] by {
        lemma_values_named_concat(req, flatten_optional(fs), req[j].0);
        assert forall|i: int| 0 <= i < req.len() && i != j implies req[i].0 != req[j].0 by {
            assert(names[i] == req[i].0);
            assert(names[j] == req[j].0);
        }
        lemma_values_named_single(req, j);
        assert forall|i: int| 0 <= i < fs.len() implies fs[i].0 != req[j].0 by {
            assert(names[req.len() + i] == fs[i].0);
            assert(names[j] == req[j].0);
        }
        lemma_values_named_flatten(fs, req[j].0);
    }
    lemma_flatten_from_fields(fs);
    assert forall|i: int| 0 <= i < q.len() implies #[trigger] names.contains(q[i].0) by {
        if i < req.len() {
            assert(names[i] == req[i].0);
        } else {
            let f = flatten_optional(fs);
            let j = choose|j: int| 0 <= j < fs.len() && #[trigger] fs[j].0 == f[i - req.len()].0;
            assert(names[req.len() + j] == fs[j].0);
        }
    }
}


proof fn lemma_swap_names_distinct(d: SwapDetails)
    ensures
        field_names(swap_required_params(d), swap_optional_fields(d)).no_duplicates(),
{
    lemma_all_param_names_distinct();
    let all = all_param_names();
    let names = field_names(swap_required_params(d), swap_optional_fields(d));
    assert(names =~= all.subrange(0, 5) + all.subrange(6, 22));
    assert forall|i: int, j: int|
        0 <= i < names.len() && 0 <= j < names.len() && i != j implies names[i] != names[j] by {
        let pi = if i < 5 { i } else { i + 1 };
        let pj = if j < 5 { j } else { j + 1 };
        assert(names[i] == all[pi]);
        assert(names[j] == all[pj]);
    }
}

proof fn lemma_swap_v6_names_distinct(d: SwapDetailsV6)
    ensures
        field_names(swap_v6_required_params(d), swap_v6_optional_fields(d)).no_duplicates(),
{
    lemma_all_param_names_distinct();
    assert(field_names(swap_v6_required_params(d), swap_v6_optional_fields(d)) =~= all_param_names());
}

/// In a legacy swap query, an optional field that is unset has no pair, and one
/// that is set has exactly one pair, holding the value's canonical text.
pub proof fn lemma_swap_optional_params(d: SwapDetails)
    ensures
        forall|j: int|
            0 <= j < swap_optional_fields(d).len() ==> #[trigger] values_named(
                swap_params_spec(d),
                swap_optional_fields(d)[j].0,
            ) == opt_seq(swap_optional_fields(d)[j].1),
{
    lemma_swap_names_distinct(d);
    lemma_query_fields(swap_required_params(d), swap_optional_fields(d));
}

/// In a v6 swap query, an optional field that is unset has no pair, and one
/// that is set has exactly one pair, holding the value's canonical text.
pub proof fn lemma_swap_v6_optional_params(d: SwapDetailsV6)
    ensures
        forall|j: int|
            0 <= j < swap_v6_optional_fields(d).len() ==> #[trigger] values_named(
                swap_v6_params_spec(d),
                swap_v6_optional_fields(d)[j].0,
            ) == opt_seq(swap_v6_optional_fields(d)[j].1),
{
    lemma_swap_v6_names_distinct(d);
    lemma_query_fields(swap_v6_required_params(d), swap_v6_optional_fields(d));
}

/// Reading a legacy swap query back by name gives every required value and
/// exactly the optional fields that were set, and the query holds no name
/// outside the request's fields.
pub proof fn lemma_swap_params_round_trip(d: SwapDetails)
    ensures
        forall|j: int|
            0 <= j < swap_optional_fields(d).len() ==> #[trigger] lookup(
                swap_params_spec(d),
                swap_optional_fields(d)[j].0,
            ) == swap_optional_fields(d)[j].1,
        forall|j: int|
            0 <= j < swap_required_params(d).len() ==> #[trigger] lookup(
                swap_params_spec(d),
                swap_required_params(d)[j].0,
            ) == Some(swap_required_params(d)[j].1),
        forall|i: int|
            0 <= i < swap_params_spec(d).len() ==> #[trigger] field_names(
                swap_required_params(d),
                swap_optional_fields(d),
            ).contains(swap_params_spec(d)[i].0),
{
    let req = swap_required_params(d);
    let fs = swap_optional_fields(d);
    lemma_swap_names_distinct(d);
    lemma_query_fields(req, fs);
    assert forall|j: int| 0 <= j < fs.len() implies #[trigger] lookup(swap_params_spec(d), fs[j].0)
        == fs[j].1 by {
        assert(values_named(swap_params_spec(d), fs[j].0) =~= opt_seq(fs[j].1));
    }
    assert forall|j: int| 0 <= j < req.len() implies #[trigger] lookup(swap_params_spec(d), req[j].0)
        == Some(req[j].1) by {
        assert(values_named(swap_params_spec(d), req[j].0) =~= seq![req[j].1]);
    }
}

/// Reading a v6 swap query back by name gives every required value and
/// exactly the optional fields that were set, and the query holds no name
/// outside the request's fields.
pub proof fn lemma_swap_v6_params_round_trip(d: SwapDetailsV6)
    ensures
        forall|j: int|
            0 <= j < swap_v6_optional_fields(d).len() ==> #[trigger] lookup(
                swap_v6_params_spec(d),
                swap_v6_optional_fields(d)[j].0,
            ) == swap_v6_optional_fields(d)[j].1,
        forall|j: int|
            0 <= j < swap_v6_required_params(d).len() ==> #[trigger] lookup(
                swap_v6_params_spec(d),
                swap_v6_required_params(d)[j].0,
            ) == Some(swap_v6_required_params(d)[j].1),
        forall|i: int|
            0 <= i < swap_v6_params_spec(d).len() ==> #[trigger] field_names(
                swap_v6_required_params(d),
                swap_v6_optional_fields(d),
            ).contains(swap_v6_params_spec(d)[i].0),
{
    let req = swap_v6_required_params(d);
    let fs = swap_v6_optional_fields(d);
    lemma_swap_v6_names_distinct(d);
    lemma_query_fields(req, fs);
    assert forall|j: int| 0 <= j < fs.len() implies #[trigger] lookup(
        swap_v6_params_spec(d),
        fs[j].0,
    ) == fs[j].1 by {
        assert(values_named(swap_v6_params_spec(d), fs[j].0) =~= opt_seq(fs[j].1));
    }
    assert forall|j: int| 0 <= j < req.len() implies #[trigger] lookup(
        swap_v6_params_spec(d),
        req[j].0,
    ) == Some(req[j].1) by {
        assert(values_named(swap_v6_params_spec(d), req[j].0) =~= seq![req[j].1]);
    }
}

proof fn lemma_flatten_all_unset(fs: Seq<(Seq<char>, Option<Seq<char>>)>)
    requires
        forall|j: int| 0 <= j < fs.len() ==> fs[j].1 is None,
    ensures
        flatten_optional(fs) =~= Seq::<(Seq<char>, Seq<char>)>::empty(),
    decreases fs.len(),
{
    if fs.len() > 0 {
        lemma_flatten_all_unset(fs.drop_last());
    }
}

/// A legacy builder with every required field set and no optional field set
/// builds a request whose query is exactly the required pairs.
pub proof fn lemma_swap_build_minimal(b: SwapDetailsBuilder)
    requires
        b.spec_missing() is None,
        b.fee is None,
        b.protocols is None,
        b.gas_price is None,
        b.complexity_level is None,
        b.parts is None,
        b.main_route_parts is None,
        b.gas_limit is None,
        b.include_tokens_info is None,
        b.include_protocols is None,
        b.include_gas is None,
        b.connector_tokens is None,
        b.permit is None,
        b.receiver is None,
        b.referrer is None,
        b.disable_estimate is None,
        b.allow_partial_fill is None,
    ensures
        swap_params_spec(b.spec_details()) == swap_required_params(b.spec_details()),
{
    let d = b.spec_details();
    lemma_flatten_all_unset(swap_optional_fields(d));
    assert(swap_params_spec(d) =~= swap_required_params(d));
}

/// A v6 builder with every required field set and no optional field set
/// builds a request whose query is exactly the required pairs.
pub proof fn lemma_swap_v6_build_minimal(b: SwapDetailsV6Builder)
    requires
        b.spec_missing() is None,
        b.fee is None,
        b.protocols is None,
        b.gas_price is None,
        b.complexity_level is None,
        b.parts is None,
        b.main_route_parts is None,
        b.gas_limit is None,
        b.include_tokens_info is None,
        b.include_protocols is None,
        b.include_gas is None,
        b.connector_tokens is None,
        b.permit is None,
        b.receiver is None,
        b.referrer is None,
        b.disable_estimate is None,
        b.allow_partial_fill is None,
        b.use_permit2 is None,
    ensures
        swap_v6_params_spec(b.spec_details()) == swap_v6_required_params(b.spec_details()),
{
    let d = b.spec_details();
    lemma_flatten_all_unset(swap_v6_optional_fields(d));
    assert(swap_v6_params_spec(d) =~= swap_v6_required_params(d));
}

} // verus!
