//! CSI parameters as the `vte` parser hands them out, and the rules by which
//! the shims read a single value out of them.

use vstd::prelude::*;

verus! {

/// The parameter list of a CSI sequence, as parsed by `vte`.
#[verifier::external_type_specification]
#[verifier::external_body]
pub struct ExParams(vte::Params);

/// What a `vte::Params` holds: one entry per parameter, each entry the
/// parameter followed by its `:`-separated subparameters.
pub uninterp spec fn params_groups_view(params: vte::Params) -> Seq<Seq<u16>>;

/// Hands out the groups of a `vte::Params`, in order, through
/// `vte::Params::iter`; each group is copied into a `Vec`.
#[verifier::external_body]
pub(crate) fn params_groups(params: &vte::Params) -> (groups: Vec<Vec<u16>>)
    ensures
        groups@.len() == params_groups_view(*params).len(),
        forall|i: int| 0 <= i < groups@.len() ==> #[trigger] groups@[i]@ == params_groups_view(*params)[i],
{
    params.iter().map(<[u16]>::to_vec).collect()
}

/// The first value of the `n`-th parameter, if that parameter is present and
/// holds a value.
pub open spec fn nth_first(groups: Seq<Seq<u16>>, n: int) -> Option<u16> {
    if 0 <= n < groups.len() && groups[n].len() > 0 {
        Some(groups[n][0])
    } else {
        None
    }
}

/// The VT-100 reading of a count parameter: a missing or zero value means 1.
pub open spec fn count_or_one(value: Option<u16>) -> u16 {
    match value {
        Some(v) => if v == 0 { 1 } else { v },
        None => 1,
    }
}

/// The VT-100 reading of a selector parameter: a missing value means 0.
pub open spec fn value_or_zero(value: Option<u16>) -> u16 {
    match value {
        Some(v) => v,
        None => 0,
    }
}

/// The first value of the `n`-th group, read from plain groups.
pub fn nth_single_opt_raw(groups: &Vec<Vec<u16>>, n: usize) -> (value: Option<u16>)
    ensures
        value == nth_first(groups@.map_values(|g: Vec<u16>| g@), n as int),
{
    let ghost view = groups@.map_values(|g: Vec<u16>| g@);
    if n < groups.len() && groups[n].len() > 0 {
        assert(view[n as int] == groups@[n as int]@);
        Some(groups[n][0])
    } else {
        proof {
            if n < groups.len() {
                assert(view[n as int] == groups@[n as int]@);
            }
        }
        None
    }
}

/// The first value of the `n`-th group read as a count: missing or zero is 1.
pub fn nth_single_non_zero(groups: &Vec<Vec<u16>>, n: usize) -> (count: u16)
    ensures
        count == count_or_one(nth_first(groups@.map_values(|g: Vec<u16>| g@), n as int)),
        count >= 1,
{
    match nth_single_opt_raw(groups, n) {
        Some(v) => if v == 0 { 1 } else { v },
        None => 1,
    }
}

/// The first value of the `n`-th parameter of `params`, if there is one.
pub fn extract_nth_single_opt_raw(params: &vte::Params, n: usize) -> (value: Option<u16>)
    ensures
        value == nth_first(params_groups_view(*params), n as int),
{
    let groups = params_groups(params);
    assert(groups@.map_values(|g: Vec<u16>| g@) =~= params_groups_view(*params));
    nth_single_opt_raw(&groups, n)
}

/// The `n`-th parameter of `params` read as a count: a missing or zero
/// parameter counts as 1.
pub fn extract_nth_single_non_zero(params: &vte::Params, n: usize) -> (count: u16)
    ensures
        count == count_or_one(nth_first(params_groups_view(*params), n as int)),
        count >= 1,
{
    let groups = params_groups(params);
    assert(groups@.map_values(|g: Vec<u16>| g@) =~= params_groups_view(*params));
    nth_single_non_zero(&groups, n)
}

} // verus!
