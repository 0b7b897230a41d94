//! Query parameters of the pair listings.
use vstd::prelude::*;
use crate::sdk_core::text::{join_comma, join_with, trimmed_nonblank};
use crate::systems::aggregator::types::join_optional_pair_values_csv;
use crate::systems::primitives::types::{normalize_optional_pair_values, normalized_opt_pairs, opt_deep};
use crate::systems::regime::types::PairsStatusRequest;

verus! {

/// The pairs trimmed, blanks dropped, joined with commas; none when nothing
/// is left.
pub fn csv_string_param(values: &Option<Vec<String>>) -> (r: Option<String>)
    ensures
        match normalized_opt_pairs(*values) {
            Some(s) => r matches Some(t) && t@ == join_with(s, seq![',']),
            None => r is None,
        },
{
    match normalize_optional_pair_values(values) {
        Some(v) => Some(join_comma(&v)),
        None => None,
    }
}

/// The values trimmed, blanks dropped, joined with commas; none when the
/// result is empty.
pub fn csv_vec_param(values: &Option<Vec<String>>) -> (r: Option<String>)
    ensures
        match *values {
            Some(v) => {
                let joined = join_with(trimmed_nonblank(v.deep_view()), seq![',']);
                if joined.len() > 0 { r matches Some(s) && s@ == joined } else { r is None }
            },
            None => r is None,
        },
{
    join_optional_pair_values_csv(values.as_ref())
}

/// The query of a pair status listing.
#[derive(Debug, Clone, PartialEq, Eq)]
pub struct PairsStatusQuery {
    pub after_pair: Option<String>,
    pub limit: Option<i64>,
    pub pairs: Option<String>,
    pub filters: Option<String>,
}

impl PairsStatusRequest {
    /// The query parameters: pairs and filters as comma lists.
    pub fn query(&self) -> (r: PairsStatusQuery)
        ensures
            r.after_pair == self.after_pair,
            r.limit == self.limit,
            match normalized_opt_pairs(self.pairs) {
                Some(s) => r.pairs matches Some(t) && t@ == join_with(s, seq![',']),
                None => r.pairs is None,
            },
            match self.filters {
                Some(v) => {
                    let joined = join_with(trimmed_nonblank(v.deep_view()), seq![',']);
                    if joined.len() > 0 { r.filters matches Some(s) && s@ == joined } else { r.filters is None }
                },
                None => r.filters is None,
            },
    {
        PairsStatusQuery {
            after_pair: crate::sdk_core::text::clone_opt_string(&self.after_pair),
            limit: self.limit,
            pairs: csv_string_param(&self.pairs),
            filters: csv_vec_param(&self.filters),
        }
    }
}

} // verus!
