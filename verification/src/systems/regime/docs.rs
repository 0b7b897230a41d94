//! Query parameters of the registry documentation page.
use vstd::prelude::*;
use crate::sdk_core::text::{join_comma, join_with};
use crate::systems::primitives::types::{
    selector_family_names, selector_group_names, opt_family_names, opt_group_names,
    opt_names_or_empty,
};
use crate::systems::regime::types::DocsRegistryRequest;

verus! {

/// The values joined with commas; none when there are none.
pub fn csv_param(values: Vec<String>) -> (r: Option<String>)
    ensures
        values@.len() == 0 ==> r is None,
        values@.len() > 0 ==> (r matches Some(s) && s@ == join_with(values.deep_view(), seq![','])),
{
    if values.len() == 0 {
        None
    } else {
        Some(join_comma(&values))
    }
}

impl DocsRegistryRequest {
    /// The `family` and `group` query parameters: selector names joined with
    /// commas, each left out when no selector is given.
    pub fn query(&self) -> (r: (Option<String>, Option<String>))
        ensures
            opt_names_or_empty(opt_family_names(self.family)).len() == 0 ==> r.0 is None,
            opt_names_or_empty(opt_family_names(self.family)).len() > 0 ==> (r.0 matches Some(s) && s@
                == join_with(opt_names_or_empty(opt_family_names(self.family)), seq![','])),
            opt_names_or_empty(opt_group_names(self.group)).len() == 0 ==> r.1 is None,
            opt_names_or_empty(opt_group_names(self.group)).len() > 0 ==> (r.1 matches Some(s) && s@
                == join_with(opt_names_or_empty(opt_group_names(self.group)), seq![','])),
    {
        let family = selector_family_names(&self.family);
        let group = selector_group_names(&self.group);
        (csv_param(family), csv_param(group))
    }
}

} // verus!
