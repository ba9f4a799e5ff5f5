use vstd::prelude::*;

use crate::game::{BaseElementType, TowerDetails};

verus! {

/// One condition a filter may impose on a tower record, one variant per
/// filterable field, named after the field it constrains.
#[derive(Clone, Debug)]
pub enum FilterCondition {
    NAME(String),
    COST(u32),
    ELEMENT_TYPE(BaseElementType),
}

/// A conjunction of conditions on a tower record. An empty filter lets
/// every record through.
#[derive(Clone, Debug)]
pub struct Filter {
    pub conditions: Vec<FilterCondition>,
}

/// Whether one condition holds of a tower record: the named field equals
/// the condition's value.
pub open spec fn condition_holds(t: TowerDetails, c: FilterCondition) -> bool {
    match c {
        FilterCondition::NAME(v) => t.name@ == v@,
        FilterCondition::COST(v) => t.cost == v,
        FilterCondition::ELEMENT_TYPE(v) => t.element_type == v,
    }
}

impl TowerDetails {
    /// Whether the record passes the filter: trivially with no conditions,
    /// otherwise exactly when every condition holds of it.
    pub fn matches(&self, filter: &Filter) -> (r: bool)
        ensures
            r == (filter.conditions@.len() == 0 || forall|i: int|
                0 <= i < filter.conditions@.len() ==> condition_holds(
                    *self,
                    filter.conditions@[i],
                )),
    {
        if filter.conditions.is_empty() {
            return true;
        }
        let mut i: usize = 0;
        while i < filter.conditions.len()
            invariant
                i <= filter.conditions@.len(),
                forall|k: int| 0 <= k < i ==> condition_holds(*self, filter.conditions@[k]),
            decreases filter.conditions@.len() - i,
        {
            let ok: bool = match &filter.conditions[i] {
                FilterCondition::NAME(v) => self.name == *v,
                FilterCondition::COST(v) => self.cost == *v,
                FilterCondition::ELEMENT_TYPE(v) => self.element_type == *v,
            };
            if !ok {
                return false;
            }
            i = i + 1;
        }
        true
    }
}

} // verus!
