//! Polling districts feed.
use crate::eml_schema::{
    accepts_polling_district, reads_event_identifier, reads_polling_district,
    EventIdentifierStructure, PollingDistrictStructure,
};
use crate::xml::XmlElement;
use vstd::prelude::*;

verus! {

/// The polling districts of an event.
pub struct PollingDistrictListStructure {
    pub event_identifier: EventIdentifierStructure,
    pub polling_districts: Vec<PollingDistrictStructure>,
}

pub open spec fn accepts_polling_district_list(e: XmlElement) -> bool {
    &&& e.child_named("EventIdentifier"@) is Some
    &&& forall|k: int|
        0 <= k < e.children_named("PollingDistrict"@).len() ==> accepts_polling_district(
            #[trigger] e.children_named("PollingDistrict"@)[k],
        )
}

pub open spec fn reads_polling_district_list(x: PollingDistrictListStructure, e: XmlElement) -> bool {
    let ds = e.children_named("PollingDistrict"@);
    &&& reads_event_identifier(x.event_identifier, e.child_named("EventIdentifier"@).unwrap())
    &&& x.polling_districts@.len() == ds.len()
    &&& forall|k: int| 0 <= k < ds.len() ==> reads_polling_district(#[trigger] x.polling_districts@[k], ds[k])
}

impl PollingDistrictListStructure {
    pub fn from_element(value: &XmlElement) -> (r: Option<PollingDistrictListStructure>)
        ensures
            r is Some <==> accepts_polling_district_list(*value),
            r matches Some(x) ==> reads_polling_district_list(x, *value),
    {
        let event_identifier = match value.get_child_ignore_ns("EventIdentifier") {
            Some(i) => EventIdentifierStructure::from_element(i),
            None => return None,
        };
        let ds = value.get_children_ignore_ns("PollingDistrict");
        let ghost spec_ds = value.children_named("PollingDistrict"@);
        let mut polling_districts: Vec<PollingDistrictStructure> = Vec::new();
        let n = ds.len();
        let mut i: usize = 0;
        while i < n
            invariant
                spec_ds == value.children_named("PollingDistrict"@),
                n == ds@.len(),
                spec_ds.len() == n,
                forall|k: int| 0 <= k < n ==> *ds@[k] == #[trigger] spec_ds[k],
                i <= n,
                polling_districts@.len() == i,
                forall|k: int| 0 <= k < i ==> accepts_polling_district(#[trigger] spec_ds[k]),
                forall|k: int| 0 <= k < i ==> reads_polling_district(#[trigger] polling_districts@[k], spec_ds[k]),
            decreases n - i,
        {
            match PollingDistrictStructure::from_element(ds[i]) {
                Some(d) => polling_districts.push(d),
                None => {
                    assert(!accepts_polling_district(spec_ds[i as int]));
                    return None;
                },
            }
            i = i + 1;
        }
        Some(PollingDistrictListStructure { event_identifier, polling_districts })
    }
}

} // verus!
