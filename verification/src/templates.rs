//! The template data: which capabilities each template implies.
//!
//! The data is a table of rows, each pairing a template with one capability tag. It is loaded
//! once, by the surrounding program, and only read afterwards.
use vstd::prelude::*;
use crate::ids::Lot;

verus! {

/// One row of the table: the template `lot` implies the capability `component_type`.
#[derive(Clone, Copy, Debug, PartialEq, Eq)]
pub struct RegistryRow {
    pub lot: Lot,
    pub component_type: u32,
}

/// The table.
pub struct TemplateData {
    rows: Vec<RegistryRow>,
}

/// The capability tags that the first `n` rows name for `lot`, in the order of the rows.
pub open spec fn spec_capabilities(rows: Seq<RegistryRow>, lot: Lot, n: int) -> Seq<u32>
    decreases n,
{
    if n <= 0 {
        Seq::empty()
    } else if rows[n - 1].lot == lot {
        spec_capabilities(rows, lot, n - 1).push(rows[n - 1].component_type)
    } else {
        spec_capabilities(rows, lot, n - 1)
    }
}

/// The capability tags that `rows` names for `lot`, in the order of the rows.
pub open spec fn spec_capabilities_for(rows: Seq<RegistryRow>, lot: Lot) -> Seq<u32> {
    spec_capabilities(rows, lot, rows.len() as int)
}

impl View for TemplateData {
    type V = Seq<RegistryRow>;

    closed spec fn view(&self) -> Seq<RegistryRow> {
        self.rows@
    }
}

impl TemplateData {
    /// The empty table: no template implies anything.
    pub fn new() -> (t: TemplateData)
        ensures
            t@ == Seq::<RegistryRow>::empty(),
    {
        TemplateData { rows: Vec::new() }
    }

    /// Adds a row at the end of the table.
    pub fn add_row(&mut self, lot: Lot, component_type: u32)
        ensures
            final(self)@ == old(self)@.push(RegistryRow { lot, component_type }),
    {
        self.rows.push(RegistryRow { lot, component_type });
    }

    /// The capability tags that the table names for `lot`, in the order of the rows. A
    /// template that the table does not know implies nothing.
    pub fn capabilities_for(&self, lot: Lot) -> (tags: Vec<u32>)
        ensures
            tags@ == spec_capabilities_for(self@, lot),
    {
        let mut tags: Vec<u32> = Vec::new();
        let mut i: usize = 0;
        while i < self.rows.len()
            invariant
                i <= self.rows.len(),
                tags@ == spec_capabilities(self.rows@, lot, i as int),
            decreases self.rows.len() - i,
        {
            if self.rows[i].lot == lot {
                tags.push(self.rows[i].component_type);
            }
            i += 1;
        }
        tags
    }
}

} // verus!
