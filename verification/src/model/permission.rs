//! A permission as the store holds it.

use vstd::prelude::*;

verus! {

/// One row of the permission table.
#[derive(Debug)]
pub struct Permission {
    pub id: i32,
    pub name: String,
}

/// A permission row as contracts speak of it.
pub struct PermissionRow {
    pub id: i32,
    pub name: Seq<char>,
}

impl View for Permission {
    type V = PermissionRow;

    open spec fn view(&self) -> PermissionRow {
        PermissionRow { id: self.id, name: self.name@ }
    }
}

} // verus!
