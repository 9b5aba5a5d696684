use vstd::prelude::*;

use crate::model::standard_sql_field::StandardSqlField;

verus! {

/// The fields of a standard SQL struct type.
#[derive(Debug)]
pub struct StandardSqlStructType {
    /// The fields of the struct, in order.
    pub fields: Option<Vec<StandardSqlField>>,
}

} // verus!
