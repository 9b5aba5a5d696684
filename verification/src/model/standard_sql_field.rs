use vstd::prelude::*;

use crate::model::standard_sql_data_type::StandardSqlDataType;

verus! {

/// A field or a column of a standard SQL struct type.
#[derive(Debug)]
pub struct StandardSqlField {
    /// Optional. The name of this field. Can be absent for struct fields.
    pub name: Option<String>,
    /// Optional. The type of this parameter. Absent if not explicitly
    /// specified (e.g., CREATE FUNCTION statement can omit the return type).
    pub field_type: Option<StandardSqlDataType>,
}

} // verus!
