use vstd::prelude::*;

verus! {

/// Options for Parquet files in external data configurations and loads.
#[derive(Debug, Clone)]
pub struct ParquetOptions {
    /// [Optional] Indicates whether to use schema inference specifically for Parquet LIST logical type.
    pub enable_list_inference: Option<bool>,
    /// [Optional] Indicates whether to infer Parquet ENUM logical type as STRING instead of BYTES by default.
    pub enum_as_string: Option<bool>,
}

impl Default for ParquetOptions {
    /// Both options unset.
    fn default() -> (r: Self)
        ensures
            r.enable_list_inference is None,
            r.enum_as_string is None,
    {
        ParquetOptions { enable_list_inference: None, enum_as_string: None }
    }
}

} // verus!
