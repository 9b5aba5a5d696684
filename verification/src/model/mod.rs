//! The data model of the BigQuery REST API (the JSON resources, as plain
//! values).

pub mod connection_property;
pub mod parquet_options;
pub mod performance_insights;
pub mod standard_sql_data_type;
pub mod standard_sql_field;
pub mod standard_sql_struct_type;
