use gcp_bigquery_client::model::connection_property::ConnectionProperty;
use gcp_bigquery_client::model::parquet_options::ParquetOptions;
use gcp_bigquery_client::model::performance_insights::{
    PerformanceInsights, StagePerformanceStandaloneInsight,
};
use gcp_bigquery_client::model::standard_sql_data_type::{StandardSqlDataType, TypeKind};
use gcp_bigquery_client::model::standard_sql_field::StandardSqlField;
use gcp_bigquery_client::model::standard_sql_struct_type::StandardSqlStructType;

#[test]
fn connection_property_default_is_empty() {
    let p = ConnectionProperty::default();
    assert_eq!(p.key, "");
    assert!(p.value.is_none());
}

#[test]
fn parquet_options_default_is_unset() {
    let p = ParquetOptions::default();
    assert!(p.enable_list_inference.is_none());
    assert!(p.enum_as_string.is_none());
}

#[test]
fn performance_insights_default_is_unset() {
    let p = PerformanceInsights::default();
    assert!(p.avg_previous_execution_ms.is_none());
    assert!(p.stage_performance_standalone_insights.is_none());
    let s = StagePerformanceStandaloneInsight::default();
    assert!(s.slot_contention.is_none());
    assert!(s.insufficient_shuffle_quota.is_none());
}

#[test]
fn standard_sql_struct_type_nests() {
    let leaf = StandardSqlDataType {
        struct_type: None,
        type_kind: TypeKind::Date,
        array_element_type: None,
        range_element_type: None,
    };
    let array = StandardSqlDataType {
        struct_type: None,
        type_kind: TypeKind::Array,
        array_element_type: Some(Box::new(leaf)),
        range_element_type: None,
    };
    let st = StandardSqlDataType {
        struct_type: Some(StandardSqlStructType {
            fields: Some(vec![StandardSqlField { name: Some("y".to_string()), field_type: Some(array) }]),
        }),
        type_kind: TypeKind::Struct,
        array_element_type: None,
        range_element_type: None,
    };
    let fields = st.struct_type.as_ref().unwrap().fields.as_ref().unwrap();
    assert_eq!(fields.len(), 1);
    let inner = fields[0].field_type.as_ref().unwrap();
    assert!(matches!(inner.type_kind, TypeKind::Array));
    assert!(matches!(inner.array_element_type.as_ref().unwrap().type_kind, TypeKind::Date));
    assert!(format!("{:?}", st).contains("Struct"));
}

#[test]
fn type_kind_clone_is_the_same_kind() {
    assert!(matches!(TypeKind::Geography.clone(), TypeKind::Geography));
    assert!(matches!(TypeKind::Unknown.clone(), TypeKind::Unknown));
    assert!(matches!(TypeKind::TypeKindUnspecified.clone(), TypeKind::TypeKindUnspecified));
}

#[test]
fn standard_sql_types_clone_deeply() {
    let t = StandardSqlDataType {
        struct_type: Some(StandardSqlStructType {
            fields: Some(vec![
                StandardSqlField {
                    name: Some("x".to_string()),
                    field_type: Some(StandardSqlDataType {
                        struct_type: None,
                        type_kind: TypeKind::String,
                        array_element_type: None,
                        range_element_type: None,
                    }),
                },
                StandardSqlField { name: None, field_type: None },
            ]),
        }),
        type_kind: TypeKind::Struct,
        array_element_type: None,
        range_element_type: Some(Box::new(StandardSqlDataType {
            struct_type: None,
            type_kind: TypeKind::Date,
            array_element_type: None,
            range_element_type: None,
        })),
    };
    let c = t.clone();
    assert_eq!(format!("{:?}", c), format!("{:?}", t));
    let f = c.struct_type.clone().unwrap().fields.unwrap();
    assert_eq!(f.len(), 2);
    assert_eq!(f[0].name.as_deref(), Some("x"));
    assert!(f[1].name.is_none() && f[1].field_type.is_none());
}
