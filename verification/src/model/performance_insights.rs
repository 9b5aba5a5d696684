use vstd::prelude::*;

verus! {

/// Performance insights of a query job.
#[derive(Debug, Clone)]
pub struct PerformanceInsights {
    /// Average execution time of previous runs in milliseconds
    pub avg_previous_execution_ms: Option<String>,
    /// Standalone insights about stage performance
    pub stage_performance_standalone_insights: Option<Vec<StagePerformanceStandaloneInsight>>,
}

/// A standalone insight about the performance of one stage of a query.
#[derive(Debug, Clone)]
pub struct StagePerformanceStandaloneInsight {
    /// Whether slot contention was detected
    pub slot_contention: Option<bool>,
    /// Whether insufficient shuffle quota was detected
    pub insufficient_shuffle_quota: Option<bool>,
}

impl Default for PerformanceInsights {
    /// No average and no insights.
    fn default() -> (r: Self)
        ensures
            r.avg_previous_execution_ms is None,
            r.stage_performance_standalone_insights is None,
    {
        PerformanceInsights {
            avg_previous_execution_ms: None,
            stage_performance_standalone_insights: None,
        }
    }
}

impl Default for StagePerformanceStandaloneInsight {
    /// Neither finding reported.
    fn default() -> (r: Self)
        ensures
            r.slot_contention is None,
            r.insufficient_shuffle_quota is None,
    {
        StagePerformanceStandaloneInsight { slot_contention: None, insufficient_shuffle_quota: None }
    }
}

} // verus!
