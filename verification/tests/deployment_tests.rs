use api_gemini::deployment::{
    analyze_metrics, ContainerConfig, DeploymentHealthCheckConfig, DeploymentMetrics, OptimizationCategory,
    OptimizationFinding, OptimizationPriority, OptimizationRecommendation, PerformanceOptimizer,
};
use api_gemini::error::Error;

#[test]
fn fresh_metrics_start_at_full_uptime() {
    let m = DeploymentMetrics::new_at(1_000);
    assert_eq!(m.uptime_percentage_scaled, 10000);
    assert_eq!(m.total_requests, 0);
    assert_eq!(m.deployment_start_us, 1_000);
    assert_eq!(m.last_updated_us, 1_000);
}

#[test]
fn requests_update_average_and_error_rate() {
    let mut m = DeploymentMetrics::new_at(0);
    m.record_request_at(100, false, 10);
    assert_eq!(m.response_time_us, 100);
    assert_eq!(m.error_rate_scaled, 0);
    m.record_request_at(200, true, 20);
    // 0.9 * 100 + 0.1 * 200 = 110
    assert_eq!(m.response_time_us, 110);
    // one error in two requests: 50.00%
    assert_eq!(m.error_rate_scaled, 5000);
    m.record_request_at(110, false, 30);
    // one error in three requests: 33.33%
    assert_eq!(m.error_rate_scaled, 3333);
    assert_eq!(m.total_requests, 3);
    assert_eq!(m.total_errors, 1);
    assert_eq!(m.last_updated_us, 30);
}

#[test]
fn uptime_drops_when_unhealthy_after_start() {
    let mut m = DeploymentMetrics::new_at(500);
    m.update_uptime_at(false, 500);
    assert_eq!(m.uptime_percentage_scaled, 10000);
    m.update_uptime_at(false, 501);
    assert_eq!(m.uptime_percentage_scaled, 9500);
    m.update_uptime_at(true, 502);
    assert_eq!(m.uptime_percentage_scaled, 10000);
}

#[test]
fn analysis_reports_each_threshold_crossed() {
    let mut m = DeploymentMetrics::new_at(0);
    assert!(analyze_metrics(&m).is_empty());
    m.set_cpu_utilization_scaled(9001, 1);
    m.set_memory_utilization_scaled(8500, 1);
    m.response_time_us = 1_000_001;
    m.error_rate_scaled = 501;
    assert_eq!(
        analyze_metrics(&m),
        vec![OptimizationFinding::HighCpu, OptimizationFinding::HighResponseTime, OptimizationFinding::HighErrorRate]
    );
    m.set_cpu_utilization_scaled(9000, 2);
    m.set_memory_utilization_scaled(8501, 2);
    assert_eq!(
        analyze_metrics(&m),
        vec![OptimizationFinding::HighMemory, OptimizationFinding::HighResponseTime, OptimizationFinding::HighErrorRate]
    );
}

#[test]
fn recommendations_have_the_shape_of_their_finding() {
    let r = OptimizationRecommendation::for_finding(OptimizationFinding::HighErrorRate, "d".to_string());
    assert_eq!(r.category, OptimizationCategory::Reliability);
    assert_eq!(r.priority, OptimizationPriority::High);
    assert_eq!(r.title, "High Error Rate Detected");
    let r = OptimizationRecommendation::for_finding(OptimizationFinding::HighResponseTime, "d".to_string());
    assert_eq!(r.category, OptimizationCategory::Performance);
    assert_eq!(r.priority, OptimizationPriority::Medium);
}

#[test]
fn optimizer_keeps_recommendations_and_history() {
    let mut o = PerformanceOptimizer::new();
    let recs = vec![
        OptimizationRecommendation::for_finding(OptimizationFinding::HighCpu, "a".to_string()),
        OptimizationRecommendation::for_finding(OptimizationFinding::HighMemory, "b".to_string()),
    ];
    let back = o.record_analysis("dep-1", recs, 42);
    assert_eq!(back.len(), 2);
    assert_eq!(o.get_recommendations().len(), 2);
    assert_eq!(o.analysis_history, vec![(42u128, "Generated 2 recommendations for deployment dep-1".to_string())]);
    o.clear_recommendations();
    assert!(o.get_recommendations().is_empty());
    assert_eq!(o.analysis_history.len(), 1);
}

#[test]
fn deployment_configs_validate() {
    let h = DeploymentHealthCheckConfig::default_config();
    assert_eq!(h.endpoint, "/health");
    assert_eq!(h.failure_threshold, 3);
    match DeploymentHealthCheckConfig::builder().endpoint("").build() {
        Err(Error::ConfigurationError(m)) => assert_eq!(m, "Health check endpoint cannot be empty"),
        _ => panic!("an empty endpoint is refused"),
    }
    let c = ContainerConfig::default_config();
    assert_eq!(c.image, "gcr.io/project/model:latest");
    assert_eq!(c.port, 8080);
    match ContainerConfig::builder().image("").build() {
        Err(Error::ConfigurationError(m)) => assert_eq!(m, "Container image cannot be empty"),
        _ => panic!("an empty image is refused"),
    }
    assert!(ContainerConfig::builder().port(9000).build().is_ok());
}
