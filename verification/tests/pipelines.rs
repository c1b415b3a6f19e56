use opentelemetry_honeycomb::pipeline::BatchTimeout;
use opentelemetry_honeycomb::{new_pipeline, HoneycombApiKey, HoneycombPipelineBuilder};

fn builder() -> HoneycombPipelineBuilder<u8, char, &'static str> {
    new_pipeline(
        HoneycombApiKey::new("secret".to_string()),
        "traces".to_string(),
        1,
        'b',
    )
}

#[test]
fn an_api_key_gives_back_its_secret() {
    let key = HoneycombApiKey::new("k3y".to_string());
    assert_eq!(key.secret(), "k3y");
    assert_eq!(key.clone().into_inner(), "k3y");
    assert_eq!(key.into_inner(), "k3y");
}

#[test]
fn debugging_text_redacts_the_key() {
    let text = |key: &str| HoneycombApiKey::new(key.to_string()).debug_text();
    assert_eq!(text("k3y"), "HoneycombApiKey(\"...\")");
    assert_eq!(text("another"), text("k3y"));
    assert_eq!(text(""), "HoneycombApiKey(\"\")");
}

#[test]
fn a_pipeline_starts_with_the_recommended_settings() {
    let plan = builder().install();
    assert_eq!(plan.client_options.api_key, "secret");
    assert_eq!(plan.client_options.dataset, "traces");
    assert_eq!(plan.client_options.api_host, "https://api.honeycomb.io");
    assert_eq!(plan.client_options.sample_rate, 1);
    assert_eq!(plan.transmission_options.max_batch_size, 50);
    assert_eq!(plan.transmission_options.max_concurrent_batches, 10);
    assert_eq!(
        plan.transmission_options.batch_timeout,
        BatchTimeout {
            secs: 0,
            nanos: 100_000_000
        }
    );
    assert_eq!(plan.transmission_options.pending_work_capacity, 10_000);
    assert_eq!(
        plan.transmission_options.user_agent_addition,
        Some("opentelemetry-honeycomb-rs/0.1.0".to_string())
    );
    assert_eq!(plan.executor, 1);
    assert_eq!(plan.block_on, 'b');
    assert_eq!(plan.on_span_start, None);
    assert!(plan.trace_config.is_none());
    assert_eq!(plan.tracer_name, "opentelemetry-honeycomb-rs");
    assert_eq!(plan.tracer_version, "0.1.0");
}

#[test]
fn what_is_set_is_installed() {
    let timeout = BatchTimeout { secs: 2, nanos: 5 };
    let builder = builder()
        .with_max_batch_size(3)
        .with_max_batch_size(4)
        .with_max_concurrent_batches(5)
        .with_batch_timeout(timeout)
        .with_on_span_start("hook")
        .with_trace_config(opentelemetry::sdk::trace::config().with_max_links_per_span(77));
    assert_eq!(builder.api_key().secret(), "secret");
    assert_eq!(builder.dataset(), "traces");
    assert_eq!(builder.transmission_options().max_batch_size, 4);
    assert_eq!(
        builder
            .trace_config()
            .unwrap()
            .span_limits
            .max_links_per_span,
        77
    );
    let plan = builder.install();
    assert_eq!(plan.transmission_options.max_batch_size, 4);
    assert_eq!(plan.transmission_options.max_concurrent_batches, 5);
    assert_eq!(plan.transmission_options.batch_timeout, timeout);
    assert_eq!(plan.transmission_options.pending_work_capacity, 10_000);
    assert_eq!(plan.on_span_start, Some("hook"));
    assert_eq!(
        plan.trace_config.unwrap().span_limits.max_links_per_span,
        77
    );
}

#[test]
fn settings_can_be_made_in_any_order() {
    let one = builder()
        .with_max_batch_size(3)
        .with_max_concurrent_batches(5)
        .install();
    let other = builder()
        .with_max_concurrent_batches(5)
        .with_max_batch_size(3)
        .install();
    assert_eq!(
        format!("{:?}", one.transmission_options),
        format!("{:?}", other.transmission_options)
    );
}
