//! The set-up of an exporter pipeline.
use crate::api_key::HoneycombApiKey;
use crate::outside::{default_client_options, default_transmission_options};
use vstd::prelude::*;

verus! {

/// The name of this package.
pub const PACKAGE_NAME: &'static str = "opentelemetry-honeycomb";

/// The version of this package.
pub const PACKAGE_VERSION: &'static str = "0.1.0";

/// The name of the tracer that an installed pipeline gives out.
pub const TRACER_NAME: &'static str = "opentelemetry-honeycomb-rs";

/// How long events wait for a batch to fill.
#[derive(Debug, Clone, Copy, PartialEq, Eq)]
pub struct BatchTimeout {
    pub secs: u64,
    pub nanos: u32,
}

/// The settings for the sending of events.
#[derive(Debug)]
pub struct TransmissionOptions {
    /// How many events are collected into a batch.
    pub max_batch_size: usize,
    /// How many batches can be on their way at a time.
    pub max_concurrent_batches: usize,
    /// How often batches are sent.
    pub batch_timeout: BatchTimeout,
    /// How many events can wait to be sent.
    pub pending_work_capacity: usize,
    /// What is added to the client's user agent.
    pub user_agent_addition: Option<String>,
}

/// The settings of the Honeycomb client.
pub struct ClientOptions {
    pub api_key: String,
    pub dataset: String,
    pub api_host: String,
    pub sample_rate: usize,
}

/// Pipeline builder
///
/// `E` runs the client's futures, `B` blocks on one, and `S` is run when a span starts.
pub struct HoneycombPipelineBuilder<E, B, S> {
    api_key: HoneycombApiKey,
    block_on: B,
    dataset: String,
    executor: E,
    trace_config: Option<opentelemetry::sdk::trace::Config>,
    transmission_options: TransmissionOptions,
    on_span_start: Option<S>,
}

/// What the parts of a pipeline are given when it is installed.
pub struct InstallPlan<E, B, S> {
    /// For the client.
    pub executor: E,
    /// For the client.
    pub client_options: ClientOptions,
    /// For the client.
    pub transmission_options: TransmissionOptions,
    /// For the exporter.
    pub block_on: B,
    /// For the span processor.
    pub on_span_start: Option<S>,
    /// For the tracer provider, which otherwise keeps its own.
    pub trace_config: Option<opentelemetry::sdk::trace::Config>,
    /// For the tracer.
    pub tracer_name: &'static str,
    /// For the tracer.
    pub tracer_version: &'static str,
}

/// What a [`HoneycombPipelineBuilder`] was given.
pub struct PipelineView<E, B, S> {
    pub api_key: Seq<char>,
    pub block_on: B,
    pub dataset: Seq<char>,
    pub executor: E,
    pub trace_config: Option<opentelemetry::sdk::trace::Config>,
    pub max_batch_size: usize,
    pub max_concurrent_batches: usize,
    pub batch_timeout: BatchTimeout,
    pub pending_work_capacity: usize,
    pub user_agent_addition: Option<Seq<char>>,
    pub on_span_start: Option<S>,
}

impl<E, B, S> PipelineView<E, B, S> {
    /// With this trace configuration.
    pub open spec fn config(self, config: opentelemetry::sdk::trace::Config) -> Self {
        PipelineView { trace_config: Some(config), ..self }
    }

    /// With this many events to a batch.
    pub open spec fn batch_size(self, size: usize) -> Self {
        PipelineView { max_batch_size: size, ..self }
    }

    /// With this many batches at a time.
    pub open spec fn batches(self, limit: usize) -> Self {
        PipelineView { max_concurrent_batches: limit, ..self }
    }

    /// With this wait for a batch to fill.
    pub open spec fn timeout(self, timeout: BatchTimeout) -> Self {
        PipelineView { batch_timeout: timeout, ..self }
    }

    /// With this to be run when a span starts.
    pub open spec fn hook(self, hook: S) -> Self {
        PipelineView { on_span_start: Some(hook), ..self }
    }
}

/// The text of an optional string.
pub open spec fn optional_text(s: Option<String>) -> Option<Seq<char>> {
    match s {
        Some(s) => Some(s@),
        None => None,
    }
}

impl<E, B, S> View for HoneycombPipelineBuilder<E, B, S> {
    type V = PipelineView<E, B, S>;

    closed spec fn view(&self) -> PipelineView<E, B, S> {
        PipelineView {
            api_key: self.api_key@,
            block_on: self.block_on,
            dataset: self.dataset@,
            executor: self.executor,
            trace_config: self.trace_config,
            max_batch_size: self.transmission_options.max_batch_size,
            max_concurrent_batches: self.transmission_options.max_concurrent_batches,
            batch_timeout: self.transmission_options.batch_timeout,
            pending_work_capacity: self.transmission_options.pending_work_capacity,
            user_agent_addition: optional_text(self.transmission_options.user_agent_addition),
            on_span_start: self.on_span_start,
        }
    }
}

/// Create a new exporter pipeline builder.
pub fn new_pipeline<E, B, S>(
    api_key: HoneycombApiKey,
    dataset: String,
    executor: E,
    block_on: B,
) -> (r: HoneycombPipelineBuilder<E, B, S>)
    ensures
        r@ == (PipelineView::<E, B, S> {
            api_key: api_key@,
            block_on,
            dataset: dataset@,
            executor,
            trace_config: None,
            max_batch_size: 50,
            max_concurrent_batches: 10,
            batch_timeout: BatchTimeout { secs: 0, nanos: 100_000_000 },
            pending_work_capacity: 10_000,
            user_agent_addition: Some(PACKAGE_NAME@ + "-rs/"@ + PACKAGE_VERSION@),
            on_span_start: None,
        }),
{
    let mut user_agent: String = PACKAGE_NAME.to_owned();
    user_agent.append("-rs/");
    user_agent.append(PACKAGE_VERSION);
    let mut transmission_options = default_transmission_options();
    transmission_options.user_agent_addition = Some(user_agent);
    HoneycombPipelineBuilder {
        api_key,
        block_on,
        dataset,
        executor,
        trace_config: None,
        transmission_options,
        on_span_start: None,
    }
}

impl<E, B, S> HoneycombPipelineBuilder<E, B, S> {
    /// Assign the SDK trace configuration.
    pub fn with_trace_config(self, config: opentelemetry::sdk::trace::Config) -> (r: Self)
        ensures
            r@ == self@.config(config),
            r@.trace_config == Some(config),
    {
        let mut builder = self;
        builder.trace_config = Some(config);
        builder
    }

    /// Sets the number of events to collect into a batch before sending to Honeycomb.
    pub fn with_max_batch_size(self, max_batch_size: usize) -> (r: Self)
        ensures
            r@ == self@.batch_size(max_batch_size),
            r@.max_batch_size == max_batch_size,
    {
        let mut builder = self;
        builder.transmission_options.max_batch_size = max_batch_size;
        builder
    }

    /// Sets the number of batches that can be inflight to Honeycomb simultaneously.
    pub fn with_max_concurrent_batches(self, max_concurrent_batches: usize) -> (r: Self)
        ensures
            r@ == self@.batches(max_concurrent_batches),
            r@.max_concurrent_batches == max_concurrent_batches,
    {
        let mut builder = self;
        builder.transmission_options.max_concurrent_batches = max_concurrent_batches;
        builder
    }

    /// Specifies how often to send batches to Honeycomb.
    pub fn with_batch_timeout(self, batch_timeout: BatchTimeout) -> (r: Self)
        ensures
            r@ == self@.timeout(batch_timeout),
            r@.batch_timeout == batch_timeout,
    {
        let mut builder = self;
        builder.transmission_options.batch_timeout = batch_timeout;
        builder
    }

    /// Sets an optional function to be run every time a span starts.
    ///
    /// This allows manipulation of the span based on the current context.
    pub fn with_on_span_start(self, on_span_start: S) -> (r: Self)
        ensures
            r@ == self@.hook(on_span_start),
            r@.on_span_start == Some(on_span_start),
    {
        let mut builder = self;
        builder.on_span_start = Some(on_span_start);
        builder
    }

    /// The API key.
    pub fn api_key(&self) -> (r: &HoneycombApiKey)
        ensures
            r@ == self@.api_key,
    {
        &self.api_key
    }

    /// The data set that events are sent to.
    pub fn dataset(&self) -> (r: &str)
        ensures
            r@ == self@.dataset,
    {
        self.dataset.as_str()
    }

    /// The SDK trace configuration, if one was assigned.
    pub fn trace_config(&self) -> (r: Option<&opentelemetry::sdk::trace::Config>)
        ensures
            r is Some <==> self@.trace_config is Some,
            r is Some ==> *r->0 == self@.trace_config->0,
    {
        self.trace_config.as_ref()
    }

    /// The settings for the sending of events.
    pub fn transmission_options(&self) -> (r: &TransmissionOptions)
        ensures
            r.max_batch_size == self@.max_batch_size,
            r.max_concurrent_batches == self@.max_concurrent_batches,
            r.batch_timeout == self@.batch_timeout,
            r.pending_work_capacity == self@.pending_work_capacity,
            optional_text(r.user_agent_addition) == self@.user_agent_addition,
    {
        &self.transmission_options
    }

    /// Install the pipeline: gives what its parts are to be made of. The client
    /// sends to the public Honeycomb host and samples every event.
    pub fn install(self) -> (r: InstallPlan<E, B, S>)
        ensures
            r.executor == self@.executor,
            r.client_options.api_key@ == self@.api_key,
            r.client_options.dataset@ == self@.dataset,
            r.client_options.api_host@ == "https://api.honeycomb.io"@,
            r.client_options.sample_rate == 1,
            r.transmission_options.max_batch_size == self@.max_batch_size,
            r.transmission_options.max_concurrent_batches == self@.max_concurrent_batches,
            r.transmission_options.batch_timeout == self@.batch_timeout,
            r.transmission_options.pending_work_capacity == self@.pending_work_capacity,
            optional_text(r.transmission_options.user_agent_addition)
                == self@.user_agent_addition,
            r.block_on == self@.block_on,
            r.on_span_start == self@.on_span_start,
            r.trace_config == self@.trace_config,
            r.tracer_name@ == TRACER_NAME@,
            r.tracer_version@ == PACKAGE_VERSION@,
    {
        let mut client_options = default_client_options();
        client_options.api_key = self.api_key.into_inner();
        client_options.dataset = self.dataset;
        InstallPlan {
            executor: self.executor,
            client_options,
            transmission_options: self.transmission_options,
            block_on: self.block_on,
            on_span_start: self.on_span_start,
            trace_config: self.trace_config,
            tracer_name: TRACER_NAME,
            tracer_version: PACKAGE_VERSION,
        }
    }
}

/// The settings do not disturb one another. Any two of them can change places,
/// so they can be made in any order; and of two for one thing the last one counts.
pub proof fn settings_are_independent<E, B, S>(
    view: PipelineView<E, B, S>,
    configs: (opentelemetry::sdk::trace::Config, opentelemetry::sdk::trace::Config),
    sizes: (usize, usize),
    limits: (usize, usize),
    timeouts: (BatchTimeout, BatchTimeout),
    hooks: (S, S),
)
    ensures
        view.config(configs.0).batch_size(sizes.0) == view.batch_size(sizes.0).config(configs.0),
        view.config(configs.0).batches(limits.0) == view.batches(limits.0).config(configs.0),
        view.config(configs.0).timeout(timeouts.0) == view.timeout(timeouts.0).config(configs.0),
        view.config(configs.0).hook(hooks.0) == view.hook(hooks.0).config(configs.0),
        view.batch_size(sizes.0).batches(limits.0) == view.batches(limits.0).batch_size(sizes.0),
        view.batch_size(sizes.0).timeout(timeouts.0) == view.timeout(timeouts.0).batch_size(
            sizes.0,
        ),
        view.batch_size(sizes.0).hook(hooks.0) == view.hook(hooks.0).batch_size(sizes.0),
        view.batches(limits.0).timeout(timeouts.0) == view.timeout(timeouts.0).batches(limits.0),
        view.batches(limits.0).hook(hooks.0) == view.hook(hooks.0).batches(limits.0),
        view.timeout(timeouts.0).hook(hooks.0) == view.hook(hooks.0).timeout(timeouts.0),
        view.config(configs.0).config(configs.1) == view.config(configs.1),
        view.batch_size(sizes.0).batch_size(sizes.1) == view.batch_size(sizes.1),
        view.batches(limits.0).batches(limits.1) == view.batches(limits.1),
        view.timeout(timeouts.0).timeout(timeouts.1) == view.timeout(timeouts.1),
        view.hook(hooks.0).hook(hooks.1) == view.hook(hooks.1),
{
}

/// After a setting is made, it is the very value that was given, and every other
/// setting is as before.
pub proof fn settings_are_kept<E, B, S>(
    view: PipelineView<E, B, S>,
    config: opentelemetry::sdk::trace::Config,
    size: usize,
    limit: usize,
    timeout: BatchTimeout,
    hook: S,
)
    ensures
        ({
            let after = view.config(config);
            &&& after.api_key == view.api_key
            &&& after.block_on == view.block_on
            &&& after.dataset == view.dataset
            &&& after.executor == view.executor
            &&& after.trace_config == Some(config)
            &&& after.max_batch_size == view.max_batch_size
            &&& after.max_concurrent_batches == view.max_concurrent_batches
            &&& after.batch_timeout == view.batch_timeout
            &&& after.pending_work_capacity == view.pending_work_capacity
            &&& after.user_agent_addition == view.user_agent_addition
            &&& after.on_span_start == view.on_span_start
        }),
        ({
            let after = view.batch_size(size);
            &&& after.api_key == view.api_key
            &&& after.block_on == view.block_on
            &&& after.dataset == view.dataset
            &&& after.executor == view.executor
            &&& after.trace_config == view.trace_config
            &&& after.max_batch_size == size
            &&& after.max_concurrent_batches == view.max_concurrent_batches
            &&& after.batch_timeout == view.batch_timeout
            &&& after.pending_work_capacity == view.pending_work_capacity
            &&& after.user_agent_addition == view.user_agent_addition
            &&& after.on_span_start == view.on_span_start
        }),
        ({
            let after = view.batches(limit);
            &&& after.api_key == view.api_key
            &&& after.block_on == view.block_on
            &&& after.dataset == view.dataset
            &&& after.executor == view.executor
            &&& after.trace_config == view.trace_config
            &&& after.max_batch_size == view.max_batch_size
            &&& after.max_concurrent_batches == limit
            &&& after.batch_timeout == view.batch_timeout
            &&& after.pending_work_capacity == view.pending_work_capacity
            &&& after.user_agent_addition == view.user_agent_addition
            &&& after.on_span_start == view.on_span_start
        }),
        ({
            let after = view.timeout(timeout);
            &&& after.api_key == view.api_key
            &&& after.block_on == view.block_on
            &&& after.dataset == view.dataset
            &&& after.executor == view.executor
            &&& after.trace_config == view.trace_config
            &&& after.max_batch_size == view.max_batch_size
            &&& after.max_concurrent_batches == view.max_concurrent_batches
            &&& after.batch_timeout == timeout
            &&& after.pending_work_capacity == view.pending_work_capacity
            &&& after.user_agent_addition == view.user_agent_addition
            &&& after.on_span_start == view.on_span_start
        }),
        ({
            let after = view.hook(hook);
            &&& after.api_key == view.api_key
            &&& after.block_on == view.block_on
            &&& after.dataset == view.dataset
            &&& after.executor == view.executor
            &&& after.trace_config == view.trace_config
            &&& after.max_batch_size == view.max_batch_size
            &&& after.max_concurrent_batches == view.max_concurrent_batches
            &&& after.batch_timeout == view.batch_timeout
            &&& after.pending_work_capacity == view.pending_work_capacity
            &&& after.user_agent_addition == view.user_agent_addition
            &&& after.on_span_start == Some(hook)
        }),
{
}

/// An optional string is told by its text.
pub proof fn optional_strings_are_told_by_their_text(s: String)
    ensures
        optional_text(Some(s)) == Some(s@),
        optional_text(None) is None,
{
}

} // verus!
