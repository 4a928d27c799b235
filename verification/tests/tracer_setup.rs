use libits::transport::telemetry::{init_tracer, TelemetryConfiguration};
use opentelemetry::trace::{Span, Tracer, TracerProvider as _};
use opentelemetry::{Key, KeyValue, Value};
use opentelemetry_sdk::export::trace::{ExportResult, SpanData, SpanExporter};
use opentelemetry_sdk::runtime;
use opentelemetry_sdk::trace::{BatchConfig, BatchSpanProcessor, Config, TracerProvider};
use std::future::Future;
use std::pin::Pin;
use std::sync::{Arc, Mutex};
use std::time::{Duration, Instant};

#[derive(Debug, Clone, Default)]
struct Capture {
    spans: Arc<Mutex<Vec<SpanData>>>,
}

impl Capture {
    fn taken(&self) -> Vec<SpanData> {
        std::mem::take(&mut *self.spans.lock().unwrap())
    }
}

impl SpanExporter for Capture {
    fn export(
        &mut self,
        batch: Vec<SpanData>,
    ) -> Pin<Box<dyn Future<Output = ExportResult> + Send + 'static>> {
        self.spans.lock().unwrap().extend(batch);
        Box::pin(std::future::ready(Ok(())))
    }
}

/// An exporter whose first export never ends.
#[derive(Debug, Clone, Default)]
struct Stalling {
    exports: Arc<Mutex<Vec<Instant>>>,
}

impl Stalling {
    fn exports(&self) -> Vec<Instant> {
        self.exports.lock().unwrap().clone()
    }
}

impl SpanExporter for Stalling {
    fn export(
        &mut self,
        _batch: Vec<SpanData>,
    ) -> Pin<Box<dyn Future<Output = ExportResult> + Send + 'static>> {
        let mut exports = self.exports.lock().unwrap();
        exports.push(Instant::now());
        if exports.len() == 1 {
            Box::pin(std::future::pending())
        } else {
            Box::pin(std::future::ready(Ok(())))
        }
    }
}

fn configurations(batch_size: usize) -> (BatchConfig, Config) {
    let configuration = TelemetryConfiguration {
        endpoint: "http://localhost:4318".to_string(),
        basic_auth_header: None,
        ca_path: None,
        batch_size,
    };
    match init_tracer(&configuration, "its-client", None) {
        Ok(setup) => {
            let (_, batch, trace) = setup.into_parts();
            (batch, trace)
        }
        Err(error) => panic!("refused: {:?}", error),
    }
}

#[test]
fn provider_configuration_holds_the_settings() {
    let (_, trace) = configurations(50);

    assert_eq!(trace.span_limits.max_attributes_per_span, 16);
    assert_eq!(trace.span_limits.max_events_per_span, 16);
    assert_eq!(format!("{:?}", trace.sampler), "AlwaysOn");
    assert_eq!(trace.resource.len(), 1);
    assert_eq!(
        trace.resource.get(Key::from_static_str("service.name")),
        Some(Value::from("its-client"))
    );
}

#[test]
fn span_keeps_sixteen_attributes_and_sixteen_events() {
    let (_, trace) = configurations(50);
    let capture = Capture::default();
    let provider =
        TracerProvider::builder().with_simple_exporter(capture.clone()).with_config(trace).build();
    let tracer = provider.tracer("its");

    let mut span = tracer.start("crowded");
    for i in 0..20 {
        span.set_attribute(KeyValue::new(format!("key{}", i), i));
        span.add_event(format!("event{}", i), Vec::new());
    }
    span.end();
    let mut span = tracer.start("at the cap");
    for i in 0..16 {
        span.set_attribute(KeyValue::new(format!("key{}", i), i));
        span.add_event(format!("event{}", i), Vec::new());
    }
    span.end();

    let spans = capture.taken();
    assert_eq!(spans.len(), 2);
    assert_eq!(spans[0].name, "crowded");
    assert_eq!(spans[0].attributes.len(), 16);
    assert_eq!(spans[0].dropped_attributes_count, 4);
    assert_eq!(spans[0].events.events.len(), 16);
    assert_eq!(spans[0].events.dropped_count, 4);
    assert_eq!(spans[1].attributes.len(), 16);
    assert_eq!(spans[1].dropped_attributes_count, 0);
    assert_eq!(spans[1].events.events.len(), 16);
    assert_eq!(spans[1].events.dropped_count, 0);
    assert_eq!(
        spans[0].resource.get(Key::from_static_str("service.name")),
        Some(Value::from("its-client"))
    );
}

#[test]
fn every_span_is_sampled_under_its_own_random_identifiers() {
    let (_, trace) = configurations(50);
    let capture = Capture::default();
    let provider =
        TracerProvider::builder().with_simple_exporter(capture.clone()).with_config(trace).build();
    let tracer = provider.tracer("its");

    for _ in 0..8 {
        tracer.start("work").end();
    }

    let spans = capture.taken();
    assert_eq!(spans.len(), 8);
    for (i, span) in spans.iter().enumerate() {
        assert!(span.span_context.is_valid());
        assert!(span.span_context.is_sampled());
        for other in &spans[..i] {
            assert_ne!(span.span_context.span_id(), other.span_context.span_id());
            assert_ne!(span.span_context.trace_id(), other.span_context.trace_id());
        }
    }
}

#[test]
fn an_export_is_given_up_after_three_seconds() {
    let (batch, trace) = configurations(1);
    let tokio =
        tokio::runtime::Builder::new_multi_thread().worker_threads(2).enable_all().build().unwrap();

    tokio.block_on(async {
        let stalling = Stalling::default();
        let processor = BatchSpanProcessor::builder(stalling.clone(), runtime::Tokio)
            .with_batch_config(batch)
            .build();
        let provider =
            TracerProvider::builder().with_span_processor(processor).with_config(trace).build();
        let tracer = provider.tracer("its");

        tracer.start("stalls").end();
        tracer.start("follows").end();
        for _ in 0..1000 {
            if stalling.exports().len() >= 2 {
                break;
            }
            tokio::time::sleep(Duration::from_millis(10)).await;
        }

        let exports = stalling.exports();
        assert_eq!(exports.len(), 2);
        let waited = exports[1].duration_since(exports[0]);
        assert!(waited >= Duration::from_millis(2900), "waited {:?}", waited);
        assert!(waited < Duration::from_millis(6000), "waited {:?}", waited);
    });
}
