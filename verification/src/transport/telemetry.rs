//! Export of spans to a collector over HTTP: the exporter with its
//! credential and its own trusted root, and the settings of the tracer that
//! feeds it.
use crate::transport::tls::CaFile;
use opentelemetry::trace::TraceError;
use opentelemetry::KeyValue;
use opentelemetry_otlp::{SpanExporter, WithExportConfig};
use opentelemetry_sdk::trace::{BatchConfig, BatchConfigBuilder, Config, RandomIdGenerator, Sampler};
use opentelemetry_sdk::Resource;
use reqwest::header::{HeaderMap, HeaderValue, InvalidHeaderValue, AUTHORIZATION};
use reqwest::{Certificate, Client, ClientBuilder};
use std::time::Duration;
use vstd::prelude::*;
use vstd::utf8::encode_utf8;

verus! {

/// The builder of the HTTP client that carries the exports.
#[verifier::external_type_specification]
#[verifier::external_body]
pub struct ExClientBuilder(ClientBuilder);

/// The HTTP client that carries the exports.
#[verifier::external_type_specification]
#[verifier::external_body]
pub struct ExClient(Client);

/// A root certificate as the HTTP client takes it.
#[verifier::external_type_specification]
#[verifier::external_body]
pub struct ExCertificate(Certificate);

/// Why the HTTP client could not be built.
#[verifier::external_type_specification]
#[verifier::external_body]
pub struct ExReqwestError(reqwest::Error);

/// The value of an HTTP header.
#[verifier::external_type_specification]
#[verifier::external_body]
pub struct ExHeaderValue(HeaderValue);

/// The refusal of a text as the value of an HTTP header.
#[verifier::external_type_specification]
#[verifier::external_body]
pub struct ExInvalidHeaderValue(InvalidHeaderValue);

/// The OTLP span exporter.
#[verifier::external_type_specification]
#[verifier::external_body]
pub struct ExSpanExporter(SpanExporter);

/// Why the OTLP span exporter could not be built.
#[verifier::external_type_specification]
#[verifier::external_body]
pub struct ExTraceError(TraceError);

/// The configuration of the batching span processor.
#[verifier::external_type_specification]
#[verifier::external_body]
pub struct ExBatchConfig(BatchConfig);

/// The configuration of the tracer provider.
#[verifier::external_type_specification]
#[verifier::external_body]
pub struct ExConfig(Config);

/// Seconds granted to one export attempt.
pub const EXPORT_TIMEOUT_SECS: u64 = 3;

/// The most attributes that a span keeps.
pub const MAX_ATTRIBUTES_PER_SPAN: u32 = 16;

/// The most events that a span keeps.
pub const MAX_EVENTS_PER_SPAN: u32 = 16;

/// Where the spans go and how they get there.
#[derive(Clone, PartialEq, Eq)]
pub struct TelemetryConfiguration {
    /// The URL of the collector.
    pub endpoint: String,
    /// The value of the `Authorization` header, if the collector asks for
    /// basic authentication.
    pub basic_auth_header: Option<String>,
    /// The file of the root certificate that the collector's certificate
    /// chains to, if the usual roots do not do.
    pub ca_path: Option<String>,
    /// The most spans sent in one request.
    pub batch_size: usize,
}

/// Why no exporter could be built.
#[derive(Debug, Clone, Copy, PartialEq, Eq, Structural)]
pub enum ExporterBuildError {
    /// The credential cannot be the value of an HTTP header.
    InvalidCredential,
    /// A CA file is configured, and its content was not supplied.
    UnreadableCa,
    /// The HTTP client refused the CA certificate.
    MalformedCa,
    /// The HTTP client could not be built.
    HttpClient,
    /// The exporter refused the endpoint.
    Endpoint,
}

/// Why the tracer could not be set up.
#[derive(Debug, Clone, Copy, PartialEq, Eq, Structural)]
pub enum InitError {
    /// A batch of no span would never be sent.
    InvalidBatchSize,
    /// No exporter could be built.
    Exporter(ExporterBuildError),
}

/// What the exporter is built from.
#[derive(Clone, PartialEq, Eq)]
pub struct ExporterPlan {
    /// The URL of the collector.
    pub endpoint: String,
    /// The value of the `Authorization` header of every request, kept out
    /// of logs.
    pub authorization: Option<String>,
    /// A root certificate in PEM, trusted by the exporter's connection
    /// beside the usual roots, and by no other connection.
    pub extra_root: Option<Vec<u8>>,
    /// Seconds granted to one export attempt.
    pub timeout_secs: u64,
}

/// An exporter together with the plan it was built from.
pub struct Exporter {
    plan: ExporterPlan,
    handle: SpanExporter,
}

/// Which spans are recorded and exported.
#[derive(Debug, Clone, Copy, PartialEq, Eq, Structural)]
pub enum Sampling {
    /// Every span.
    AlwaysOn,
}

/// How trace and span identifiers are made.
#[derive(Debug, Clone, Copy, PartialEq, Eq, Structural)]
pub enum IdGeneration {
    /// Drawn at random.
    Random,
}

/// What the tracer provider is registered with.
#[derive(Debug, Clone, Copy, PartialEq, Eq)]
pub struct TracerSettings {
    /// The value of the resource attribute `service.name` of every span.
    pub service_name: &'static str,
    /// The most spans sent in one request.
    pub max_export_batch_size: usize,
    /// Seconds after which the batching processor gives an export up as
    /// failed.
    pub export_timeout_secs: u64,
    /// The most attributes that a span keeps.
    pub max_attributes_per_span: u32,
    /// The most events that a span keeps.
    pub max_events_per_span: u32,
    /// Which spans are recorded and exported.
    pub sampling: Sampling,
    /// How trace and span identifiers are made.
    pub id_generation: IdGeneration,
}

/// All that the registration of the tracer provider needs: the settings,
/// and the exporter and the two configurations made from them.
pub struct TracerSetup {
    settings: TracerSettings,
    exporter: Exporter,
    batch: BatchConfig,
    trace: Config,
}

/// A byte that the value of an HTTP header may hold: a tab, or anything
/// from the space on but the delete character.
pub open spec fn is_header_byte(byte: u8) -> bool {
    byte >= 32 && byte != 127 || byte == 9
}

/// A text that can be the value of an HTTP header: each byte of its UTF-8
/// encoding is one that a header may hold.
pub open spec fn is_header_text(text: Seq<char>) -> bool {
    forall|i: int| 0 <= i < encode_utf8(text).len() ==> is_header_byte(#[trigger] encode_utf8(text)[i])
}

impl ExporterPlan {
    /// The credential, if there is one, can be sent as a header.
    pub open spec fn credential_is_header_text(self) -> bool {
        match self.authorization {
            Some(credential) => is_header_text(credential@),
            None => true,
        }
    }
}

impl Exporter {
    /// The plan that the exporter was built from.
    pub closed spec fn built_from(self) -> ExporterPlan {
        self.plan
    }

    /// The plan that the exporter was built from.
    pub fn plan(&self) -> (plan: &ExporterPlan)
        ensures
            *plan == self.built_from(),
    {
        &self.plan
    }

    /// The exporter itself.
    pub closed spec fn handle(self) -> SpanExporter {
        self.handle
    }

    /// Gives up the record for the exporter itself.
    pub fn into_handle(self) -> (handle: SpanExporter)
        ensures
            handle == self.handle(),
    {
        self.handle
    }
}

impl TracerSetup {
    /// The settings that the provider is to be registered with.
    pub closed spec fn chosen(self) -> TracerSettings {
        self.settings
    }

    /// The plan that the exporter was built from.
    pub closed spec fn exporter_built_from(self) -> ExporterPlan {
        self.exporter.built_from()
    }

    /// The exporter, the configuration of the batching processor and the
    /// configuration of the provider.
    pub closed spec fn parts(self) -> (SpanExporter, BatchConfig, Config) {
        (self.exporter.handle(), self.batch, self.trace)
    }

    /// The settings that the provider is to be registered with.
    pub fn settings(&self) -> (settings: &TracerSettings)
        ensures
            *settings == self.chosen(),
    {
        &self.settings
    }

    /// The exporter with the plan that it was built from.
    pub fn exporter(&self) -> (exporter: &Exporter)
        ensures
            exporter.built_from() == self.exporter_built_from(),
    {
        &self.exporter
    }

    /// Gives up the record for the exporter, the configuration of the
    /// batching processor and the configuration of the provider.
    pub fn into_parts(self) -> (parts: (SpanExporter, BatchConfig, Config))
        ensures
            parts == self.parts(),
    {
        (self.exporter.into_handle(), self.batch, self.trace)
    }
}

/// The plan that a configuration asks for. The credential is sent where
/// one is configured. The extra root is trusted where a CA file is
/// configured, and then its content must have been supplied. The timeout is
/// fixed.
pub open spec fn planned(configuration: TelemetryConfiguration, ca: Option<CaFile>) -> Result<
    ExporterPlan,
    ExporterBuildError,
> {
    match (configuration.ca_path, ca) {
        (None, _) => Ok(
            ExporterPlan {
                endpoint: configuration.endpoint,
                authorization: configuration.basic_auth_header,
                extra_root: None,
                timeout_secs: EXPORT_TIMEOUT_SECS,
            },
        ),
        (Some(_), Some(CaFile::Contents(pem))) => Ok(
            ExporterPlan {
                endpoint: configuration.endpoint,
                authorization: configuration.basic_auth_header,
                extra_root: Some(pem),
                timeout_secs: EXPORT_TIMEOUT_SECS,
            },
        ),
        (Some(_), _) => Err(ExporterBuildError::UnreadableCa),
    }
}

/// Decides what the exporter is built from. `ca` is what became of reading
/// the configured CA file; it is not looked at where none is configured.
pub fn exporter_plan(configuration: &TelemetryConfiguration, ca: Option<CaFile>) -> (plan: Result<
    ExporterPlan,
    ExporterBuildError,
>)
    ensures
        plan == planned(*configuration, ca),
{
    let extra_root = match &configuration.ca_path {
        None => None,
        Some(_) => match ca {
            Some(CaFile::Contents(pem)) => Some(pem),
            _ => {
                return Err(ExporterBuildError::UnreadableCa);
            },
        },
    };
    Ok(
        ExporterPlan {
            endpoint: configuration.endpoint.clone(),
            authorization: configuration.basic_auth_header.clone(),
            extra_root,
            timeout_secs: EXPORT_TIMEOUT_SECS,
        },
    )
}

/// Calls `reqwest::ClientBuilder::new`.
#[verifier::external_body]
fn client_builder() -> ClientBuilder {
    ClientBuilder::new()
}

/// Calls `HeaderValue::try_from` on the text and `set_sensitive` on what it
/// made. The text is accepted exactly where each of its bytes is one that a
/// header may hold.
#[verifier::external_body]
fn header_value(text: &String, sensitive: bool) -> (made: Result<HeaderValue, InvalidHeaderValue>)
    ensures
        made is Ok <==> is_header_text(text@),
{
    let mut value = HeaderValue::try_from(text)?;
    value.set_sensitive(sensitive);
    Ok(value)
}

/// Calls `ClientBuilder::default_headers` with the one header
/// `Authorization`.
#[verifier::external_body]
fn with_authorization(builder: ClientBuilder, value: HeaderValue) -> ClientBuilder {
    let mut headers = HeaderMap::new();
    headers.insert(AUTHORIZATION, value);
    builder.default_headers(headers)
}

/// Calls `reqwest::Certificate::from_pem`.
#[verifier::external_body]
fn root_certificate(pem: &Vec<u8>) -> Result<Certificate, reqwest::Error> {
    Certificate::from_pem(pem.as_slice())
}

/// Calls `ClientBuilder::add_root_certificate` and `tls_sni`.
#[verifier::external_body]
fn with_root_certificate(builder: ClientBuilder, root: Certificate, sni: bool) -> ClientBuilder {
    builder.add_root_certificate(root).tls_sni(sni)
}

/// Calls `ClientBuilder::build`.
#[verifier::external_body]
fn build_client(builder: ClientBuilder) -> Result<Client, reqwest::Error> {
    builder.build()
}

/// Builds the OTLP exporter over HTTP on the given client, endpoint and
/// timeout: `new_exporter().http()`, `with_http_client`, `with_endpoint`,
/// `with_timeout` and `build_span_exporter`.
#[verifier::external_body]
fn span_exporter(client: Client, endpoint: &String, timeout_secs: u64) -> Result<
    SpanExporter,
    TraceError,
> {
    opentelemetry_otlp::new_exporter()
        .http()
        .with_http_client(client)
        .with_endpoint(endpoint.as_str())
        .with_timeout(Duration::from_secs(timeout_secs))
        .build_span_exporter()
}

/// Builds the exporter that a plan describes. The credential becomes a
/// sensitive default header, the extra root is added to the client's
/// trust, and the exporter gets the client, the endpoint and the timeout.
///
/// A credential that no header can hold is refused, and nothing else is
/// refused for the credential's sake. Whether the client and the exporter
/// can be built is for them to say.
pub fn build_exporter(plan: ExporterPlan) -> (built: Result<Exporter, ExporterBuildError>)
    ensures
        match built {
            Ok(exporter) => exporter.built_from() == plan && plan.credential_is_header_text(),
            Err(error) => {
                &&& error == ExporterBuildError::InvalidCredential
                    <==> !plan.credential_is_header_text()
                &&& error == ExporterBuildError::MalformedCa ==> plan.extra_root is Some
                &&& error != ExporterBuildError::UnreadableCa
            },
        },
{
    let mut builder = client_builder();
    match &plan.authorization {
        Some(credential) => match header_value(credential, true) {
            Ok(value) => {
                builder = with_authorization(builder, value);
            },
            Err(_) => {
                return Err(ExporterBuildError::InvalidCredential);
            },
        },
        None => {},
    }
    match &plan.extra_root {
        Some(pem) => match root_certificate(pem) {
            Ok(root) => {
                builder = with_root_certificate(builder, root, true);
            },
            Err(_) => {
                return Err(ExporterBuildError::MalformedCa);
            },
        },
        None => {},
    }
    let client = match build_client(builder) {
        Ok(client) => client,
        Err(_) => {
            return Err(ExporterBuildError::HttpClient);
        },
    };
    match span_exporter(client, &plan.endpoint, plan.timeout_secs) {
        Ok(handle) => Ok(Exporter { plan, handle }),
        Err(_) => Err(ExporterBuildError::Endpoint),
    }
}

/// Builds the exporter that a configuration asks for.
pub fn http_exporter_from_configuration(
    configuration: &TelemetryConfiguration,
    ca: Option<CaFile>,
) -> (built: Result<Exporter, ExporterBuildError>)
    ensures
        match built {
            Ok(exporter) => {
                &&& planned(*configuration, ca) == Ok::<ExporterPlan, ExporterBuildError>(
                    exporter.built_from(),
                )
                &&& exporter.built_from().credential_is_header_text()
            },
            Err(error) => match planned(*configuration, ca) {
                Err(refusal) => error == refusal,
                Ok(plan) => {
                    &&& error == ExporterBuildError::InvalidCredential
                        <==> !plan.credential_is_header_text()
                    &&& error == ExporterBuildError::MalformedCa ==> plan.extra_root is Some
                    &&& error != ExporterBuildError::UnreadableCa
                },
            },
        },
{
    match exporter_plan(configuration, ca) {
        Ok(plan) => build_exporter(plan),
        Err(refusal) => Err(refusal),
    }
}

/// The settings that a configuration and a service name ask for, where the
/// batch size is not zero: batches of at most that size, every span
/// sampled, random identifiers, and the fixed timeout of an export and caps
/// on a span's attributes and events.
pub open spec fn settings_for(configuration: TelemetryConfiguration, service_name: &'static str) -> TracerSettings {
    TracerSettings {
        service_name,
        max_export_batch_size: configuration.batch_size,
        export_timeout_secs: EXPORT_TIMEOUT_SECS,
        max_attributes_per_span: MAX_ATTRIBUTES_PER_SPAN,
        max_events_per_span: MAX_EVENTS_PER_SPAN,
        sampling: Sampling::AlwaysOn,
        id_generation: IdGeneration::Random,
    }
}

/// Decides what the tracer provider is registered with. A batch size of
/// zero is refused.
pub fn tracer_settings(configuration: &TelemetryConfiguration, service_name: &'static str) -> (settings: Result<
    TracerSettings,
    InitError,
>)
    ensures
        configuration.batch_size == 0 ==> settings == Err::<TracerSettings, InitError>(
            InitError::InvalidBatchSize,
        ),
        configuration.batch_size > 0 ==> settings == Ok::<TracerSettings, InitError>(
            settings_for(*configuration, service_name),
        ),
{
    if configuration.batch_size == 0 {
        return Err(InitError::InvalidBatchSize);
    }
    Ok(
        TracerSettings {
            service_name,
            max_export_batch_size: configuration.batch_size,
            export_timeout_secs: EXPORT_TIMEOUT_SECS,
            max_attributes_per_span: MAX_ATTRIBUTES_PER_SPAN,
            max_events_per_span: MAX_EVENTS_PER_SPAN,
            sampling: Sampling::AlwaysOn,
            id_generation: IdGeneration::Random,
        },
    )
}

/// Builds the configuration of the batching processor with
/// `BatchConfigBuilder`: `with_max_export_batch_size`,
/// `with_max_export_timeout` and `build`. What is not set here is the SDK's
/// default. The SDK sends no batch larger than its queue, and where the
/// queue is full it drops the span that comes.
#[verifier::external_body]
fn batch_config(max_export_batch_size: usize, export_timeout_secs: u64) -> BatchConfig {
    BatchConfigBuilder::default()
        .with_max_export_batch_size(max_export_batch_size)
        .with_max_export_timeout(Duration::from_secs(export_timeout_secs))
        .build()
}

/// Builds the configuration of the tracer provider from the settings:
/// `with_sampler`, `with_id_generator`, the two caps of a span, and
/// `with_resource` with the one attribute that names the service.
#[verifier::external_body]
fn trace_config(settings: &TracerSettings, service_name_key: &'static str) -> Config {
    let sampler = match settings.sampling {
        Sampling::AlwaysOn => Sampler::AlwaysOn,
    };
    let resource = Resource::new(vec![KeyValue::new(service_name_key, settings.service_name)]);
    let config = Config::default()
        .with_sampler(sampler)
        .with_max_attributes_per_span(settings.max_attributes_per_span)
        .with_max_events_per_span(settings.max_events_per_span)
        .with_resource(resource);
    match settings.id_generation {
        IdGeneration::Random => config.with_id_generator(RandomIdGenerator::default()),
    }
}

/// The key of the resource attribute that names the service.
pub fn service_name_key() -> (key: &'static str)
    ensures
        key@ == "service.name"@,
{
    "service.name"
}

/// Prepares the tracer of a process: the settings of the provider, the
/// exporter behind it, and the configurations of the provider and of its
/// batching processor. The provider itself is registered by the caller,
/// inside its runtime; a later registration replaces an earlier one.
pub fn init_tracer(
    configuration: &TelemetryConfiguration,
    service_name: &'static str,
    ca: Option<CaFile>,
) -> (setup: Result<TracerSetup, InitError>)
    ensures
        configuration.batch_size == 0 ==> setup is Err && setup->Err_0 == InitError::InvalidBatchSize,
        match setup {
            Ok(ready) => {
                &&& configuration.batch_size > 0
                &&& ready.chosen() == settings_for(*configuration, service_name)
                &&& planned(*configuration, ca) == Ok::<ExporterPlan, ExporterBuildError>(
                    ready.exporter_built_from(),
                )
                &&& ready.exporter_built_from().credential_is_header_text()
            },
            Err(InitError::InvalidBatchSize) => configuration.batch_size == 0,
            Err(InitError::Exporter(error)) => match planned(*configuration, ca) {
                Err(refusal) => error == refusal,
                Ok(plan) => {
                    &&& error == ExporterBuildError::InvalidCredential
                        <==> !plan.credential_is_header_text()
                    &&& error == ExporterBuildError::MalformedCa ==> plan.extra_root is Some
                    &&& error != ExporterBuildError::UnreadableCa
                },
            },
        },
{
    let settings = match tracer_settings(configuration, service_name) {
        Ok(settings) => settings,
        Err(error) => {
            return Err(error);
        },
    };
    let exporter = match http_exporter_from_configuration(configuration, ca) {
        Ok(exporter) => exporter,
        Err(error) => {
            return Err(InitError::Exporter(error));
        },
    };
    let batch = batch_config(settings.max_export_batch_size, settings.export_timeout_secs);
    let trace = trace_config(&settings, service_name_key());
    Ok(TracerSetup { settings, exporter, batch, trace })
}

} // verus!
