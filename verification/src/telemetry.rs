//! Telemetry: what each recording call emits, and the in-process counters beside it.
//!
//! Recording returns samples: an instrument, a value and labels. The daemon feeds them to
//! its metric registry. A duration that the caller measured is marked
//! [`SampleValue::Measured`]; its number goes to the registry directly.

use vstd::prelude::*;

use crate::instruments::{Instrument, TelemetryInner};
use crate::live_stats::{LiveStats, LiveStatsView};
use crate::table::NameTable;
use crate::text;

verus! {

/// Instrument-name prefix when none is configured.
pub const DEFAULT_INSTRUMENT_PREFIX: &'static str = "thur";

/// Service name when none is configured.
pub const DEFAULT_SERVICE_NAME: &'static str = "thurvtl";

/// OTLP transport.
#[derive(Debug, Clone, Copy, PartialEq, Eq, Structural)]
pub enum OtlpProtocol {
    /// gRPC over HTTP/2.
    Grpc,
    /// HTTP/1.1 with a protobuf body.
    HttpProtobuf,
}

/// Configuration of the OTLP push exporter.
#[derive(Debug)]
pub struct OtlpExporterConfig {
    pub endpoint: String,
    pub protocol: OtlpProtocol,
    /// Time between two pushes.
    pub interval: std::time::Duration,
    /// Extra headers, such as an authorization.
    pub headers: Vec<(String, String)>,
}

impl Clone for OtlpExporterConfig {
    fn clone(&self) -> (r: Self)
        ensures
            r.endpoint == self.endpoint,
            r.protocol == self.protocol,
            r.interval == self.interval,
            r.headers@ == self.headers@,
    {
        let mut headers: Vec<(String, String)> = Vec::new();
        let mut i: usize = 0;
        while i < self.headers.len()
            invariant
                i <= self.headers@.len(),
                headers@ == self.headers@.take(i as int),
            decreases self.headers@.len() - i,
        {
            headers.push((self.headers[i].0.clone(), self.headers[i].1.clone()));
            assert(headers@ =~= self.headers@.take(i + 1));
            i += 1;
        }
        assert(headers@ =~= self.headers@);
        OtlpExporterConfig {
            endpoint: self.endpoint.clone(),
            protocol: self.protocol,
            interval: self.interval,
            headers,
        }
    }
}

/// The telemetry configuration.
#[derive(Debug, Clone)]
pub struct TelemetryConfig {
    /// `service.name`; [`DEFAULT_SERVICE_NAME`] when unset.
    pub service_name: Option<String>,
    /// `service.instance.id`, left out when unset.
    pub service_instance_id: Option<String>,
    /// Instrument-name prefix; [`DEFAULT_INSTRUMENT_PREFIX`] when unset.
    pub instrument_prefix: Option<String>,
    /// Push exporter; without one, only the scrape endpoint is served.
    pub otlp: Option<OtlpExporterConfig>,
}

impl Default for TelemetryConfig {
    fn default() -> (r: Self)
        ensures
            r.service_name is None,
            r.service_instance_id is None,
            r.instrument_prefix is None,
            r.otlp is None,
    {
        TelemetryConfig {
            service_name: None,
            service_instance_id: None,
            instrument_prefix: None,
            otlp: None,
        }
    }
}

/// Telemetry could not be set up.
#[derive(Debug, Clone, PartialEq, Eq)]
pub enum TelemetryError {
    Prometheus(String),
    OtlpBuild(String),
    OtlpHeader(String),
}

impl TelemetryError {
    /// The one-line text of this error.
    pub fn text(&self) -> (r: String)
        ensures
            r@ == match *self {
                TelemetryError::Prometheus(m) => "prometheus exporter init: "@ + m@,
                TelemetryError::OtlpBuild(m) => "otlp exporter build: "@ + m@,
                TelemetryError::OtlpHeader(m) => "otlp header config: "@ + m@,
            },
    {
        match self {
            TelemetryError::Prometheus(m) => text::concat2("prometheus exporter init: ", m),
            TelemetryError::OtlpBuild(m) => text::concat2("otlp exporter build: ", m),
            TelemetryError::OtlpHeader(m) => text::concat2("otlp header config: ", m),
        }
    }
}

/// A resource attribute of the emitting service.
#[derive(Debug, Clone, Copy, PartialEq, Eq, Structural)]
pub enum ResourceAttribute {
    ServiceName,
    ServiceVersion,
    ServiceInstanceId,
}

/// The view of a list of attributes.
pub open spec fn attribute_views(attrs: Seq<(ResourceAttribute, String)>) -> Seq<
    (ResourceAttribute, Seq<char>),
> {
    attrs.map_values(|a: (ResourceAttribute, String)| (a.0, a.1@))
}

/// The configured text, or a default.
pub open spec fn text_or(value: Option<String>, default: Seq<char>) -> Seq<char> {
    match value {
        Some(s) => s@,
        None => default,
    }
}

/// The resource attributes of a service at `version`.
pub fn build_resource(cfg: &TelemetryConfig, version: &str) -> (r: Vec<
    (ResourceAttribute, String),
>)
    ensures
        attribute_views(r@) == seq![
            (ResourceAttribute::ServiceName, text_or(cfg.service_name, DEFAULT_SERVICE_NAME@)),
            (ResourceAttribute::ServiceVersion, version@),
        ] + match cfg.service_instance_id {
            Some(id) => seq![(ResourceAttribute::ServiceInstanceId, id@)],
            None => Seq::empty(),
        },
{
    let name = match &cfg.service_name {
        Some(s) => s.clone(),
        None => DEFAULT_SERVICE_NAME.to_owned(),
    };
    let mut attrs: Vec<(ResourceAttribute, String)> = Vec::new();
    attrs.push((ResourceAttribute::ServiceName, name));
    attrs.push((ResourceAttribute::ServiceVersion, version.to_owned()));
    if let Some(id) = &cfg.service_instance_id {
        attrs.push((ResourceAttribute::ServiceInstanceId, id.clone()));
    }
    assert(attribute_views(attrs@) =~= seq![
        (ResourceAttribute::ServiceName, text_or(cfg.service_name, DEFAULT_SERVICE_NAME@)),
        (ResourceAttribute::ServiceVersion, version@),
    ] + match cfg.service_instance_id {
        Some(id) => seq![(ResourceAttribute::ServiceInstanceId, id@)],
        None => Seq::empty(),
    });
    attrs
}

/// Longest name of a metadata entry.
pub const MAX_METADATA_KEY_LEN: usize = 65_535;

pub const KEY_REFUSED: &'static str = "invalid gRPC metadata key name";

pub const VALUE_REFUSED: &'static str = "failed to parse metadata value";

/// The character may stand in the name of a header.
pub open spec fn is_name_char(c: char) -> bool {
    ||| 'a' <= c <= 'z'
    ||| 'A' <= c <= 'Z'
    ||| '0' <= c <= '9'
    ||| c == '!' || c == '#' || c == '$' || c == '%' || c == '&' || c == '\''
    ||| c == '*' || c == '+' || c == '-' || c == '.'
    ||| c == '^' || c == '_' || c == '`' || c == '|' || c == '~'
}

/// The name ends in `-bin`, in letters of either case, which marks binary values.
pub open spec fn names_binary(key: Seq<char>) -> bool {
    let n = key.len();
    &&& n >= 4
    &&& key[n - 4] == '-'
    &&& key[n - 3] == 'b' || key[n - 3] == 'B'
    &&& key[n - 2] == 'i' || key[n - 2] == 'I'
    &&& key[n - 1] == 'n' || key[n - 1] == 'N'
}

/// Why gRPC refuses `key` as the name of a text entry, if it does: it takes a header name
/// that is neither empty nor too long and does not mark binary values.
pub open spec fn grpc_key_refusal(key: Seq<char>) -> Option<Seq<char>> {
    if 1 <= key.len() <= MAX_METADATA_KEY_LEN && (forall|i: int|
        0 <= i < key.len() ==> is_name_char(#[trigger] key[i])) && !names_binary(key) {
        None
    } else {
        Some(KEY_REFUSED@)
    }
}

/// Why gRPC refuses `value` as the text of an entry, if it does: it takes no control
/// character but the tab.
pub open spec fn grpc_value_refusal(value: Seq<char>) -> Option<Seq<char>> {
    if forall|i: int|
        0 <= i < value.len() ==> (#[trigger] value[i]) == '\t' || (value[i] as u32 >= 32
            && value[i] as u32 != 127) {
        None
    } else {
        Some(VALUE_REFUSED@)
    }
}

/// `tonic::metadata::AsciiMetadataKey::from_str`: the error's text when the key is refused. A
/// key is taken exactly if it is a header name of allowed length without the binary ending.
#[verifier::external_body]
fn grpc_key_error(key: &str) -> (r: Option<String>)
    ensures
        text::opt_view(r) == grpc_key_refusal(key@),
{
    key.parse::<tonic::metadata::AsciiMetadataKey>().err().map(|e| e.to_string())
}

/// `tonic::metadata::AsciiMetadataValue::from_str`: the error's text when the value is
/// refused. A value is taken exactly if each of its bytes is a tab or, not being 127, at
/// least 32; the bytes of characters beyond ASCII all are.
#[verifier::external_body]
fn grpc_value_error(value: &str) -> (r: Option<String>)
    ensures
        text::opt_view(r) == grpc_value_refusal(value@),
{
    value.parse::<tonic::metadata::AsciiMetadataValue>().err().map(|e| e.to_string())
}

/// The message about one header, given what was found wrong with its key and value; a bad
/// key is reported first.
pub open spec fn header_complaint(
    key: Seq<char>,
    key_error: Option<Seq<char>>,
    value_error: Option<Seq<char>>,
) -> Option<Seq<char>> {
    match key_error {
        Some(e) => Some("invalid header key '"@ + key + "': "@ + e),
        None => match value_error {
            Some(e) => Some("invalid header value for '"@ + key + "': "@ + e),
            None => None,
        },
    }
}

/// The message about the first header in order that gRPC refuses.
pub open spec fn first_complaint(headers: Seq<(String, String)>) -> Option<Seq<char>>
    decreases headers.len(),
{
    if headers.len() == 0 {
        None
    } else {
        match first_complaint(headers.drop_last()) {
            Some(m) => Some(m),
            None => header_complaint(
                headers.last().0@,
                grpc_key_refusal(headers.last().0@),
                grpc_value_refusal(headers.last().1@),
            ),
        }
    }
}

/// The verdict on one header, given what was found wrong with its key and value.
pub fn header_verdict(key: &str, key_error: Option<String>, value_error: Option<String>) -> (r:
    Result<(), TelemetryError>)
    ensures
        match header_complaint(key@, text::opt_view(key_error), text::opt_view(value_error)) {
            None => r is Ok,
            Some(m) => r matches Err(TelemetryError::OtlpHeader(t)) && t@ == m,
        },
{
    match key_error {
        Some(e) => {
            let mut m = text::concat2("invalid header key '", key);
            m.append("': ");
            m.append(e.as_str());
            Err(TelemetryError::OtlpHeader(m))
        },
        None => match value_error {
            Some(e) => {
                let mut m = text::concat2("invalid header value for '", key);
                m.append("': ");
                m.append(e.as_str());
                Err(TelemetryError::OtlpHeader(m))
            },
            None => Ok(()),
        },
    }
}

/// Checks the headers of an exporter. gRPC headers must be valid metadata; HTTP headers are
/// taken as they are.
pub fn check_otlp_headers(cfg: &OtlpExporterConfig) -> (r: Result<(), TelemetryError>)
    ensures
        cfg.protocol is HttpProtobuf ==> r is Ok,
        cfg.protocol is Grpc ==> match first_complaint(cfg.headers@) {
            None => r is Ok,
            Some(m) => r matches Err(TelemetryError::OtlpHeader(t)) && t@ == m,
        },
{
    match cfg.protocol {
        OtlpProtocol::HttpProtobuf => Ok(()),
        OtlpProtocol::Grpc => {
            let mut i: usize = 0;
            proof {
                assert(cfg.headers@.take(0) =~= Seq::<(String, String)>::empty());
            }
            while i < cfg.headers.len()
                invariant
                    i <= cfg.headers@.len(),
                    cfg.protocol is Grpc,
                    first_complaint(cfg.headers@.take(i as int)) is None,
                decreases cfg.headers@.len() - i,
            {
                let key = cfg.headers[i].0.as_str();
                let value = cfg.headers[i].1.as_str();
                proof {
                    let next = cfg.headers@.take(i + 1);
                    assert(next.drop_last() =~= cfg.headers@.take(i as int));
                    assert(next.last() == cfg.headers@[i as int]);
                }
                match header_verdict(key, grpc_key_error(key), grpc_value_error(value)) {
                    Ok(()) => {},
                    Err(e) => {
                        proof {
                            lemma_first_complaint_stays(cfg.headers@, i + 1);
                        }
                        return Err(e);
                    },
                }
                i += 1;
            }
            proof {
                assert(cfg.headers@.take(i as int) =~= cfg.headers@);
            }
            Ok(())
        },
    }
}

/// Further headers do not displace an earlier complaint.
proof fn lemma_first_complaint_stays(headers: Seq<(String, String)>, n: int)
    requires
        0 <= n <= headers.len(),
        first_complaint(headers.take(n)) is Some,
    ensures
        first_complaint(headers) == first_complaint(headers.take(n)),
    decreases headers.len(),
{
    if n == headers.len() {
        assert(headers.take(n) =~= headers);
    } else {
        let front = headers.drop_last();
        assert(front.take(n) =~= headers.take(n));
        lemma_first_complaint_stays(front, n);
    }
}

/// What a list of headers maps each name to: the last value given.
pub open spec fn header_map(headers: Seq<(String, String)>) -> Map<Seq<char>, Seq<char>>
    decreases headers.len(),
{
    if headers.len() == 0 {
        Map::empty()
    } else {
        header_map(headers.drop_last()).insert(headers.last().0@, headers.last().1@)
    }
}

/// The headers of an HTTP exporter as a table; of a repeated name the last value counts.
pub fn header_table(headers: &Vec<(String, String)>) -> (r: NameTable<String>)
    ensures
        r.wf(),
        r@.map_values(|v: String| v@) == header_map(headers@),
{
    let mut table: NameTable<String> = NameTable::new();
    let mut i: usize = 0;
    proof {
        assert(headers@.take(0) =~= Seq::<(String, String)>::empty());
        assert(table@.map_values(|v: String| v@) =~= header_map(headers@.take(0)));
    }
    while i < headers.len()
        invariant
            i <= headers@.len(),
            table.wf(),
            table@.map_values(|v: String| v@) == header_map(headers@.take(i as int)),
        decreases headers@.len() - i,
    {
        let ghost before = table@;
        table.insert(headers[i].0.as_str(), headers[i].1.clone());
        proof {
            let next = headers@.take(i + 1);
            assert(next.drop_last() =~= headers@.take(i as int));
            assert(next.last() == headers@[i as int]);
            assert(table@.map_values(|v: String| v@) =~= before.map_values(|v: String| v@).insert(
                headers@[i as int].0@,
                headers@[i as int].1@,
            ));
        }
        i += 1;
    }
    proof {
        assert(headers@.take(i as int) =~= headers@);
    }
    table
}

/// The value of a sample.
#[derive(Debug, Clone, Copy, PartialEq, Eq, Structural)]
pub enum SampleValue {
    /// An amount to add, or an unsigned level.
    U64(u64),
    /// A signed level.
    I64(i64),
    /// The duration that the caller measured.
    Measured,
}

/// One observation for the metric registry.
#[derive(Debug, Clone, PartialEq, Eq)]
pub struct Sample {
    pub instrument: Instrument,
    pub value: SampleValue,
    pub labels: Vec<(&'static str, String)>,
}

/// The abstract sample.
pub struct SampleView {
    pub instrument: Instrument,
    pub value: SampleValue,
    pub labels: Seq<(Seq<char>, Seq<char>)>,
}

/// The view of a list of labels.
pub open spec fn label_views(labels: Seq<(&'static str, String)>) -> Seq<(Seq<char>, Seq<char>)> {
    labels.map_values(|l: (&'static str, String)| (l.0@, l.1@))
}

impl View for Sample {
    type V = SampleView;

    open spec fn view(&self) -> SampleView {
        SampleView {
            instrument: self.instrument,
            value: self.value,
            labels: label_views(self.labels@),
        }
    }
}

/// The views of a list of samples.
pub open spec fn sample_views(samples: Seq<Sample>) -> Seq<SampleView> {
    samples.map_values(|s: Sample| s@)
}

/// One abstract sample.
pub open spec fn sampled(
    instrument: Instrument,
    value: SampleValue,
    labels: Seq<(Seq<char>, Seq<char>)>,
) -> SampleView {
    SampleView { instrument, value, labels }
}

/// Appends a label.
fn add_label(labels: &mut Vec<(&'static str, String)>, name: &'static str, value: &str)
    ensures
        label_views(final(labels)@) == label_views(old(labels)@).push((name@, value@)),
{
    labels.push((name, value.to_owned()));
    assert(label_views(labels@) =~= label_views(old(labels)@).push((name@, value@)));
}

/// Appends a sample.
fn emit(
    out: &mut Vec<Sample>,
    instrument: Instrument,
    value: SampleValue,
    labels: &Vec<(&'static str, String)>,
)
    ensures
        sample_views(final(out)@) == sample_views(old(out)@).push(
            sampled(instrument, value, label_views(labels@)),
        ),
{
    let mut copy: Vec<(&'static str, String)> = Vec::new();
    let mut i: usize = 0;
    while i < labels.len()
        invariant
            i <= labels@.len(),
            copy@ == labels@.take(i as int),
        decreases labels@.len() - i,
    {
        copy.push((labels[i].0, labels[i].1.clone()));
        assert(copy@ =~= labels@.take(i + 1));
        i += 1;
    }
    assert(copy@ =~= labels@);
    out.push(Sample { instrument, value, labels: copy });
    assert(sample_views(out@) =~= sample_views(old(out)@).push(
        sampled(instrument, value, label_views(labels@)),
    ));
}

/// A telemetry instance: its instruments and its in-process counters.
pub struct Telemetry {
    inner: TelemetryInner,
    live_stats: LiveStats,
}

impl Telemetry {
    /// The counters can be used.
    pub closed spec fn wf(&self) -> bool {
        self.live_stats.wf()
    }

    /// The in-process counters.
    pub closed spec fn stats(&self) -> LiveStatsView {
        self.live_stats@
    }

    /// The instruments.
    pub closed spec fn instruments_view(&self) -> TelemetryInner {
        self.inner
    }

    /// The instruments are those of `prefix`.
    pub open spec fn named_with(&self, prefix: Seq<char>) -> bool {
        self.instruments_view().built(prefix)
    }

    /// Sets up the instruments and counters of a configuration. Fails iff a gRPC push
    /// exporter is configured with a header that gRPC refuses.
    pub fn new(cfg: &TelemetryConfig) -> (r: Result<Self, TelemetryError>)
        ensures
            r matches Ok(t) ==> t.wf() && t.stats() == empty_stats() && t.named_with(
                text_or(cfg.instrument_prefix, DEFAULT_INSTRUMENT_PREFIX@),
            ),
            match header_refusal(cfg) {
                None => r is Ok,
                Some(m) => r matches Err(TelemetryError::OtlpHeader(e)) && e@ == m,
            },
    {
        if let Some(otlp) = &cfg.otlp {
            match check_otlp_headers(otlp) {
                Ok(()) => {},
                Err(e) => return Err(e),
            }
        }
        let inner = match &cfg.instrument_prefix {
            Some(p) => TelemetryInner::build(p.as_str()),
            None => TelemetryInner::build(DEFAULT_INSTRUMENT_PREFIX),
        };
        Ok(Telemetry { inner, live_stats: LiveStats::default() })
    }

    /// As [`Telemetry::new`] with the default configuration, which cannot fail.
    pub fn new_default() -> (r: Result<Self, TelemetryError>)
        ensures
            r matches Ok(t) && t.wf() && t.stats() == empty_stats() && t.named_with(
                DEFAULT_INSTRUMENT_PREFIX@,
            ),
    {
        Telemetry::new(&TelemetryConfig::default())
    }

    /// A telemetry instance with the default configuration.
    pub fn noop() -> (r: Self)
        ensures
            r.wf(),
            r.stats() == empty_stats(),
            r.named_with(DEFAULT_INSTRUMENT_PREFIX@),
    {
        Telemetry {
            inner: TelemetryInner::build(DEFAULT_INSTRUMENT_PREFIX),
            live_stats: LiveStats::default(),
        }
    }

    /// The instruments, for registration.
    pub fn instruments(&self) -> (r: &TelemetryInner)
        ensures
            *r == self.instruments_view(),
    {
        &self.inner
    }

    /// The in-process counters.
    pub fn live_stats(&self) -> (r: &LiveStats)
        requires
            self.wf(),
        ensures
            r@ == self.stats(),
            r.wf(),
    {
        &self.live_stats
    }

    /// A wait for pool room begins.
    pub fn pool_waiter_in(&mut self, backend: &str)
        requires
            old(self).wf(),
        ensures
            final(self).wf(),
            final(self).stats() == old(self).stats().waiter_in(backend@),
            final(self).instruments_view() == old(self).instruments_view(),
    {
        self.live_stats.inc_waiters(backend);
    }

    /// A wait for pool room ends.
    pub fn pool_waiter_out(&mut self, backend: &str)
        requires
            old(self).wf(),
        ensures
            final(self).wf(),
            final(self).stats() == old(self).stats().waiter_out(backend@),
            final(self).instruments_view() == old(self).instruments_view(),
    {
        self.live_stats.dec_waiters(backend);
    }

    /// Bytes in use in one backend's pool.
    pub fn pool_set_used(&self, backend: &str, used: u64) -> (r: Vec<Sample>)
        ensures
            sample_views(r@) == seq![
                sampled(Instrument::PoolUsedBytes, SampleValue::U64(used), seq![("backend"@, backend@)]),
            ],
    {
        let mut out: Vec<Sample> = Vec::new();
        let mut labels: Vec<(&'static str, String)> = Vec::new();
        add_label(&mut labels, "backend", backend);
        assert(label_views(labels@) =~= seq![("backend"@, backend@)]);
        emit(&mut out, Instrument::PoolUsedBytes, SampleValue::U64(used), &labels);
        assert(sample_views(out@) =~= seq![
                sampled(Instrument::PoolUsedBytes, SampleValue::U64(used), seq![("backend"@, backend@)]),
            ]);
        out
    }

    /// The cap of one backend's pool.
    pub fn pool_set_cap(&self, backend: &str, cap: u64) -> (r: Vec<Sample>)
        ensures
            sample_views(r@) == seq![
                sampled(Instrument::PoolCapBytes, SampleValue::U64(cap), seq![("backend"@, backend@)]),
            ],
    {
        let mut out: Vec<Sample> = Vec::new();
        let mut labels: Vec<(&'static str, String)> = Vec::new();
        add_label(&mut labels, "backend", backend);
        assert(label_views(labels@) =~= seq![("backend"@, backend@)]);
        emit(&mut out, Instrument::PoolCapBytes, SampleValue::U64(cap), &labels);
        assert(sample_views(out@) =~= seq![
                sampled(Instrument::PoolCapBytes, SampleValue::U64(cap), seq![("backend"@, backend@)]),
            ]);
        out
    }

    /// One eviction from a pool.
    pub fn pool_inc_eviction(&self, backend: &str) -> (r: Vec<Sample>)
        ensures
            sample_views(r@) == seq![
                sampled(Instrument::PoolEvictionsTotal, SampleValue::U64(1), seq![("backend"@, backend@)]),
            ],
    {
        let mut out: Vec<Sample> = Vec::new();
        let mut labels: Vec<(&'static str, String)> = Vec::new();
        add_label(&mut labels, "backend", backend);
        assert(label_views(labels@) =~= seq![("backend"@, backend@)]);
        emit(&mut out, Instrument::PoolEvictionsTotal, SampleValue::U64(1), &labels);
        assert(sample_views(out@) =~= seq![
                sampled(Instrument::PoolEvictionsTotal, SampleValue::U64(1), seq![("backend"@, backend@)]),
            ]);
        out
    }

    /// One completed wait for pool room, with its measured duration.
    pub fn pool_record_backpressure_wait(&mut self, backend: &str) -> (r: Vec<Sample>)
        requires
            old(self).wf(),
        ensures
            final(self).wf(),
            final(self).stats() == old(self).stats().pool_wait(backend@),
            final(self).instruments_view() == old(self).instruments_view(),
            sample_views(r@) == seq![
                sampled(Instrument::PoolBackpressureWaitsTotal, SampleValue::U64(1), seq![("backend"@, backend@)]),
                sampled(Instrument::PoolBackpressureWaitSeconds, SampleValue::Measured, seq![("backend"@, backend@)]),
            ],
    {
        let mut out: Vec<Sample> = Vec::new();
        let mut labels: Vec<(&'static str, String)> = Vec::new();
        add_label(&mut labels, "backend", backend);
        assert(label_views(labels@) =~= seq![("backend"@, backend@)]);
        emit(&mut out, Instrument::PoolBackpressureWaitsTotal, SampleValue::U64(1), &labels);
        emit(&mut out, Instrument::PoolBackpressureWaitSeconds, SampleValue::Measured, &labels);
        self.live_stats.record_pool_wait(backend);
        assert(sample_views(out@) =~= seq![
                sampled(Instrument::PoolBackpressureWaitsTotal, SampleValue::U64(1), seq![("backend"@, backend@)]),
                sampled(Instrument::PoolBackpressureWaitSeconds, SampleValue::Measured, seq![("backend"@, backend@)]),
            ]);
        out
    }

    /// One page-cache eviction; `outcome` is `clean` or `dirty`.
    pub fn cache_inc_eviction(&self, volume: &str, outcome: &str) -> (r: Vec<Sample>)
        ensures
            sample_views(r@) == seq![
                sampled(Instrument::CacheEvictionsTotal, SampleValue::U64(1), seq![("volume"@, volume@), ("outcome"@, outcome@)]),
            ],
    {
        let mut out: Vec<Sample> = Vec::new();
        let mut labels: Vec<(&'static str, String)> = Vec::new();
        add_label(&mut labels, "volume", volume);
        add_label(&mut labels, "outcome", outcome);
        assert(label_views(labels@) =~= seq![("volume"@, volume@), ("outcome"@, outcome@)]);
        emit(&mut out, Instrument::CacheEvictionsTotal, SampleValue::U64(1), &labels);
        assert(sample_views(out@) =~= seq![
                sampled(Instrument::CacheEvictionsTotal, SampleValue::U64(1), seq![("volume"@, volume@), ("outcome"@, outcome@)]),
            ]);
        out
    }

    /// A cache miss on a recently evicted chunk, with the measured age.
    pub fn cache_record_miss_after_eviction(&self, backend: &str) -> (r: Vec<Sample>)
        ensures
            sample_views(r@) == seq![
                sampled(Instrument::CacheMissAfterEvictionSeconds, SampleValue::Measured, seq![("backend"@, backend@)]),
            ],
    {
        let mut out: Vec<Sample> = Vec::new();
        let mut labels: Vec<(&'static str, String)> = Vec::new();
        add_label(&mut labels, "backend", backend);
        assert(label_views(labels@) =~= seq![("backend"@, backend@)]);
        emit(&mut out, Instrument::CacheMissAfterEvictionSeconds, SampleValue::Measured, &labels);
        assert(sample_views(out@) =~= seq![
                sampled(Instrument::CacheMissAfterEvictionSeconds, SampleValue::Measured, seq![("backend"@, backend@)]),
            ]);
        out
    }

    /// One EXTENDED COPY command; `outcome` is `success`, `reject` or `error`.
    pub fn scsi_xcopy_inc(&self, outcome: &str) -> (r: Vec<Sample>)
        ensures
            sample_views(r@) == seq![
                sampled(Instrument::ScsiXcopyTotal, SampleValue::U64(1), seq![("outcome"@, outcome@)]),
            ],
    {
        let mut out: Vec<Sample> = Vec::new();
        let mut labels: Vec<(&'static str, String)> = Vec::new();
        add_label(&mut labels, "outcome", outcome);
        assert(label_views(labels@) =~= seq![("outcome"@, outcome@)]);
        emit(&mut out, Instrument::ScsiXcopyTotal, SampleValue::U64(1), &labels);
        assert(sample_views(out@) =~= seq![
                sampled(Instrument::ScsiXcopyTotal, SampleValue::U64(1), seq![("outcome"@, outcome@)]),
            ]);
        out
    }

    /// Bytes copied by EXTENDED COPY; `path` is `fast` or `slow`.
    pub fn scsi_xcopy_add_bytes(&self, path: &str, bytes: u64) -> (r: Vec<Sample>)
        ensures
            sample_views(r@) == seq![
                sampled(Instrument::ScsiXcopyBytesTotal, SampleValue::U64(bytes), seq![("path"@, path@)]),
            ],
    {
        let mut out: Vec<Sample> = Vec::new();
        let mut labels: Vec<(&'static str, String)> = Vec::new();
        add_label(&mut labels, "path", path);
        assert(label_views(labels@) =~= seq![("path"@, path@)]);
        emit(&mut out, Instrument::ScsiXcopyBytesTotal, SampleValue::U64(bytes), &labels);
        assert(sample_views(out@) =~= seq![
                sampled(Instrument::ScsiXcopyBytesTotal, SampleValue::U64(bytes), seq![("path"@, path@)]),
            ]);
        out
    }

    /// One executed EXTENDED COPY segment.
    pub fn scsi_xcopy_inc_segment(&self, path: &str) -> (r: Vec<Sample>)
        ensures
            sample_views(r@) == seq![
                sampled(Instrument::ScsiXcopySegmentsTotal, SampleValue::U64(1), seq![("path"@, path@)]),
            ],
    {
        let mut out: Vec<Sample> = Vec::new();
        let mut labels: Vec<(&'static str, String)> = Vec::new();
        add_label(&mut labels, "path", path);
        assert(label_views(labels@) =~= seq![("path"@, path@)]);
        emit(&mut out, Instrument::ScsiXcopySegmentsTotal, SampleValue::U64(1), &labels);
        assert(sample_views(out@) =~= seq![
                sampled(Instrument::ScsiXcopySegmentsTotal, SampleValue::U64(1), seq![("path"@, path@)]),
            ]);
        out
    }

    /// One storage request, with its measured duration. `op` is one of `put`, `get`, `head`,
    /// `delete`; `outcome` is `ok` or `error`. The byte counter is fed only when bytes moved.
    pub fn storage_record_request(&mut self, backend: &str, op: &str, outcome: &str, bytes: u64) -> (r: Vec<Sample>)
        requires
            old(self).wf(),
        ensures
            final(self).wf(),
            final(self).stats() == old(self).stats().storage_op(backend@, op@, outcome@, bytes),
            final(self).instruments_view() == old(self).instruments_view(),
            sample_views(r@) == seq![
                sampled(Instrument::StorageRequestsTotal, SampleValue::U64(1), seq![("backend"@, backend@), ("op"@, op@), ("outcome"@, outcome@)]),
                sampled(Instrument::StorageRequestSeconds, SampleValue::Measured, seq![("backend"@, backend@), ("op"@, op@), ("outcome"@, outcome@)]),
            ] + (if bytes > 0 {
                seq![sampled(Instrument::StorageBytesTotal, SampleValue::U64(bytes), seq![("backend"@, backend@), ("op"@, op@), ("outcome"@, outcome@)])]
            } else {
                Seq::empty()
            }),
    {
        let mut out: Vec<Sample> = Vec::new();
        let mut labels: Vec<(&'static str, String)> = Vec::new();
        add_label(&mut labels, "backend", backend);
        add_label(&mut labels, "op", op);
        add_label(&mut labels, "outcome", outcome);
        assert(label_views(labels@) =~= seq![("backend"@, backend@), ("op"@, op@), ("outcome"@, outcome@)]);
        emit(&mut out, Instrument::StorageRequestsTotal, SampleValue::U64(1), &labels);
        emit(&mut out, Instrument::StorageRequestSeconds, SampleValue::Measured, &labels);
        if bytes > 0 {
            emit(&mut out, Instrument::StorageBytesTotal, SampleValue::U64(bytes), &labels);
        }
        self.live_stats.record_storage_op(backend, op, outcome, bytes);
        assert(sample_views(out@) =~= seq![
                sampled(Instrument::StorageRequestsTotal, SampleValue::U64(1), seq![("backend"@, backend@), ("op"@, op@), ("outcome"@, outcome@)]),
                sampled(Instrument::StorageRequestSeconds, SampleValue::Measured, seq![("backend"@, backend@), ("op"@, op@), ("outcome"@, outcome@)]),
            ] + (if bytes > 0 {
                seq![sampled(Instrument::StorageBytesTotal, SampleValue::U64(bytes), seq![("backend"@, backend@), ("op"@, op@), ("outcome"@, outcome@)])]
            } else {
                Seq::empty()
            }));
        out
    }

    /// One retry after a failure of the given class.
    pub fn storage_inc_retry(&self, backend: &str, class: &str) -> (r: Vec<Sample>)
        ensures
            sample_views(r@) == seq![
                sampled(Instrument::StorageRetriesTotal, SampleValue::U64(1), seq![("backend"@, backend@), ("class"@, class@)]),
            ],
    {
        let mut out: Vec<Sample> = Vec::new();
        let mut labels: Vec<(&'static str, String)> = Vec::new();
        add_label(&mut labels, "backend", backend);
        add_label(&mut labels, "class", class);
        assert(label_views(labels@) =~= seq![("backend"@, backend@), ("class"@, class@)]);
        emit(&mut out, Instrument::StorageRetriesTotal, SampleValue::U64(1), &labels);
        assert(sample_views(out@) =~= seq![
                sampled(Instrument::StorageRetriesTotal, SampleValue::U64(1), seq![("backend"@, backend@), ("class"@, class@)]),
            ]);
        out
    }

    /// One failure that bypassed the retries.
    pub fn storage_inc_permanent_error(&self, backend: &str, class: &str) -> (r: Vec<Sample>)
        ensures
            sample_views(r@) == seq![
                sampled(Instrument::StoragePermanentErrorsTotal, SampleValue::U64(1), seq![("backend"@, backend@), ("class"@, class@)]),
            ],
    {
        let mut out: Vec<Sample> = Vec::new();
        let mut labels: Vec<(&'static str, String)> = Vec::new();
        add_label(&mut labels, "backend", backend);
        add_label(&mut labels, "class", class);
        assert(label_views(labels@) =~= seq![("backend"@, backend@), ("class"@, class@)]);
        emit(&mut out, Instrument::StoragePermanentErrorsTotal, SampleValue::U64(1), &labels);
        assert(sample_views(out@) =~= seq![
                sampled(Instrument::StoragePermanentErrorsTotal, SampleValue::U64(1), seq![("backend"@, backend@), ("class"@, class@)]),
            ]);
        out
    }

    /// One sealed chunk; `scope` is `local` or `global`.
    pub fn chunk_inc_seal(&self, backend: &str, scope: &str) -> (r: Vec<Sample>)
        ensures
            sample_views(r@) == seq![
                sampled(Instrument::ChunkSealsTotal, SampleValue::U64(1), seq![("backend"@, backend@), ("scope"@, scope@)]),
            ],
    {
        let mut out: Vec<Sample> = Vec::new();
        let mut labels: Vec<(&'static str, String)> = Vec::new();
        add_label(&mut labels, "backend", backend);
        add_label(&mut labels, "scope", scope);
        assert(label_views(labels@) =~= seq![("backend"@, backend@), ("scope"@, scope@)]);
        emit(&mut out, Instrument::ChunkSealsTotal, SampleValue::U64(1), &labels);
        assert(sample_views(out@) =~= seq![
                sampled(Instrument::ChunkSealsTotal, SampleValue::U64(1), seq![("backend"@, backend@), ("scope"@, scope@)]),
            ]);
        out
    }

    /// One chunk that was there already.
    pub fn chunk_inc_dedup_hit(&self, backend: &str, scope: &str) -> (r: Vec<Sample>)
        ensures
            sample_views(r@) == seq![
                sampled(Instrument::ChunkDedupHitsTotal, SampleValue::U64(1), seq![("backend"@, backend@), ("scope"@, scope@)]),
            ],
    {
        let mut out: Vec<Sample> = Vec::new();
        let mut labels: Vec<(&'static str, String)> = Vec::new();
        add_label(&mut labels, "backend", backend);
        add_label(&mut labels, "scope", scope);
        assert(label_views(labels@) =~= seq![("backend"@, backend@), ("scope"@, scope@)]);
        emit(&mut out, Instrument::ChunkDedupHitsTotal, SampleValue::U64(1), &labels);
        assert(sample_views(out@) =~= seq![
                sampled(Instrument::ChunkDedupHitsTotal, SampleValue::U64(1), seq![("backend"@, backend@), ("scope"@, scope@)]),
            ]);
        out
    }

    /// Chunk bytes uploaded.
    pub fn chunk_add_uploaded_bytes(&self, backend: &str, bytes: u64) -> (r: Vec<Sample>)
        ensures
            sample_views(r@) == seq![
                sampled(Instrument::ChunkBytesUploadedTotal, SampleValue::U64(bytes), seq![("backend"@, backend@)]),
            ],
    {
        let mut out: Vec<Sample> = Vec::new();
        let mut labels: Vec<(&'static str, String)> = Vec::new();
        add_label(&mut labels, "backend", backend);
        assert(label_views(labels@) =~= seq![("backend"@, backend@)]);
        emit(&mut out, Instrument::ChunkBytesUploadedTotal, SampleValue::U64(bytes), &labels);
        assert(sample_views(out@) =~= seq![
                sampled(Instrument::ChunkBytesUploadedTotal, SampleValue::U64(bytes), seq![("backend"@, backend@)]),
            ]);
        out
    }

    /// Bytes sealed before deduplication.
    pub fn chunk_add_logical_bytes(&mut self, backend: &str, scope: &str, bytes: u64) -> (r: Vec<Sample>)
        requires
            old(self).wf(),
        ensures
            final(self).wf(),
            final(self).stats() == old(self).stats().logical_bytes(backend@, bytes),
            final(self).instruments_view() == old(self).instruments_view(),
            sample_views(r@) == seq![
                sampled(Instrument::ChunkLogicalBytesTotal, SampleValue::U64(bytes), seq![("backend"@, backend@), ("scope"@, scope@)]),
            ],
    {
        let mut out: Vec<Sample> = Vec::new();
        let mut labels: Vec<(&'static str, String)> = Vec::new();
        add_label(&mut labels, "backend", backend);
        add_label(&mut labels, "scope", scope);
        assert(label_views(labels@) =~= seq![("backend"@, backend@), ("scope"@, scope@)]);
        emit(&mut out, Instrument::ChunkLogicalBytesTotal, SampleValue::U64(bytes), &labels);
        self.live_stats.record_chunk_logical_bytes(backend, bytes);
        assert(sample_views(out@) =~= seq![
                sampled(Instrument::ChunkLogicalBytesTotal, SampleValue::U64(bytes), seq![("backend"@, backend@), ("scope"@, scope@)]),
            ]);
        out
    }

    /// Bytes sealed for the first time.
    pub fn chunk_add_unique_bytes(&mut self, backend: &str, scope: &str, bytes: u64) -> (r: Vec<Sample>)
        requires
            old(self).wf(),
        ensures
            final(self).wf(),
            final(self).stats() == old(self).stats().unique_bytes(backend@, bytes),
            final(self).instruments_view() == old(self).instruments_view(),
            sample_views(r@) == seq![
                sampled(Instrument::ChunkUniqueBytesTotal, SampleValue::U64(bytes), seq![("backend"@, backend@), ("scope"@, scope@)]),
            ],
    {
        let mut out: Vec<Sample> = Vec::new();
        let mut labels: Vec<(&'static str, String)> = Vec::new();
        add_label(&mut labels, "backend", backend);
        add_label(&mut labels, "scope", scope);
        assert(label_views(labels@) =~= seq![("backend"@, backend@), ("scope"@, scope@)]);
        emit(&mut out, Instrument::ChunkUniqueBytesTotal, SampleValue::U64(bytes), &labels);
        self.live_stats.record_chunk_unique_bytes(backend, bytes);
        assert(sample_views(out@) =~= seq![
                sampled(Instrument::ChunkUniqueBytesTotal, SampleValue::U64(bytes), seq![("backend"@, backend@), ("scope"@, scope@)]),
            ]);
        out
    }

    /// One HEAD before an upload.
    pub fn chunk_inc_storage_head_probe(&self, backend: &str) -> (r: Vec<Sample>)
        ensures
            sample_views(r@) == seq![
                sampled(Instrument::ChunkStorageHeadProbesTotal, SampleValue::U64(1), seq![("backend"@, backend@)]),
            ],
    {
        let mut out: Vec<Sample> = Vec::new();
        let mut labels: Vec<(&'static str, String)> = Vec::new();
        add_label(&mut labels, "backend", backend);
        assert(label_views(labels@) =~= seq![("backend"@, backend@)]);
        emit(&mut out, Instrument::ChunkStorageHeadProbesTotal, SampleValue::U64(1), &labels);
        assert(sample_views(out@) =~= seq![
                sampled(Instrument::ChunkStorageHeadProbesTotal, SampleValue::U64(1), seq![("backend"@, backend@)]),
            ]);
        out
    }

    /// One such HEAD that found the object.
    pub fn chunk_inc_storage_head_hit(&self, backend: &str) -> (r: Vec<Sample>)
        ensures
            sample_views(r@) == seq![
                sampled(Instrument::ChunkStorageHeadHitsTotal, SampleValue::U64(1), seq![("backend"@, backend@)]),
            ],
    {
        let mut out: Vec<Sample> = Vec::new();
        let mut labels: Vec<(&'static str, String)> = Vec::new();
        add_label(&mut labels, "backend", backend);
        assert(label_views(labels@) =~= seq![("backend"@, backend@)]);
        emit(&mut out, Instrument::ChunkStorageHeadHitsTotal, SampleValue::U64(1), &labels);
        assert(sample_views(out@) =~= seq![
                sampled(Instrument::ChunkStorageHeadHitsTotal, SampleValue::U64(1), seq![("backend"@, backend@)]),
            ]);
        out
    }

    /// One question answered by the fact cache.
    pub fn chunk_inc_storage_cache_hit(&self, backend: &str) -> (r: Vec<Sample>)
        ensures
            sample_views(r@) == seq![
                sampled(Instrument::ChunkStorageCacheHitsTotal, SampleValue::U64(1), seq![("backend"@, backend@)]),
            ],
    {
        let mut out: Vec<Sample> = Vec::new();
        let mut labels: Vec<(&'static str, String)> = Vec::new();
        add_label(&mut labels, "backend", backend);
        assert(label_views(labels@) =~= seq![("backend"@, backend@)]);
        emit(&mut out, Instrument::ChunkStorageCacheHitsTotal, SampleValue::U64(1), &labels);
        assert(sample_views(out@) =~= seq![
                sampled(Instrument::ChunkStorageCacheHitsTotal, SampleValue::U64(1), seq![("backend"@, backend@)]),
            ]);
        out
    }

    /// One caller that joined an upload in flight.
    pub fn chunk_inc_storage_cache_inflight_coalesced(&self, backend: &str) -> (r: Vec<Sample>)
        ensures
            sample_views(r@) == seq![
                sampled(Instrument::ChunkStorageCacheInflightCoalescedTotal, SampleValue::U64(1), seq![("backend"@, backend@)]),
            ],
    {
        let mut out: Vec<Sample> = Vec::new();
        let mut labels: Vec<(&'static str, String)> = Vec::new();
        add_label(&mut labels, "backend", backend);
        assert(label_views(labels@) =~= seq![("backend"@, backend@)]);
        emit(&mut out, Instrument::ChunkStorageCacheInflightCoalescedTotal, SampleValue::U64(1), &labels);
        assert(sample_views(out@) =~= seq![
                sampled(Instrument::ChunkStorageCacheInflightCoalescedTotal, SampleValue::U64(1), seq![("backend"@, backend@)]),
            ]);
        out
    }

    /// Facts seeded from a listing.
    pub fn chunk_add_storage_cache_warmup_seeded(&self, backend: &str, n: u64) -> (r: Vec<Sample>)
        ensures
            sample_views(r@) == seq![
                sampled(Instrument::ChunkStorageCacheWarmupSeededTotal, SampleValue::U64(n), seq![("backend"@, backend@)]),
            ],
    {
        let mut out: Vec<Sample> = Vec::new();
        let mut labels: Vec<(&'static str, String)> = Vec::new();
        add_label(&mut labels, "backend", backend);
        assert(label_views(labels@) =~= seq![("backend"@, backend@)]);
        emit(&mut out, Instrument::ChunkStorageCacheWarmupSeededTotal, SampleValue::U64(n), &labels);
        assert(sample_views(out@) =~= seq![
                sampled(Instrument::ChunkStorageCacheWarmupSeededTotal, SampleValue::U64(n), seq![("backend"@, backend@)]),
            ]);
        out
    }

    /// One upload that could not be attributed.
    pub fn chunk_inc_upload_stranded(&self, backend: &str, reason: &str) -> (r: Vec<Sample>)
        ensures
            sample_views(r@) == seq![
                sampled(Instrument::ChunkUploadStrandedTotal, SampleValue::U64(1), seq![("backend"@, backend@), ("reason"@, reason@)]),
            ],
    {
        let mut out: Vec<Sample> = Vec::new();
        let mut labels: Vec<(&'static str, String)> = Vec::new();
        add_label(&mut labels, "backend", backend);
        add_label(&mut labels, "reason", reason);
        assert(label_views(labels@) =~= seq![("backend"@, backend@), ("reason"@, reason@)]);
        emit(&mut out, Instrument::ChunkUploadStrandedTotal, SampleValue::U64(1), &labels);
        assert(sample_views(out@) =~= seq![
                sampled(Instrument::ChunkUploadStrandedTotal, SampleValue::U64(1), seq![("backend"@, backend@), ("reason"@, reason@)]),
            ]);
        out
    }

    /// The upload backlog.
    pub fn upload_set_queue_depth(&self, n: i64) -> (r: Vec<Sample>)
        ensures
            sample_views(r@) == seq![
                sampled(Instrument::UploadQueueDepth, SampleValue::I64(n), Seq::empty()),
            ],
    {
        let mut out: Vec<Sample> = Vec::new();
        let labels: Vec<(&'static str, String)> = Vec::new();
        assert(label_views(labels@) =~= Seq::empty());
        emit(&mut out, Instrument::UploadQueueDepth, SampleValue::I64(n), &labels);
        assert(sample_views(out@) =~= seq![
                sampled(Instrument::UploadQueueDepth, SampleValue::I64(n), Seq::empty()),
            ]);
        out
    }

    /// Sessions logged in.
    pub fn iscsi_set_sessions_active(&self, n: i64) -> (r: Vec<Sample>)
        ensures
            sample_views(r@) == seq![
                sampled(Instrument::IscsiSessionsActive, SampleValue::I64(n), Seq::empty()),
            ],
    {
        let mut out: Vec<Sample> = Vec::new();
        let labels: Vec<(&'static str, String)> = Vec::new();
        assert(label_views(labels@) =~= Seq::empty());
        emit(&mut out, Instrument::IscsiSessionsActive, SampleValue::I64(n), &labels);
        assert(sample_views(out@) =~= seq![
                sampled(Instrument::IscsiSessionsActive, SampleValue::I64(n), Seq::empty()),
            ]);
        out
    }

    /// One SCSI command, with its measured service time.
    pub fn iscsi_record_command(&self, opcode: &str, outcome: &str) -> (r: Vec<Sample>)
        ensures
            sample_views(r@) == seq![
                sampled(Instrument::IscsiCommandsTotal, SampleValue::U64(1), seq![("opcode"@, opcode@), ("outcome"@, outcome@)]),
                sampled(Instrument::IscsiCommandSeconds, SampleValue::Measured, seq![("opcode"@, opcode@), ("outcome"@, outcome@)]),
            ],
    {
        let mut out: Vec<Sample> = Vec::new();
        let mut labels: Vec<(&'static str, String)> = Vec::new();
        add_label(&mut labels, "opcode", opcode);
        add_label(&mut labels, "outcome", outcome);
        assert(label_views(labels@) =~= seq![("opcode"@, opcode@), ("outcome"@, outcome@)]);
        emit(&mut out, Instrument::IscsiCommandsTotal, SampleValue::U64(1), &labels);
        emit(&mut out, Instrument::IscsiCommandSeconds, SampleValue::Measured, &labels);
        assert(sample_views(out@) =~= seq![
                sampled(Instrument::IscsiCommandsTotal, SampleValue::U64(1), seq![("opcode"@, opcode@), ("outcome"@, outcome@)]),
                sampled(Instrument::IscsiCommandSeconds, SampleValue::Measured, seq![("opcode"@, opcode@), ("outcome"@, outcome@)]),
            ]);
        out
    }

    /// Bytes received from initiators.
    pub fn iscsi_add_data_in(&self, bytes: u64) -> (r: Vec<Sample>)
        ensures
            sample_views(r@) == seq![
                sampled(Instrument::IscsiDataInBytesTotal, SampleValue::U64(bytes), Seq::empty()),
            ],
    {
        let mut out: Vec<Sample> = Vec::new();
        let labels: Vec<(&'static str, String)> = Vec::new();
        assert(label_views(labels@) =~= Seq::empty());
        emit(&mut out, Instrument::IscsiDataInBytesTotal, SampleValue::U64(bytes), &labels);
        assert(sample_views(out@) =~= seq![
                sampled(Instrument::IscsiDataInBytesTotal, SampleValue::U64(bytes), Seq::empty()),
            ]);
        out
    }

    /// Bytes sent to initiators.
    pub fn iscsi_add_data_out(&self, bytes: u64) -> (r: Vec<Sample>)
        ensures
            sample_views(r@) == seq![
                sampled(Instrument::IscsiDataOutBytesTotal, SampleValue::U64(bytes), Seq::empty()),
            ],
    {
        let mut out: Vec<Sample> = Vec::new();
        let labels: Vec<(&'static str, String)> = Vec::new();
        assert(label_views(labels@) =~= Seq::empty());
        emit(&mut out, Instrument::IscsiDataOutBytesTotal, SampleValue::U64(bytes), &labels);
        assert(sample_views(out@) =~= seq![
                sampled(Instrument::IscsiDataOutBytesTotal, SampleValue::U64(bytes), Seq::empty()),
            ]);
        out
    }

    /// Fill of a cartridge's write buffer.
    pub fn tape_set_write_buffer(&self, cartridge: &str, bytes: u64) -> (r: Vec<Sample>)
        ensures
            sample_views(r@) == seq![
                sampled(Instrument::TapeWriteBufferUsedBytes, SampleValue::U64(bytes), seq![("cartridge"@, cartridge@)]),
            ],
    {
        let mut out: Vec<Sample> = Vec::new();
        let mut labels: Vec<(&'static str, String)> = Vec::new();
        add_label(&mut labels, "cartridge", cartridge);
        assert(label_views(labels@) =~= seq![("cartridge"@, cartridge@)]);
        emit(&mut out, Instrument::TapeWriteBufferUsedBytes, SampleValue::U64(bytes), &labels);
        assert(sample_views(out@) =~= seq![
                sampled(Instrument::TapeWriteBufferUsedBytes, SampleValue::U64(bytes), seq![("cartridge"@, cartridge@)]),
            ]);
        out
    }

    /// Fill of a cartridge's read buffer.
    pub fn tape_set_read_buffer(&self, cartridge: &str, bytes: u64) -> (r: Vec<Sample>)
        ensures
            sample_views(r@) == seq![
                sampled(Instrument::TapeReadBufferUsedBytes, SampleValue::U64(bytes), seq![("cartridge"@, cartridge@)]),
            ],
    {
        let mut out: Vec<Sample> = Vec::new();
        let mut labels: Vec<(&'static str, String)> = Vec::new();
        add_label(&mut labels, "cartridge", cartridge);
        assert(label_views(labels@) =~= seq![("cartridge"@, cartridge@)]);
        emit(&mut out, Instrument::TapeReadBufferUsedBytes, SampleValue::U64(bytes), &labels);
        assert(sample_views(out@) =~= seq![
                sampled(Instrument::TapeReadBufferUsedBytes, SampleValue::U64(bytes), seq![("cartridge"@, cartridge@)]),
            ]);
        out
    }

    /// Outstanding prefetches.
    pub fn prefetch_set_queue_depth(&self, n: i64) -> (r: Vec<Sample>)
        ensures
            sample_views(r@) == seq![
                sampled(Instrument::PrefetchQueueDepth, SampleValue::I64(n), Seq::empty()),
            ],
    {
        let mut out: Vec<Sample> = Vec::new();
        let labels: Vec<(&'static str, String)> = Vec::new();
        assert(label_views(labels@) =~= Seq::empty());
        emit(&mut out, Instrument::PrefetchQueueDepth, SampleValue::I64(n), &labels);
        assert(sample_views(out@) =~= seq![
                sampled(Instrument::PrefetchQueueDepth, SampleValue::I64(n), Seq::empty()),
            ]);
        out
    }

    /// One read served by a prefetch.
    pub fn prefetch_inc_hit(&self) -> (r: Vec<Sample>)
        ensures
            sample_views(r@) == seq![
                sampled(Instrument::PrefetchHitsTotal, SampleValue::U64(1), Seq::empty()),
            ],
    {
        let mut out: Vec<Sample> = Vec::new();
        let labels: Vec<(&'static str, String)> = Vec::new();
        assert(label_views(labels@) =~= Seq::empty());
        emit(&mut out, Instrument::PrefetchHitsTotal, SampleValue::U64(1), &labels);
        assert(sample_views(out@) =~= seq![
                sampled(Instrument::PrefetchHitsTotal, SampleValue::U64(1), Seq::empty()),
            ]);
        out
    }

    /// One read that found nothing prefetched.
    pub fn prefetch_inc_miss(&self) -> (r: Vec<Sample>)
        ensures
            sample_views(r@) == seq![
                sampled(Instrument::PrefetchMissesTotal, SampleValue::U64(1), Seq::empty()),
            ],
    {
        let mut out: Vec<Sample> = Vec::new();
        let labels: Vec<(&'static str, String)> = Vec::new();
        assert(label_views(labels@) =~= Seq::empty());
        emit(&mut out, Instrument::PrefetchMissesTotal, SampleValue::U64(1), &labels);
        assert(sample_views(out@) =~= seq![
                sampled(Instrument::PrefetchMissesTotal, SampleValue::U64(1), Seq::empty()),
            ]);
        out
    }

    /// One audit entry.
    pub fn audit_inc_entry(&mut self, kind: &str) -> (r: Vec<Sample>)
        requires
            old(self).wf(),
        ensures
            final(self).wf(),
            final(self).stats() == old(self).stats().audit_entry(),
            final(self).instruments_view() == old(self).instruments_view(),
            sample_views(r@) == seq![
                sampled(Instrument::AuditEntriesTotal, SampleValue::U64(1), seq![("kind"@, kind@)]),
            ],
    {
        let mut out: Vec<Sample> = Vec::new();
        let mut labels: Vec<(&'static str, String)> = Vec::new();
        add_label(&mut labels, "kind", kind);
        assert(label_views(labels@) =~= seq![("kind"@, kind@)]);
        emit(&mut out, Instrument::AuditEntriesTotal, SampleValue::U64(1), &labels);
        self.live_stats.record_audit_entry();
        assert(sample_views(out@) =~= seq![
                sampled(Instrument::AuditEntriesTotal, SampleValue::U64(1), seq![("kind"@, kind@)]),
            ]);
        out
    }

    /// One acknowledged break of the audit chain.
    pub fn audit_inc_chain_reset(&self) -> (r: Vec<Sample>)
        ensures
            sample_views(r@) == seq![
                sampled(Instrument::AuditChainResetsTotal, SampleValue::U64(1), Seq::empty()),
            ],
    {
        let mut out: Vec<Sample> = Vec::new();
        let labels: Vec<(&'static str, String)> = Vec::new();
        assert(label_views(labels@) =~= Seq::empty());
        emit(&mut out, Instrument::AuditChainResetsTotal, SampleValue::U64(1), &labels);
        assert(sample_views(out@) =~= seq![
                sampled(Instrument::AuditChainResetsTotal, SampleValue::U64(1), Seq::empty()),
            ]);
        out
    }

    /// One audit entry dropped because the queue was full.
    pub fn audit_inc_queue_drop(&self) -> (r: Vec<Sample>)
        ensures
            sample_views(r@) == seq![
                sampled(Instrument::AuditQueueDropsTotal, SampleValue::U64(1), Seq::empty()),
            ],
    {
        let mut out: Vec<Sample> = Vec::new();
        let labels: Vec<(&'static str, String)> = Vec::new();
        assert(label_views(labels@) =~= Seq::empty());
        emit(&mut out, Instrument::AuditQueueDropsTotal, SampleValue::U64(1), &labels);
        assert(sample_views(out@) =~= seq![
                sampled(Instrument::AuditQueueDropsTotal, SampleValue::U64(1), Seq::empty()),
            ]);
        out
    }

    /// One alert delivery attempt.
    pub fn alerts_record(&self, class: &str, severity: &str, sink: &str, outcome: &str) -> (r: Vec<Sample>)
        ensures
            sample_views(r@) == seq![
                sampled(Instrument::AlertsFiredTotal, SampleValue::U64(1), seq![("class"@, class@), ("severity"@, severity@), ("sink"@, sink@), ("outcome"@, outcome@)]),
            ],
    {
        let mut out: Vec<Sample> = Vec::new();
        let mut labels: Vec<(&'static str, String)> = Vec::new();
        add_label(&mut labels, "class", class);
        add_label(&mut labels, "severity", severity);
        add_label(&mut labels, "sink", sink);
        add_label(&mut labels, "outcome", outcome);
        assert(label_views(labels@) =~= seq![("class"@, class@), ("severity"@, severity@), ("sink"@, sink@), ("outcome"@, outcome@)]);
        emit(&mut out, Instrument::AlertsFiredTotal, SampleValue::U64(1), &labels);
        assert(sample_views(out@) =~= seq![
                sampled(Instrument::AlertsFiredTotal, SampleValue::U64(1), seq![("class"@, class@), ("severity"@, severity@), ("sink"@, sink@), ("outcome"@, outcome@)]),
            ]);
        out
    }

    /// One scan for stranded uploads, with its measured duration. The counter is fed only when
    /// something was found.
    pub fn orphan_scan_record(&self, chunks_found: u64) -> (r: Vec<Sample>)
        ensures
            sample_views(r@) == (if chunks_found > 0 {
                seq![sampled(Instrument::OrphanScanChunksFoundTotal, SampleValue::U64(chunks_found), Seq::empty())]
            } else {
                Seq::empty()
            }) + seq![
                sampled(Instrument::OrphanScanDurationSeconds, SampleValue::Measured, Seq::empty()),
            ],
    {
        let mut out: Vec<Sample> = Vec::new();
        let labels: Vec<(&'static str, String)> = Vec::new();
        assert(label_views(labels@) =~= Seq::empty());
        if chunks_found > 0 {
            emit(&mut out, Instrument::OrphanScanChunksFoundTotal, SampleValue::U64(chunks_found), &labels);
        }
        emit(&mut out, Instrument::OrphanScanDurationSeconds, SampleValue::Measured, &labels);
        assert(sample_views(out@) =~= (if chunks_found > 0 {
                seq![sampled(Instrument::OrphanScanChunksFoundTotal, SampleValue::U64(chunks_found), Seq::empty())]
            } else {
                Seq::empty()
            }) + seq![
                sampled(Instrument::OrphanScanDurationSeconds, SampleValue::Measured, Seq::empty()),
            ]);
        out
    }

    /// The daemon's start time.
    pub fn daemon_set_start_time(&self, unix_seconds: i64) -> (r: Vec<Sample>)
        ensures
            sample_views(r@) == seq![
                sampled(Instrument::DaemonStartTimeSeconds, SampleValue::I64(unix_seconds), Seq::empty()),
            ],
    {
        let mut out: Vec<Sample> = Vec::new();
        let labels: Vec<(&'static str, String)> = Vec::new();
        assert(label_views(labels@) =~= Seq::empty());
        emit(&mut out, Instrument::DaemonStartTimeSeconds, SampleValue::I64(unix_seconds), &labels);
        assert(sample_views(out@) =~= seq![
                sampled(Instrument::DaemonStartTimeSeconds, SampleValue::I64(unix_seconds), Seq::empty()),
            ]);
        out
    }
}

/// Counters that have seen nothing.
pub open spec fn empty_stats() -> LiveStatsView {
    LiveStatsView {
        storage: Map::empty(),
        pool: Map::empty(),
        chunk: Map::empty(),
        audit_entries_total: 0,
    }
}

/// Why a configuration's push exporter is refused, if it is.
pub open spec fn header_refusal(cfg: &TelemetryConfig) -> Option<Seq<char>> {
    match cfg.otlp {
        Some(otlp) => if otlp.protocol is Grpc {
            first_complaint(otlp.headers@)
        } else {
            None
        },
        None => None,
    }
}

} // verus!
