//! Typed metric events and the error model.
//!
//! Each metric type holds, as its sole state, the immutable wire line built
//! at construction. Failures are classified values: invalid input rejected
//! before any transport work, or a transport failure optionally wrapping the
//! underlying cause.

use crate::format::{format_metric, i64_to_dec, metric_line, spec_dec, spec_dec_i64, u64_to_dec};
use vstd::prelude::*;

verus! {

/// Metrics expose the wire-format line they were built from.
pub trait Metric {
    /// The line this metric renders to.
    spec fn spec_line(&self) -> Seq<char>;

    fn as_metric_str(&self) -> (r: &str)
        ensures
            r@ == self.spec_line(),
    ;
}

/// A simple value incremented or decremented by the client.
#[derive(PartialEq, Eq, Debug, Hash, Clone)]
pub struct Counter {
    pub repr: String,
}

impl Counter {
    pub fn new(prefix: &str, key: &str, count: i64) -> (r: Counter)
        ensures
            r.spec_line() == metric_line(prefix@, key@, spec_dec_i64(count as int), seq!['c']),
    {
        let value = i64_to_dec(count);
        let s = format_metric(prefix, key, value.as_str(), "c");
        proof {
            reveal_strlit("c");
            assert("c"@ =~= seq!['c']);
        }
        Counter { repr: s }
    }
}

impl From<String> for Counter {
    fn from(s: String) -> (r: Self) {
        Counter { repr: s }
    }
}

impl vstd::std_specs::convert::FromSpecImpl<String> for Counter {
    open spec fn obeys_from_spec() -> bool {
        true
    }

    open spec fn from_spec(s: String) -> Counter {
        Counter { repr: s }
    }
}

impl Metric for Counter {
    open spec fn spec_line(&self) -> Seq<char> {
        self.repr@
    }

    fn as_metric_str(&self) -> (r: &str) {
        self.repr.as_str()
    }
}

/// A positive number of milliseconds between a start and an end point.
#[derive(PartialEq, Eq, Debug, Hash, Clone)]
pub struct Timer {
    pub repr: String,
}

impl Timer {
    pub fn new(prefix: &str, key: &str, time: u64) -> (r: Timer)
        ensures
            r.spec_line() == metric_line(prefix@, key@, spec_dec(time as nat), seq!['m', 's']),
    {
        let value = u64_to_dec(time);
        let s = format_metric(prefix, key, value.as_str(), "ms");
        proof {
            reveal_strlit("ms");
            assert("ms"@ =~= seq!['m', 's']);
        }
        Timer { repr: s }
    }
}

impl From<String> for Timer {
    fn from(s: String) -> (r: Self) {
        Timer { repr: s }
    }
}

impl vstd::std_specs::convert::FromSpecImpl<String> for Timer {
    open spec fn obeys_from_spec() -> bool {
        true
    }

    open spec fn from_spec(s: String) -> Timer {
        Timer { repr: s }
    }
}

impl Metric for Timer {
    open spec fn spec_line(&self) -> Seq<char> {
        self.repr@
    }

    fn as_metric_str(&self) -> (r: &str) {
        self.repr.as_str()
    }
}

/// An instantaneous value determined by the client.
#[derive(PartialEq, Eq, Debug, Hash, Clone)]
pub struct Gauge {
    pub repr: String,
}

impl Gauge {
    pub fn new(prefix: &str, key: &str, value: u64) -> (r: Gauge)
        ensures
            r.spec_line() == metric_line(prefix@, key@, spec_dec(value as nat), seq!['g']),
    {
        let rendered = u64_to_dec(value);
        let s = format_metric(prefix, key, rendered.as_str(), "g");
        proof {
            reveal_strlit("g");
            assert("g"@ =~= seq!['g']);
        }
        Gauge { repr: s }
    }
}

impl From<String> for Gauge {
    fn from(s: String) -> (r: Self) {
        Gauge { repr: s }
    }
}

impl vstd::std_specs::convert::FromSpecImpl<String> for Gauge {
    open spec fn obeys_from_spec() -> bool {
        true
    }

    open spec fn from_spec(s: String) -> Gauge {
        Gauge { repr: s }
    }
}

impl Metric for Gauge {
    open spec fn spec_line(&self) -> Seq<char> {
        self.repr@
    }

    fn as_metric_str(&self) -> (r: &str) {
        self.repr.as_str()
    }
}

/// The rate at which events occur, as determined by the server.
#[derive(PartialEq, Eq, Debug, Hash, Clone)]
pub struct Meter {
    pub repr: String,
}

impl Meter {
    pub fn new(prefix: &str, key: &str, value: u64) -> (r: Meter)
        ensures
            r.spec_line() == metric_line(prefix@, key@, spec_dec(value as nat), seq!['m']),
    {
        let rendered = u64_to_dec(value);
        let s = format_metric(prefix, key, rendered.as_str(), "m");
        proof {
            reveal_strlit("m");
            assert("m"@ =~= seq!['m']);
        }
        Meter { repr: s }
    }
}

impl From<String> for Meter {
    fn from(s: String) -> (r: Self) {
        Meter { repr: s }
    }
}

impl vstd::std_specs::convert::FromSpecImpl<String> for Meter {
    open spec fn obeys_from_spec() -> bool {
        true
    }

    open spec fn from_spec(s: String) -> Meter {
        Meter { repr: s }
    }
}

impl Metric for Meter {
    open spec fn spec_line(&self) -> Seq<char> {
        self.repr@
    }

    fn as_metric_str(&self) -> (r: &str) {
        self.repr.as_str()
    }
}

/// A value whose distribution is calculated by the server.
#[derive(PartialEq, Eq, Debug, Hash, Clone)]
pub struct Histogram {
    pub repr: String,
}

impl Histogram {
    pub fn new(prefix: &str, key: &str, value: u64) -> (r: Histogram)
        ensures
            r.spec_line() == metric_line(prefix@, key@, spec_dec(value as nat), seq!['h']),
    {
        let rendered = u64_to_dec(value);
        let s = format_metric(prefix, key, rendered.as_str(), "h");
        proof {
            reveal_strlit("h");
            assert("h"@ =~= seq!['h']);
        }
        Histogram { repr: s }
    }
}

impl From<String> for Histogram {
    fn from(s: String) -> (r: Self) {
        Histogram { repr: s }
    }
}

impl vstd::std_specs::convert::FromSpecImpl<String> for Histogram {
    open spec fn obeys_from_spec() -> bool {
        true
    }

    open spec fn from_spec(s: String) -> Histogram {
        Histogram { repr: s }
    }
}

impl Metric for Histogram {
    open spec fn spec_line(&self) -> Seq<char> {
        self.repr@
    }

    fn as_metric_str(&self) -> (r: &str) {
        self.repr.as_str()
    }
}

/// A unique-occurrence count: the server counts distinct values seen.
#[derive(PartialEq, Eq, Debug, Hash, Clone)]
pub struct SetMetric {
    pub repr: String,
}

impl SetMetric {
    pub fn new(prefix: &str, key: &str, value: u64) -> (r: SetMetric)
        ensures
            r.spec_line() == metric_line(prefix@, key@, spec_dec(value as nat), seq!['s']),
    {
        let rendered = u64_to_dec(value);
        let s = format_metric(prefix, key, rendered.as_str(), "s");
        proof {
            reveal_strlit("s");
            assert("s"@ =~= seq!['s']);
        }
        SetMetric { repr: s }
    }
}

impl From<String> for SetMetric {
    fn from(s: String) -> (r: Self) {
        SetMetric { repr: s }
    }
}

impl vstd::std_specs::convert::FromSpecImpl<String> for SetMetric {
    open spec fn obeys_from_spec() -> bool {
        true
    }

    open spec fn from_spec(s: String) -> SetMetric {
        SetMetric { repr: s }
    }
}

impl Metric for SetMetric {
    open spec fn spec_line(&self) -> Seq<char> {
        self.repr@
    }

    fn as_metric_str(&self) -> (r: &str) {
        self.repr.as_str()
    }
}

/// A value whose distribution is tracked globally by the server, not per
/// reporting interval.
#[derive(PartialEq, Eq, Debug, Hash, Clone)]
pub struct Distribution {
    pub repr: String,
}

impl Distribution {
    pub fn new(prefix: &str, key: &str, value: u64) -> (r: Distribution)
        ensures
            r.spec_line() == metric_line(prefix@, key@, spec_dec(value as nat), seq!['d']),
    {
        let rendered = u64_to_dec(value);
        let s = format_metric(prefix, key, rendered.as_str(), "d");
        proof {
            reveal_strlit("d");
            assert("d"@ =~= seq!['d']);
        }
        Distribution { repr: s }
    }
}

impl From<String> for Distribution {
    fn from(s: String) -> (r: Self) {
        Distribution { repr: s }
    }
}

impl vstd::std_specs::convert::FromSpecImpl<String> for Distribution {
    open spec fn obeys_from_spec() -> bool {
        true
    }

    open spec fn from_spec(s: String) -> Distribution {
        Distribution { repr: s }
    }
}

impl Metric for Distribution {
    open spec fn spec_line(&self) -> Seq<char> {
        self.repr@
    }

    fn as_metric_str(&self) -> (r: &str) {
        self.repr.as_str()
    }
}

/// The categories a failure of this library falls into.
#[derive(PartialEq, Eq, Debug, Hash, Clone, Copy, Structural)]
pub enum ErrorKind {
    InvalidInput,
    IoError,
}

/// Declares std::io::Error, the transport failure an error value may wrap,
/// so it can stand in fields and signatures. The library never looks inside
/// one; its message is drawn out through `io_error_message` alone.
#[verifier::external_type_specification]
#[verifier::external_body]
pub struct ExIoError(std::io::Error);

/// How an error value is represented: a classification with a static
/// description, or a wrapped transport failure kept alongside the message
/// text extracted from it once at construction.
#[derive(Debug)]
pub enum ErrorRepr {
    WithDescription(ErrorKind, &'static str),
    IoError(std::io::Error, String),
}

/// An error of this library, optionally wrapping a transport-level failure.
#[derive(Debug)]
pub struct MetricError {
    pub repr: ErrorRepr,
}

/// Relies on std::io::Error's Display implementation: renders the error's
/// message text.
#[verifier::external_body]
fn io_error_message(err: &std::io::Error) -> (r: String) {
    format!("{}", err)
}

impl MetricError {
    /// The classification of this error.
    pub open spec fn kind_spec(&self) -> ErrorKind {
        match self.repr {
            ErrorRepr::IoError(_, _) => ErrorKind::IoError,
            ErrorRepr::WithDescription(k, _) => k,
        }
    }

    /// The description text this error carries.
    pub open spec fn description_spec(&self) -> Seq<char> {
        match self.repr {
            ErrorRepr::IoError(_, m) => m@,
            ErrorRepr::WithDescription(_, d) => d@,
        }
    }

    /// Return the kind of the error.
    pub fn kind(&self) -> (r: ErrorKind)
        ensures
            r == self.kind_spec(),
    {
        match &self.repr {
            ErrorRepr::IoError(_, _) => ErrorKind::IoError,
            ErrorRepr::WithDescription(kind, _) => *kind,
        }
    }

    /// Return the description of the error: the static description it was
    /// built with, or the message of the wrapped transport failure.
    pub fn description(&self) -> (r: &str)
        ensures
            r@ == self.description_spec(),
    {
        match &self.repr {
            ErrorRepr::IoError(_, m) => m.as_str(),
            ErrorRepr::WithDescription(_, d) => d,
        }
    }

    /// Return the wrapped transport failure, where there is one.
    pub fn cause(&self) -> (r: Option<&std::io::Error>)
        ensures
            r is Some <==> self.repr is IoError,
            r matches Some(e) ==> (self.repr matches ErrorRepr::IoError(err, _) && *e == err),
    {
        match &self.repr {
            ErrorRepr::IoError(err, _) => Some(err),
            ErrorRepr::WithDescription(_, _) => None,
        }
    }
}

impl From<std::io::Error> for MetricError {
    /// Wrap a transport failure; its message is extracted once, here, so the
    /// description survives the wrapping.
    fn from(err: std::io::Error) -> (r: MetricError)
        ensures
            r.kind_spec() == ErrorKind::IoError,
            r.repr matches ErrorRepr::IoError(e, _) && e == err,
    {
        let msg = io_error_message(&err);
        MetricError { repr: ErrorRepr::IoError(err, msg) }
    }
}

impl vstd::std_specs::convert::FromSpecImpl<std::io::Error> for MetricError {
    // The message drawn out of the wrapped failure cannot be written down as
    // a spec value, so the conversion promises nothing through this spec;
    // the `From` implementation carries its own `ensures` instead.
    open spec fn obeys_from_spec() -> bool {
        false
    }

    open spec fn from_spec(err: std::io::Error) -> MetricError {
        MetricError { repr: ErrorRepr::WithDescription(ErrorKind::IoError, "") }
    }
}

impl From<(ErrorKind, &'static str)> for MetricError {
    /// Build a classified error from its kind and a static description.
    fn from(pair: (ErrorKind, &'static str)) -> (r: MetricError) {
        MetricError { repr: ErrorRepr::WithDescription(pair.0, pair.1) }
    }
}

impl vstd::std_specs::convert::FromSpecImpl<(ErrorKind, &'static str)> for MetricError {
    open spec fn obeys_from_spec() -> bool {
        true
    }

    open spec fn from_spec(pair: (ErrorKind, &'static str)) -> MetricError {
        MetricError { repr: ErrorRepr::WithDescription(pair.0, pair.1) }
    }
}

pub type MetricResult<T> = Result<T, MetricError>;

} // verus!
