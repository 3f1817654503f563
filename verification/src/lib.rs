//! Request telemetry for a small web site: a metrics registry with a text
//! exposition, a per-request stopwatch, the three-phase request record and
//! the decisions of the middleware that drives them.

pub mod attribute_laws;
pub mod attributes;
pub mod body;
pub mod clock;
pub mod exposition;
pub mod headers;
pub mod ids;
pub mod metrics;
pub mod middleware;
pub mod middleware_laws;
pub mod prometheus;
pub mod queue;
pub mod record;
pub mod registry_laws;
pub mod sink;
pub mod sink_laws;
pub mod template;
pub mod text;
pub mod timer;
