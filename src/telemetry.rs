use vstd::prelude::*;

use crate::config::TelemetryKind;

verus! {

/// The tracing pipeline to install.
pub enum TracingSetup {
    /// JSON lines on standard output.
    Stdout { service_name: String },
    /// Export to an OTLP collector.
    Uptrace { dsn: String, env: String, service_name: String },
    Disabled,
}

/// Chooses the tracing pipeline for `kind`.
pub fn init_tracing(dsn: String, service_name: String, env: String, kind: TelemetryKind) -> (r:
    TracingSetup)
    ensures
        match kind {
            TelemetryKind::Stdout => r matches TracingSetup::Stdout { service_name: s } && s@
                == service_name@,
            TelemetryKind::Uptrace => r matches TracingSetup::Uptrace { dsn: d, env: e, service_name: s }
                && d@ == dsn@ && e@ == env@ && s@ == service_name@,
            TelemetryKind::Disabled => r is Disabled,
        },
{
    match kind {
        TelemetryKind::Stdout => TracingSetup::Stdout { service_name },
        TelemetryKind::Uptrace => TracingSetup::Uptrace { dsn, env, service_name },
        TelemetryKind::Disabled => TracingSetup::Disabled,
    }
}

} // verus!
