use vstd::prelude::*;

use crate::mime::{are_mime_types_supported, mime_supported};

verus! {

/// Settings of the whole service.
pub struct Config {
    pub env: String,
    pub host: String,
    pub port: u16,
    pub db: DatabaseConfig,
    pub telemetry: TelemetryConfig,
    pub cdn: CdnConfig,
}

pub struct DatabaseConfig {
    pub path: String,
}

pub struct TelemetryConfig {
    pub kind: TelemetryKind,
    pub uptrace_dsn: String,
    pub service_name: String,
}

/// Settings of the blob service itself.
pub struct CdnConfig {
    /// Prefix of the addresses that descriptors give.
    pub base_url: String,
    /// Signers allowed to upload; empty admits every signer.
    pub whitelisted_pubkeys: Vec<String>,
    pub max_upload_size_bytes: u64,
    pub min_upload_size_bytes: u64,
    /// Types allowed to be stored; empty admits every type.
    pub allowed_mime_types: Vec<String>,
}

/// Where traces go.
#[derive(PartialEq, Eq, Structural, Clone, Copy, Debug)]
pub enum TelemetryKind {
    Stdout,
    Uptrace,
    Disabled,
}

/// The telemetry kind that a setting names: anything unknown turns tracing off.
pub open spec fn telemetry_kind_named(s: Seq<char>) -> TelemetryKind {
    if s == "stdout"@ {
        TelemetryKind::Stdout
    } else if s == "uptrace"@ {
        TelemetryKind::Uptrace
    } else {
        TelemetryKind::Disabled
    }
}

impl<'a> From<&'a str> for TelemetryKind {
    fn from(val: &'a str) -> (r: TelemetryKind) {
        let s = val.to_owned();
        if s == "stdout".to_owned() {
            TelemetryKind::Stdout
        } else if s == "uptrace".to_owned() {
            TelemetryKind::Uptrace
        } else {
            TelemetryKind::Disabled
        }
    }
}

impl<'a> vstd::std_specs::convert::FromSpecImpl<&'a str> for TelemetryKind {
    open spec fn obeys_from_spec() -> bool {
        true
    }

    open spec fn from_spec(v: &'a str) -> TelemetryKind {
        telemetry_kind_named(v@)
    }
}

impl CdnConfig {
    /// A payload of `len` bytes lies within the configured bounds.
    pub fn fits_upload_size(&self, len: usize) -> (r: bool)
        ensures
            r == (self.min_upload_size_bytes <= len && len <= self.max_upload_size_bytes),
    {
        let n = len as u64;
        self.min_upload_size_bytes <= n && n <= self.max_upload_size_bytes
    }
}

/// Every allowed MIME type is one that content sniffing can produce.
pub fn are_mime_types_valid(cfg: &Config) -> (r: bool)
    ensures
        r == forall|i: int|
            0 <= i < cfg.cdn.allowed_mime_types.len() ==> #[trigger] mime_supported(
                cfg.cdn.allowed_mime_types[i]@,
            ),
{
    are_mime_types_supported(&cfg.cdn.allowed_mime_types)
}

} // verus!
