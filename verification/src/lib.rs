//! A verified client core for an analytics event-ingestion service.
//!
//! The library models events and their wire payload, resolves the ingestion
//! credential through an ordered fallback chain (environment variable first,
//! then a cloud secret store), and states the semantics of single and batch
//! capture calls. All I/O (environment access, secret-store fetches, the HTTP
//! request itself) lives outside the library; the functions here take the
//! values those calls produce and are verified over them.

mod batch;
mod client;
mod json;
mod resolve;
mod text;
mod timestamp;

pub use batch::{capture_batch_result, first_failure, BatchReport, CaptureError};
pub use client::{
    has_key, lemma_insert_overwrite, lemma_spec_insert, spec_insert, spec_insert_all,
    timestamp_json, unique_keys, wire_json, ApiOptions, ApiOptionsView, CaptureRequest, Client,
    ClientView, Event, EventView, InnerEvent, Properties, PropertiesView, WireView,
    DEFAULT_TIMEOUT_MS,
};
pub use json::{attr_entry, attrs_json, escape_char, escaped, hex_digit, json_string, pairs_view};
pub use resolve::{
    env_var_name, production_endpoint, production_endpoint_str, resolve_from_env,
    resolve_from_secret, secret_version_path, ResolutionError, SecretStoreError,
};
pub use text::{
    decode_utf8_bytes, is_blank, is_space, lemma_trim_blank, lemma_trim_not_blank, lower_of,
    lowercase, trim_spec, trimmed,
};
pub use timestamp::{
    days_in_month, digit, four_digits, iso_chars, spec_days_in_month, spec_leap_year, two_digits,
    Timestamp,
};
