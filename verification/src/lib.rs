//! An instrumented HTTP request executor: the rules by which one request is
//! prepared, timed phase by phase, and reported as a single record.
//!
//! The library decides and computes; the caller does the network's work and
//! reads the clock. `target::prepare_request` turns a request description
//! into what is sent. `executor::Execution` follows the five phases and
//! keeps their times. `record` builds the record that is handed out, on
//! success and on failure alike.

pub mod executor;
pub mod failure;
pub mod headers;
pub mod metrics;
pub mod record;
pub mod target;
pub mod text;
pub mod types;

pub use executor::{complete, fail, Action, Execution, Outcome, Stage};
pub use failure::{ErrorKind, Failure};
pub use headers::{assemble_headers, format_headers, get_content_type_header, HeaderTable};
pub use metrics::{HttpMetrics, Phase};
pub use record::{
    build_error_response, build_success_response, decode_response, DecodedResponse, PostierObject,
    RawHeader, ResponseData,
};
pub use target::{normalize_url, prepare_request, ParsedUrl, PreparedRequest};
pub use types::{ContentType, HttpMethod, IdentityData, KeyValue, RequestData};
