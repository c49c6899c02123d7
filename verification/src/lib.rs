//! A shared, lazily filled UTC offset and the timestamps rendered with it.
//!
//! The offset to use is looked up in an [`OffsetCache`], asked of the host when
//! the cache is empty, read from the output of a date command when the host
//! cannot tell, and taken to be UTC when everything else fails. Failures on
//! that way are collected and handed back beside the offset.
pub mod cache;
pub mod digits;
pub mod error;
pub mod offset;
pub mod parse;
pub mod resolve;
pub mod timestamp;

pub use cache::{
    get_global_offset, try_set_global_offset, try_set_global_offset_from_pair,
    try_set_global_offset_from_str, OffsetCache,
};
pub use error::{Error, Errors};
pub use offset::{from_offset_pair, UtcOffset};
pub use parse::{parse_cmd_output, parse_cmd_text, parse_offset, trim_new_lines};
pub use resolve::{
    construct_offset, construct_offset_from, get_local_timestamp_rfc3339,
    get_local_timestamp_with, get_utc_offset, offset_from_hms, offset_from_process, resolve_after,
    CommandOutcome,
};
pub use timestamp::{
    format_timestamp, get_local_timestamp_from_offset_rfc3339, local_timestamp_at, timestamp_of,
    CivilTime,
};
