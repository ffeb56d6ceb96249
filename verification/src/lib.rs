//! GStreamer's formatted values, signed quantities and return codes, with
//! their arithmetic, conversions and formatting.

pub mod signed;
pub mod signed_ops;
pub mod signed_cmp;
pub mod signed_u64;
pub mod signed_u32;
pub mod signed_usize;
pub mod text;
pub mod display;
pub mod format_kind;
pub mod muldiv_ops;
pub mod traits;
pub mod quantity;
pub mod clock_time;
pub mod clock_time_fmt;
pub mod clock_time_laws;
pub mod default_format;
pub mod bytes;
pub mod buffers;
pub mod other;
pub mod percent;
pub mod undefined;
pub mod generic;
pub mod flags;
pub mod debug_color;
pub mod flag_types;
pub mod event_type;
pub mod event_type_order;
pub mod return_codes;
pub mod states;
pub mod type_find;
pub mod pad_name;
pub mod graph_details;
