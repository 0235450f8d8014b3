//! # guid-create
//!
//! A 128-bit globally unique identifier: sixteen bytes that can be built
//! from raw bytes, from four fields or at random, read from their canonical
//! text and written as it.
//!
//! ``` rust
//! use guid_create::GUID;
//!
//! // Create GUIDs
//! let guid = GUID::rand();
//! let guid = GUID::parse("87935CDE-7094-4C2B-A0F4-DD7D512DD261").unwrap();
//! let guid = GUID::build_from_components(0x87935CDE, 0x7094, 0x4C2B, &[0xA0, 0xF4, 0xDD, 0x7D, 0x51, 0x2D, 0xD2, 0x61], );
//! let guid = GUID::build_from_slice(&[ 0x87, 0x93, 0x5C, 0xDE, 0x70, 0x94, 0x4C, 0x2B, 0xA0, 0xF4, 0xDD, 0x7D, 0x51, 0x2D, 0xD2, 0x61,]);
//!
//! // View GUIDs
//! guid.to_string();  // 87935CDE-7094-4C2B-A0F4-DD7D512DD261
//!
//! // Check GUIDs
//! guid.data1();
//! guid.data2();
//! guid.data3();
//! guid.data4();
//! ```
//!
//! The modules:
//! - [`guid`]: the identifier, its constructors and accessors;
//! - [`layout`] and [`bytes`]: the sixteen bytes as four big-endian fields;
//! - [`text`]: the canonical text, its reader and its writer;
//! - [`laws`] and [`ascii`]: what is proved of reading and writing;
//! - [`interop`]: the record of the Windows API;
//! - [`serial`]: the identifier as a string field;
//! - [`entropy`]: the source of random bytes;
//! - [`error`]: the error of the reader.

pub mod ascii;
pub mod bytes;
pub mod entropy;
pub mod error;
pub mod guid;
pub mod interop;
pub mod laws;
pub mod layout;
pub mod serial;
pub mod text;

pub use crate::error::ParseError;
pub use crate::guid::GUID;
pub use crate::interop::WinGuid;
