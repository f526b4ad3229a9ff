//! Builder and byte-exact encoder for the Tock Binary Format (TBF) header
//! that precedes an application image in flash.
//!
//! A [`header::TbfHeader`] is created empty, planned once with
//! [`header::TbfHeader::create`], refined through its setters and turned into
//! bytes with [`header::TbfHeader::generate`]. Every function carries a
//! contract over the byte-level model in [`sections`] and [`checksum`].

pub mod align;
pub mod checksum;
pub mod digest;
pub mod header;
pub mod sections;
pub mod wire;
