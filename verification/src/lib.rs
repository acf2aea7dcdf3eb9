//! Diagnostic rendering of consensus protocol records, with a pluggable
//! strategy for their opaque payloads, and a logging facade.

pub mod formatter;
pub mod logger;
pub mod payload;
pub mod records;
pub mod text;
