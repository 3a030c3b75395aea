//! Encoding of log events as syslog messages, in the legacy BSD format of RFC 3164 and in the
//! format of RFC 5424, with the field types those formats require.
//!
//! Every field type validates its contents when it is built; once an encoder exists, encoding
//! cannot fail.

pub mod facility;
pub mod wire;
pub mod timestamp;
pub mod rfc5424;
pub mod rfc3164;
pub mod tracing;
pub mod transport;
