//! Cryptographic configuration and algorithm-negotiation core of a TLS
//! client: private-key loading and signature-scheme negotiation, the TLS 1.3
//! cipher-suite resumption rule and transcript verify-message construction,
//! and a staged client-configuration builder.

pub mod builder;
pub mod enums;
pub mod error;
pub mod ring_api;
pub mod sign;
pub mod tls13;
pub mod x509;
