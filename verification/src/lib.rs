//! Verified core of the guest components: request timeouts, the resource guard
//! of the data hub, LUKS2 volume set-up and layer digests.

pub mod text;

pub mod call_laws;
pub mod cdh;
pub mod hub;
pub mod image;
pub mod keep_laws;
pub mod kms;
pub mod pull;
pub mod resource;
pub mod sequence;
pub mod storage;
pub mod stream;
pub mod timeout;
pub mod token;
pub mod volume;
