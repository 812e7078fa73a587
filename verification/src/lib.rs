//! A verified content-addressed blob gateway.
//!
//! Payloads are opaque byte sequences. Each payload is addressed by a
//! `ContentId`: a text identifier derived deterministically from the payload's
//! cryptographic digest. A write is persisted only after an external state
//! oracle confirms that the computed identifier is the currently recorded
//! value of the requested field, so the store accepts no blob whose identity
//! was not independently authorized.

mod bytes_dao;
mod config;
mod errors;
mod gate;
mod hasher;
mod image_dao;
mod image_service;
mod kv;
mod remote;

pub use bytes_dao::BytesDao;
pub use bytes_dao::MemBytesDaoImpl;
pub use config::frontend_host;
pub use config::Env;
pub use config::Opt;
pub use errors::PutError;
pub use errors::StoreError;
pub use gate::gate_allows;
pub use gate::gate_step;
pub use gate::get;
pub use gate::lemma_put_idempotent;
pub use gate::lemma_round_trip;
pub use gate::put;
pub use gate::verification_query;
pub use gate::Field;
pub use gate::GateDecision;
pub use gate::OracleAnswer;
pub use gate::VerificationQuery;
pub use hasher::digest;
pub use hasher::id_of;
pub use hasher::lemma_digest_deterministic;
pub use image_dao::ImageDao;
pub use image_dao::MemImageDaoImpl;
pub use image_service::load_image;
pub use image_service::save_image;
pub use kv::kv_map;
pub use remote::access_denied_marker;
pub use remote::contains_seq;
pub use remote::contains_subslice;
pub use remote::download_meaning;
pub use remote::interpret_download;
pub use remote::interpret_upload;
pub use remote::is_access_denied_text;
pub use remote::loaded_view;
pub use remote::upload_meaning;
pub use remote::FetchOutcome;
pub use remote::StoreAttemptOutcome;
