//! A binding to the kernel's socket-based crypto interface, written as
//! verified state machines: the library decides every step, and a thin
//! runner outside it performs the system calls that each step names.

mod algorithm;
mod context;
mod drbg;
mod hash;
mod session;

pub use crate::algorithm::{pad_salg, padded, Algorithm, NAME_LEN, TYPE_LEN};
pub use crate::context::{lemma_open_releases, OpenPhase, Opener};
pub use crate::drbg::{either_order, le_value, lemma_generator_releases, Draw, DrbgNoprSha256};
pub use crate::hash::{
    hashes, lemma_hash_releases, lemma_same_request, sha224, sha256, sha384, sha512, SHA224_LEN, SHA256_LEN, SHA384_LEN, SHA512_LEN,
};
pub use crate::session::{
    fits, handles, lemma_close_held, lemma_finish_releases, lemma_streams_resume, lemma_success_complete, lemma_wf_facts, to_bytes,
    Action, Context, Error, Operation, Phase, Reply, Session,
};
