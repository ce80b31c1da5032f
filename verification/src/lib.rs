//! Automated Guix builds of Bitcoin Core: the decisions, without the doing.
//!
//! Two repositories are watched for new version tags. A tag that appears in
//! the source repository is built and attested; when the same tag appears in
//! the repository of detached signatures, the code-signed attestation
//! follows. This crate holds what is decided along the way: how tags are
//! ordered, which tags are new, what is stored about them, which stage comes
//! next for which tag, and which programs a stage runs. It touches neither
//! files nor the network and starts no program; the program around it does
//! that and reports back.
//!
//! - [`version`]: version tags and their order.
//! - [`tagset`], [`store`], [`fetcher`]: the tags known of a repository, their
//!   stored form, and the tags that a repository lists.
//! - [`watcher`]: the coordinator of the two polling cycles.
//! - [`builder`], [`plan`], [`sdk`]: the stages and the programs that they
//!   run.
//! - [`config`], [`wizard`], [`daemon`], [`xor`]: configuration and helpers.
//! - [`text`], [`decimal`]: character sequences and numerals.
//! - [`store_proofs`], [`watcher_proofs`], [`text_proofs`]: what is proved of
//!   the above.

pub mod builder;
pub mod config;
pub mod daemon;
pub mod decimal;
pub mod fetcher;
pub mod plan;
pub mod sdk;
pub mod store;
pub mod store_proofs;
pub mod tagset;
pub mod text;
pub mod text_proofs;
pub mod version;
pub mod watcher;
pub mod watcher_proofs;
pub mod wizard;
pub mod xor;
