//! Packaging of zero-knowledge proof artifacts: a persisted container per
//! proof mode, a portable hex fixture, and a verification dispatcher.

pub mod codec;
pub mod container;
pub mod dispatch;
pub mod fixture;
pub mod gzip;
pub mod hexcode;
pub mod lenient;
pub mod mode;

pub use codec::{load, persist, LoadError, PersistError, ProofObject};
pub use dispatch::{verify_artifact, verify_compressed, verify_groth16, verify_plonk, Error, Policy};
pub use fixture::{export, fixture_of, read_fixture, Artifact, FixtureError, ProgramId, ProgramKey, ProofFixture};
pub use mode::Mode;
