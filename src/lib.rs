//! Typed heap allocation handles: storage for a value that is not there yet,
//! an owner of a live value, a buffer with a capacity, a union of the first
//! two, and a handle whose layout a policy value decides.
//!
//! Every handle keeps its block in a standard container: a request of size
//! zero never reaches the allocator, every block is released exactly once,
//! and a value in a block is dropped exactly once.
pub mod cache;
pub mod err;
pub mod layout;
pub mod maybe_uninit;
pub mod owned;
pub mod policy;
pub mod raw_vec;
pub mod uninit;

pub use self::{
    cache::Cache,
    err::{AllocErr, LayoutErr, RawVecErr},
    layout::Layout,
    maybe_uninit::MaybeUninitAlloc,
    owned::OwnedAlloc,
    raw_vec::RawVec,
    uninit::UninitAlloc,
};
