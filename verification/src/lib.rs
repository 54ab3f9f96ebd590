use vstd::prelude::*;

pub mod error;
pub mod gcs;
pub mod metadata;
pub mod naming;
pub mod sqlite;

use crate::error::Error;

verus! {

/// The contract both storage backends satisfy: fetch the bytes stored under a
/// name, or store bytes under a name. Each implementation pins down what a
/// successful or failed call means for it through `fetch_ens` and `create_ens`.
pub trait StorageClient: Sized {
    /// What a completed fetch promises: relates the requested name and the
    /// returned bytes or error to this backend's state.
    spec fn fetch_ens(&self, name: Seq<char>, r: Result<Vec<u8>, Error>) -> bool;

    /// What a completed create promises: relates the stored name and bytes,
    /// the backend's state before (`self`) and after (`post`), and the result.
    spec fn create_ens(&self, post: Self, name: Seq<char>, bytes: Seq<u8>, r: Result<(), Error>) -> bool;

    /// Retrieve the bytes stored under `name`, exactly as they were stored.
    fn fetch_object(&self, name: &str) -> (r: Result<Vec<u8>, Error>)
        requires
            name@.len() > 0,
        ensures
            self.fetch_ens(name@, r),
    ;

    /// Store `bytes` under `name`; on success they are durably retrievable.
    fn create_object(&mut self, name: &str, bytes: Vec<u8>) -> (r: Result<(), Error>)
        requires
            name@.len() > 0,
        ensures
            old(self).create_ens(*final(self), name@, bytes@, r),
    ;
}

} // verus!
