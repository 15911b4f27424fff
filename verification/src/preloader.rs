//! The capability through which expensive external resources reach the
//! tree.
//!
//! The embedding application supplies a `Generator` and runs it on a
//! background worker, feeding a bounded queue; the core only ever sees
//! finished items.  How an item is produced (a file read, a network
//! fetch, a decode) is outside the core, and a generator whose production
//! can fail must fall back internally to a guaranteed-available default
//! item: the queue's item type has no error case.

use vstd::prelude::*;

verus! {

/// A source of items, driven once per queue slot.
pub trait Generator {
    type Output;

    fn generate(&mut self) -> Self::Output;
}

} // verus!
