//! Size limits, in bytes, enforced before anything is written to the store.

use vstd::prelude::*;

verus! {

pub const MAX_PAGE_TEXT_SIZE: usize = 100000;

pub const MAX_PAGE_TITLE_SIZE: usize = 1000;

pub const MAX_ITEM_NAME_SIZE: usize = 100;

pub const MAX_ITEM_DESCRIPTION_SIZE: usize = 1000;

} // verus!
