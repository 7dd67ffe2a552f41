//! Layer operations: other repositories mounted into this one.
pub mod layer_add;
pub mod layer_list_staged;
pub mod layer_remove;
