//! A verified model of a firmware boot-services binding: the fixed layout of
//! the boot-services table, the status-code discipline of its entry points,
//! and an owned buffer allocated from the table's general-purpose pool.

pub mod layout;
pub mod pool;
pub mod status;
pub mod table;
