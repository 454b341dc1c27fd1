pub mod vault;
pub mod yield_record;
