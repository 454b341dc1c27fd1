pub mod accounts;
pub mod core_asset;
pub mod math;
pub mod scaled_ui;
