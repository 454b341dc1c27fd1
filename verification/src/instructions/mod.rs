pub mod creator_initialize_vault;
pub mod keeper_distribute_payout;
pub mod keeper_execute_swap;
pub mod keeper_harvest_dividend;
pub mod owner_buyout_yield;
pub mod owner_redeem_principal;
pub mod owner_strip_position;
pub mod allocation;
