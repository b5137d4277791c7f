//! The three markets through which the agents meet.

pub mod credit;
pub mod goods;
pub mod labor;

pub use credit::{clear_credit_market, CreditOutcome};
pub use goods::{clear_goods_market, GoodsOutcome};
pub use labor::{clear_labor_market, LaborMarketAgent, LaborOutcome};
