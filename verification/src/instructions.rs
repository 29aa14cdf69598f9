pub mod claim_rewards;
pub mod initialize_market;
pub mod merge;
pub mod set_winning_side;
pub mod split;

pub use claim_rewards::claim_rewards;
pub use initialize_market::initialize_market;
pub use merge::merge;
pub use set_winning_side::set_winning_side;
pub use split::split;
