//! Volume discount for a shopping cart: every cart line bought in a quantity of
//! at least two is targeted by a single percentage discount.

pub mod evaluator;
pub mod types;

pub use evaluator::run;
pub use types::{
    Cart, CartLine, CartLineTarget, Decimal, Discount, DiscountApplicationStrategy, FixedAmount,
    FunctionRunResult, Percentage, ResponseData, Target, Value,
};
