use vstd::prelude::*;

verus! {

/// One line of the cart: which line it is, and how many items it holds.
#[derive(Clone, Debug, PartialEq, Eq)]
pub struct CartLine {
    pub id: String,
    pub quantity: i64,
}

/// The cart as the query hands it over.
#[derive(Clone, Debug, PartialEq, Eq)]
pub struct Cart {
    pub lines: Vec<CartLine>,
}

/// The data the discount is computed from.
#[derive(Clone, Debug, PartialEq, Eq)]
pub struct ResponseData {
    pub cart: Cart,
}

/// A decimal number with two digits after the point, held as a count of
/// hundredths (`10.0` is `Decimal { hundredths: 1000 }`).
#[derive(Clone, Copy, Debug, PartialEq, Eq, Structural)]
pub struct Decimal {
    pub hundredths: i64,
}

/// A discount of a share of the price, in percent.
#[derive(Clone, Copy, Debug, PartialEq, Eq, Structural)]
pub struct Percentage {
    pub value: Decimal,
}

/// A discount of a fixed amount of money.
#[derive(Clone, Copy, Debug, PartialEq, Eq, Structural)]
pub struct FixedAmount {
    pub amount: Decimal,
    pub applies_to_each_item: Option<bool>,
}

/// How much a discount takes off.
#[derive(Clone, Copy, Debug, PartialEq, Eq, Structural)]
pub enum Value {
    FixedAmount(FixedAmount),
    Percentage(Percentage),
}

/// A cart line that a discount applies to, with an optional cap on the
/// number of its items that are discounted.
#[derive(Clone, Debug, PartialEq, Eq)]
pub struct CartLineTarget {
    pub id: String,
    pub quantity: Option<i64>,
}

/// What a discount applies to.
#[derive(Clone, Debug, PartialEq, Eq)]
pub enum Target {
    CartLine(CartLineTarget),
}

/// One discount: an optional message, the lines it applies to and its value.
#[derive(Clone, Debug, PartialEq, Eq)]
pub struct Discount {
    pub message: Option<String>,
    pub targets: Vec<Target>,
    pub value: Value,
}

/// How the host combines several discounts.
#[derive(Clone, Copy, Debug, PartialEq, Eq, Structural)]
pub enum DiscountApplicationStrategy {
    First,
    Maximum,
    All,
}

/// The outcome of one evaluation: the discounts and how to apply them.
#[derive(Clone, Debug, PartialEq, Eq)]
pub struct FunctionRunResult {
    pub discounts: Vec<Discount>,
    pub discount_application_strategy: DiscountApplicationStrategy,
}

/// Mathematical model of a cart line.
pub struct CartLineModel {
    pub id: Seq<char>,
    pub quantity: int,
}

/// Mathematical model of a discount target.
pub enum TargetModel {
    CartLine { id: Seq<char>, quantity: Option<int> },
}

/// Mathematical model of a discount.
pub struct DiscountModel {
    pub message: Option<Seq<char>>,
    pub targets: Seq<TargetModel>,
    pub value: Value,
}

/// Mathematical model of a result.
pub struct ResultModel {
    pub discounts: Seq<DiscountModel>,
    pub strategy: DiscountApplicationStrategy,
}

/// The models of a sequence of cart lines.
pub open spec fn lines_view(lines: Seq<CartLine>) -> Seq<CartLineModel> {
    lines.map_values(|l: CartLine| l@)
}

/// The models of a sequence of targets.
pub open spec fn targets_view(targets: Seq<Target>) -> Seq<TargetModel> {
    targets.map_values(|t: Target| t@)
}

/// The models of a sequence of discounts.
pub open spec fn discounts_view(discounts: Seq<Discount>) -> Seq<DiscountModel> {
    discounts.map_values(|d: Discount| d@)
}

impl View for CartLine {
    type V = CartLineModel;

    open spec fn view(&self) -> CartLineModel {
        CartLineModel { id: self.id@, quantity: self.quantity as int }
    }
}

impl View for ResponseData {
    type V = Seq<CartLineModel>;

    /// The cart's lines, in order.
    open spec fn view(&self) -> Seq<CartLineModel> {
        lines_view(self.cart.lines@)
    }
}

impl View for Target {
    type V = TargetModel;

    open spec fn view(&self) -> TargetModel {
        match self {
            Target::CartLine(t) => TargetModel::CartLine {
                id: t.id@,
                quantity: match t.quantity {
                    Some(q) => Some(q as int),
                    None => None,
                },
            },
        }
    }
}

impl View for Discount {
    type V = DiscountModel;

    open spec fn view(&self) -> DiscountModel {
        DiscountModel {
            message: match self.message {
                Some(m) => Some(m@),
                None => None,
            },
            targets: targets_view(self.targets@),
            value: self.value,
        }
    }
}

impl View for FunctionRunResult {
    type V = ResultModel;

    open spec fn view(&self) -> ResultModel {
        ResultModel {
            discounts: discounts_view(self.discounts@),
            strategy: self.discount_application_strategy,
        }
    }
}

} // verus!
