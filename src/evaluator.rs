use vstd::prelude::*;

use crate::types::{
    lines_view, targets_view, CartLineModel, CartLineTarget, Decimal, Discount,
    DiscountApplicationStrategy, DiscountModel, FunctionRunResult, Percentage, ResponseData,
    ResultModel, Target, TargetModel, Value,
};

verus! {

/// The smallest quantity for which a cart line is discounted.
pub const MIN_QUANTITY: i64 = 2;

/// The discount granted to qualifying lines, in hundredths of a percent.
pub const DISCOUNT_PERCENT_HUNDREDTHS: i64 = 1000;

/// Whether a cart line is bought in a large enough quantity to be discounted.
pub open spec fn qualifies(line: CartLineModel) -> bool {
    line.quantity >= MIN_QUANTITY
}

/// The target that a cart line yields: one without a quantity cap when the
/// line qualifies, none otherwise.
pub open spec fn line_target(line: CartLineModel) -> Option<TargetModel> {
    if qualifies(line) {
        Some(TargetModel::CartLine { id: line.id, quantity: None })
    } else {
        None
    }
}

/// The targets of the qualifying lines, in cart order.
pub open spec fn qualifying_targets(lines: Seq<CartLineModel>) -> Seq<TargetModel> {
    lines.filter_map(|line: CartLineModel| line_target(line))
}

/// The value of the volume discount: ten percent.
pub open spec fn volume_value() -> Value {
    Value::Percentage(Percentage { value: Decimal { hundredths: DISCOUNT_PERCENT_HUNDREDTHS } })
}

/// The volume discount over the given targets, without a message.
pub open spec fn volume_discount(targets: Seq<TargetModel>) -> DiscountModel {
    DiscountModel { message: None, targets, value: volume_value() }
}

/// The result for a cart: no discount when no line qualifies, else one volume
/// discount over the qualifying lines; the first discount applies.
pub open spec fn evaluate(lines: Seq<CartLineModel>) -> ResultModel {
    let targets = qualifying_targets(lines);
    ResultModel {
        discounts: if targets.len() == 0 {
            Seq::empty()
        } else {
            seq![volume_discount(targets)]
        },
        strategy: DiscountApplicationStrategy::First,
    }
}

/// A result is well formed when each of its discounts has at least one target.
pub open spec fn well_formed(r: ResultModel) -> bool {
    forall|k: int| 0 <= k < r.discounts.len() ==> #[trigger] r.discounts[k].targets.len() > 0
}

/// Computes the volume discount for a cart.
pub fn run(input: ResponseData) -> (r: FunctionRunResult)
    ensures
        r@ == evaluate(input@),
        well_formed(r@),
{
    let lines = &input.cart.lines;
    let n = lines.len();
    let ghost models = input@;
    let mut targets: Vec<Target> = Vec::new();
    let mut i: usize = 0;
    while i < n
        invariant
            n == lines@.len(),
            models == lines_view(lines@),
            i <= n,
            targets_view(targets@) == qualifying_targets(models.take(i as int)),
        decreases n - i,
    {
        let line = &lines[i];
        proof {
            models.lemma_filter_map_take_succ(|l: CartLineModel| line_target(l), i as int);
        }
        let ghost before = targets@;
        if line.quantity >= MIN_QUANTITY {
            targets.push(Target::CartLine(CartLineTarget { id: line.id.clone(), quantity: None }));
            assert(targets_view(targets@) =~= targets_view(before).push(targets@.last()@));
        }
        i += 1;
        assert(targets_view(targets@) =~= qualifying_targets(models.take(i as int)));
    }
    assert(models.take(n as int) =~= models);
    if targets.len() == 0 {
        let r = FunctionRunResult {
            discounts: Vec::new(),
            discount_application_strategy: DiscountApplicationStrategy::First,
        };
        assert(r@.discounts =~= evaluate(models).discounts);
        return r;
    }
    let discount = Discount {
        message: None,
        targets,
        value: Value::Percentage(Percentage { value: Decimal { hundredths: DISCOUNT_PERCENT_HUNDREDTHS } }),
    };
    let r = FunctionRunResult {
        discounts: vec![discount],
        discount_application_strategy: DiscountApplicationStrategy::First,
    };
    assert(r@.discounts =~= evaluate(models).discounts);
    r
}

/// The target that the qualifying line at position `i` yields.
pub open spec fn is_target_of_line(lines: Seq<CartLineModel>, t: TargetModel, i: int) -> bool {
    &&& 0 <= i < lines.len()
    &&& qualifies(lines[i])
    &&& t == TargetModel::CartLine { id: lines[i].id, quantity: None }
}

/// A target is among the qualifying targets exactly when some qualifying line
/// yields it.
pub proof fn lemma_qualifying_targets_contains(lines: Seq<CartLineModel>, t: TargetModel)
    ensures
        qualifying_targets(lines).contains(t) <==> exists|i: int| is_target_of_line(lines, t, i),
    decreases lines.len(),
{
    if lines.len() > 0 {
        let rest = lines.drop_last();
        let last = lines.len() - 1;
        lemma_qualifying_targets_contains(rest, t);
        if exists|i: int| is_target_of_line(rest, t, i) {
            let i = choose|i: int| is_target_of_line(rest, t, i);
            assert(is_target_of_line(lines, t, i));
        }
        if exists|i: int| is_target_of_line(lines, t, i) {
            let i = choose|i: int| is_target_of_line(lines, t, i);
            if i < last {
                assert(is_target_of_line(rest, t, i));
            }
        }
        if qualifies(lines[last]) {
            let here = TargetModel::CartLine { id: lines[last].id, quantity: None };
            assert(qualifying_targets(lines) == qualifying_targets(rest) + seq![here]);
            if t == here {
                assert(is_target_of_line(lines, t, last));
                assert(qualifying_targets(lines)[qualifying_targets(rest).len() as int] == t);
            }
            assert(qualifying_targets(lines).contains(t) ==> (qualifying_targets(rest).contains(t) || t == here));
        } else {
            assert(qualifying_targets(lines) == qualifying_targets(rest));
            assert(!is_target_of_line(lines, t, last));
        }
        if qualifying_targets(rest).contains(t) {
            let k = choose|k: int| 0 <= k < qualifying_targets(rest).len() && qualifying_targets(rest)[k] == t;
            assert(qualifying_targets(lines)[k] == t);
        }
    } else {
        assert(qualifying_targets(lines) =~= Seq::<TargetModel>::empty());
    }
}

/// A cart in which no line reaches the minimum quantity gets no discount, and
/// the first-discount strategy.
pub proof fn lemma_no_qualifying_line_no_discount(lines: Seq<CartLineModel>)
    requires
        forall|i: int| 0 <= i < lines.len() ==> #[trigger] lines[i].quantity < MIN_QUANTITY,
    ensures
        evaluate(lines).discounts.len() == 0,
        evaluate(lines).strategy == DiscountApplicationStrategy::First,
{
    let targets = qualifying_targets(lines);
    if targets.len() > 0 {
        lemma_qualifying_targets_contains(lines, targets[0]);
        assert(targets.contains(targets[0]));
    }
}

/// A cart with a line that reaches the minimum quantity gets exactly one
/// discount: ten percent, without a message, whose targets are exactly the
/// qualifying lines, each without a quantity cap.
pub proof fn lemma_qualifying_line_one_discount(lines: Seq<CartLineModel>)
    requires
        exists|i: int| 0 <= i < lines.len() && #[trigger] lines[i].quantity >= MIN_QUANTITY,
    ensures
        evaluate(lines).discounts.len() == 1,
        evaluate(lines).discounts[0].message is None,
        evaluate(lines).discounts[0].value == volume_value(),
        evaluate(lines).discounts[0].targets == qualifying_targets(lines),
        evaluate(lines).discounts[0].targets.to_set() == Set::new(
            |t: TargetModel| exists|i: int| is_target_of_line(lines, t, i),
        ),
        evaluate(lines).strategy == DiscountApplicationStrategy::First,
{
    let i = choose|i: int| 0 <= i < lines.len() && #[trigger] lines[i].quantity >= MIN_QUANTITY;
    let t = TargetModel::CartLine { id: lines[i].id, quantity: None };
    assert(is_target_of_line(lines, t, i));
    lemma_qualifying_targets_contains(lines, t);
    let targets = qualifying_targets(lines);
    assert forall|u: TargetModel| targets.to_set().contains(u) <==> exists|j: int| is_target_of_line(lines, u, j) by {
        lemma_qualifying_targets_contains(lines, u);
    }
    assert(targets.to_set() =~= Set::new(|u: TargetModel| exists|j: int| is_target_of_line(lines, u, j)));
}

/// Every result is well formed: a discount never comes without targets.
pub proof fn lemma_evaluate_well_formed(lines: Seq<CartLineModel>)
    ensures
        well_formed(evaluate(lines)),
{
}

/// Evaluating the same cart twice gives the same result.
pub proof fn lemma_evaluate_deterministic(first: ResponseData, second: ResponseData)
    requires
        first@ == second@,
    ensures
        evaluate(first@) == evaluate(second@),
{
}

} // verus!
