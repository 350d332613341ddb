use product_discount::evaluator::{run, DISCOUNT_PERCENT_HUNDREDTHS, MIN_QUANTITY};
use product_discount::{
    Cart, CartLine, CartLineTarget, Decimal, Discount, DiscountApplicationStrategy,
    FunctionRunResult, Percentage, ResponseData, Target, Value,
};

fn cart(lines: &[(&str, i64)]) -> ResponseData {
    ResponseData {
        cart: Cart {
            lines: lines
                .iter()
                .map(|(id, quantity)| CartLine { id: id.to_string(), quantity: *quantity })
                .collect(),
        },
    }
}

fn no_discount() -> FunctionRunResult {
    FunctionRunResult {
        discounts: vec![],
        discount_application_strategy: DiscountApplicationStrategy::First,
    }
}

fn ten_percent_on(ids: &[&str]) -> FunctionRunResult {
    FunctionRunResult {
        discounts: vec![Discount {
            message: None,
            targets: ids
                .iter()
                .map(|id| Target::CartLine(CartLineTarget { id: id.to_string(), quantity: None }))
                .collect(),
            value: Value::Percentage(Percentage { value: Decimal { hundredths: 1000 } }),
        }],
        discount_application_strategy: DiscountApplicationStrategy::First,
    }
}

#[test]
fn single_items_get_no_discount() {
    assert_eq!(run(cart(&[("1", 1), ("2", 1)])), no_discount());
}

#[test]
fn one_line_of_two_is_discounted() {
    assert_eq!(run(cart(&[("1", 2)])), ten_percent_on(&["1"]));
}

#[test]
fn only_the_large_line_is_discounted() {
    assert_eq!(run(cart(&[("1", 1), ("2", 3)])), ten_percent_on(&["2"]));
}

#[test]
fn empty_cart_gets_no_discount() {
    assert_eq!(run(cart(&[])), no_discount());
}

#[test]
fn small_and_odd_quantities_get_no_discount() {
    let result = run(cart(&[("a", 0), ("b", 1), ("c", -5), ("d", i64::MIN)]));
    assert!(result.discounts.is_empty());
    assert_eq!(result.discount_application_strategy, DiscountApplicationStrategy::First);
}

#[test]
fn every_qualifying_line_is_targeted_in_cart_order() {
    let result = run(cart(&[("x", 5), ("y", 1), ("z", 2), ("w", i64::MAX), ("v", 0)]));
    assert_eq!(result, ten_percent_on(&["x", "z", "w"]));
}

#[test]
fn threshold_is_inclusive() {
    assert_eq!(MIN_QUANTITY, 2);
    assert_eq!(run(cart(&[("low", MIN_QUANTITY - 1)])), no_discount());
    assert_eq!(run(cart(&[("edge", MIN_QUANTITY)])), ten_percent_on(&["edge"]));
}

#[test]
fn discount_is_ten_percent_without_message() {
    assert_eq!(DISCOUNT_PERCENT_HUNDREDTHS, 1000);
    let result = run(cart(&[("gid://shopify/CartLine/7", 4)]));
    assert_eq!(result.discounts.len(), 1);
    let discount = &result.discounts[0];
    assert_eq!(discount.message, None);
    assert_eq!(
        discount.value,
        Value::Percentage(Percentage { value: Decimal { hundredths: 1000 } })
    );
    assert_eq!(
        discount.targets,
        vec![Target::CartLine(CartLineTarget {
            id: "gid://shopify/CartLine/7".to_string(),
            quantity: None,
        })]
    );
}

#[test]
fn equal_ids_are_each_targeted() {
    assert_eq!(run(cart(&[("dup", 2), ("dup", 3), ("dup", 1)])), ten_percent_on(&["dup", "dup"]));
}

#[test]
fn running_twice_gives_the_same_result() {
    let input = cart(&[("1", 1), ("2", 3), ("3", 2)]);
    let first = run(input.clone());
    let second = run(input);
    assert_eq!(first, second);
    let empty_first = run(cart(&[]));
    let empty_second = run(cart(&[]));
    assert_eq!(empty_first, empty_second);
}
