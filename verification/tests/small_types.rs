use ticket_store::bomb::DropBomb;
use ticket_store::order::Order;
use ticket_store::saturating::SaturatingU16;
use ticket_store::summation::sum;

#[test]
fn test_defused_drop_bomb() {
    let mut bomb = DropBomb::new();
    bomb.defuse();
    // The bomb should not panic when dropped
    // since it has been defused
}

#[test]
fn new_bomb_is_armed() {
    let bomb = DropBomb::new();
    assert!(!bomb.defused());
    let bomb = DropBomb::default();
    assert!(!bomb.defused());
}

#[test]
fn defuse_disarms() {
    let mut bomb = DropBomb::new();
    bomb.defuse();
    assert!(bomb.defused());
}

#[test]
fn order_new_accepts_valid_input() {
    let order = Order::new("socks".to_string(), 2, 300).expect("a valid order");
    assert_eq!(order.product_name(), "socks");
    assert_eq!(order.quantity(), 2);
    assert_eq!(order.unit_price(), 300);
    assert_eq!(order.total(), 600);
}

#[test]
fn order_new_rejects_bad_input() {
    assert!(Order::new("".to_string(), 1, 1).is_none());
    assert!(Order::new("x".repeat(301), 1, 1).is_none());
    assert!(Order::new("socks".to_string(), 0, 1).is_none());
    assert!(Order::new("socks".to_string(), 1, 0).is_none());
    assert!(Order::new("x".repeat(300), 1, 1).is_some());
    // the bound counts UTF-8 bytes, not characters
    assert!(Order::new("\u{e9}".repeat(151), 1, 1).is_none());
    assert!(Order::new("\u{e9}".repeat(150), 1, 1).is_some());
}

#[test]
fn order_setters_validate() {
    let mut order = Order::new("socks".to_string(), 2, 300).unwrap();
    assert!(!order.set_product_name("".to_string()));
    assert!(!order.set_product_name("x".repeat(301)));
    assert!(!order.set_product_name("\u{e9}".repeat(151)));
    assert_eq!(order.product_name(), "socks");
    assert!(order.set_product_name("shoes".to_string()));
    assert_eq!(order.product_name(), "shoes");
    assert!(!order.set_quantity(0));
    assert_eq!(order.quantity(), 2);
    assert!(order.set_quantity(5));
    assert_eq!(order.quantity(), 5);
    assert!(!order.set_unit_price(0));
    assert_eq!(order.unit_price(), 300);
    assert!(order.set_unit_price(100));
    assert_eq!(order.unit_price(), 100);
    assert_eq!(order.total(), 500);
}

#[test]
fn saturating_add_is_exact_below_the_cap() {
    let a = SaturatingU16::new(2);
    let b = SaturatingU16::new(3);
    assert_eq!(a + b, SaturatingU16::new(5));
}

#[test]
fn saturating_add_clamps_at_max() {
    let a = SaturatingU16::new(u16::MAX);
    let b = SaturatingU16::new(1);
    assert_eq!(a + b, SaturatingU16::new(u16::MAX));
    let c = SaturatingU16::new(u16::MAX - 10);
    let d = SaturatingU16::new(100);
    assert_eq!(c + d, SaturatingU16::new(u16::MAX));
    assert_eq!(c + SaturatingU16::new(10), SaturatingU16::new(u16::MAX));
}

#[test]
fn saturating_add_takes_every_right_hand_side() {
    let a = SaturatingU16::new(40);
    assert_eq!(a + 2u16, SaturatingU16::new(42));
    assert_eq!(a + &2u16, SaturatingU16::new(42));
    assert_eq!(a + &SaturatingU16::new(2), SaturatingU16::new(42));
    assert_eq!(a + u16::MAX, SaturatingU16::new(u16::MAX));
}

#[test]
fn saturating_conversions() {
    assert_eq!(SaturatingU16::from(7u16), SaturatingU16::new(7));
    assert_eq!(SaturatingU16::from(7u8), SaturatingU16::new(7));
    assert_eq!(SaturatingU16::from(&7u16), SaturatingU16::new(7));
    assert_eq!(SaturatingU16::from(&7u8), SaturatingU16::new(7));
}

#[test]
fn empty() {
    assert_eq!(sum(vec![]), 0);
}

#[test]
fn one() {
    assert_eq!(sum(vec![1]), 1);
}

#[test]
fn five() {
    assert_eq!(sum(vec![1, 2, 3, 4, 5]), 15);
}

#[test]
fn nine() {
    assert_eq!(sum(vec![1, 2, 3, 4, 5, 6, 7, 8, 9]), 45);
}

#[test]
fn ten() {
    assert_eq!(sum(vec![1, 2, 3, 4, 5, 6, 7, 8, 9, 10]), 55);
}
