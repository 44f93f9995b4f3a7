use expense_auth::expense::{Amount, Expense};
use expense_auth::user::{Timestamp, User};

#[test]
fn amount_bounds() {
    let a = Amount::new(1234, 2).unwrap();
    assert_eq!((a.mantissa(), a.scale()), (1234, 2));
    assert!(Amount::new(-79_228_162_514_264_337_593_543_950_335, 28).is_some());
    assert!(Amount::new(79_228_162_514_264_337_593_543_950_336, 0).is_none());
    assert!(Amount::new(1, 29).is_none());
}

#[test]
fn expense_holds_its_parts() {
    let e = Expense {
        expense_id: 1,
        user: User {
            user_id: 2,
            display_name: "Alice".to_string(),
            email: "alice@x.com".to_string(),
            password: None,
            creation_time: Timestamp { micros: 0 },
        },
        expense_time: Timestamp { micros: 5 },
        amount: Amount::new(999, 2).unwrap(),
        tags: vec!["food".to_string()],
    };
    assert_eq!(e.amount.mantissa(), 999);
    assert_eq!(e.tags.len(), 1);
}
