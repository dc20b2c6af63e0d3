use inner::extract::{
    inner, inner_if, inner_if_or_else, inner_if_or_else_with, inner_or_else, inner_or_else_with,
};
use inner::IntoResult;

#[derive(Debug, PartialEq, Eq)]
enum Fruit {
    Apple(i32),
    Orange(i16),
}

impl IntoResult<i32, i16> for Fruit {
    fn into_result(self) -> Result<i32, i16> {
        match self {
            Fruit::Apple(i) => Ok(i),
            Fruit::Orange(i) => Err(i),
        }
    }
}

fn apple_of(f: Fruit) -> Result<i32, Fruit> {
    match f {
        Fruit::Apple(q) => Ok(q),
        other => Err(other),
    }
}

fn orange_of(f: Fruit) -> Result<i16, Fruit> {
    match f {
        Fruit::Orange(q) => Ok(q),
        other => Err(other),
    }
}

#[test]
fn simple_opt() {
    assert_eq!(inner(Some(7)), 7);
}

#[test]
#[should_panic]
fn simple_opt_fail() {
    let z: Option<i32> = None;
    inner(z);
}

#[test]
fn else_clause() {
    let x: Result<String, i32> = Err(7);
    let Ok(_) = x.into_result() else { return };
    panic!();
}

#[test]
fn else_clause_2() {
    let x: Result<String, i32> = Err(7);
    let y = inner_or_else_with(x, |e| {
        assert_eq!(e, 7);
        (e + 2).to_string()
    });
    assert_eq!(&y, "9");
}

#[test]
fn apple() {
    let z = Fruit::Apple(15);
    assert_eq!(15, inner_if(z, apple_of));
}

#[test]
fn if_else() {
    let z = Fruit::Apple(15);
    assert_eq!(
        15,
        inner_if_or_else(z, apple_of, || -> i32 {
            panic!("Not an apple");
        })
    );
}

#[test]
fn own_enum() {
    let z = Fruit::Orange(15);
    assert_eq!(7, inner_or_else_with(z, |e| (e - 8) as i32));

    let z = Fruit::Apple(15);
    assert_eq!(
        9,
        inner_if_or_else_with(z, orange_of, |e| {
            assert_eq!(e, Fruit::Apple(15));
            9
        })
    );
}

#[test]
fn result_success_yields_payload() {
    let x: Result<i32, ()> = Ok(2);
    assert_eq!(inner(x), 2);
}

#[test]
fn result_converts_to_itself() {
    let x: Result<i32, String> = Ok(4);
    assert_eq!(x.into_result(), Ok(4));
    let y: Result<i32, String> = Err("no".to_string());
    assert_eq!(y.into_result(), Err("no".to_string()));
}

#[test]
fn option_converts_to_result() {
    assert_eq!(Some(5).into_result(), Ok(5));
    let z: Option<i32> = None;
    assert_eq!(z.into_result(), Err(()));
}

#[test]
fn own_enum_success_through_conversion() {
    assert_eq!(inner(Fruit::Apple(9)), 9);
    assert_eq!(inner_or_else_with(Fruit::Apple(11), |e| e as i32), 11);
}

#[test]
fn fallback_not_run_on_success() {
    let x: Result<i32, i32> = Ok(1);
    let y = inner_or_else(x, || -> i32 { panic!("fallback ran") });
    assert_eq!(y, 1);
    let z = inner_if_or_else_with(Fruit::Orange(3), orange_of, |_| -> i16 {
        panic!("fallback ran")
    });
    assert_eq!(z, 3);
}

#[test]
fn fallback_without_payload_gives_default() {
    let z: Option<i32> = None;
    assert_eq!(inner_or_else(z, || 0), 0);
    assert_eq!(inner_if_or_else(Fruit::Orange(2), apple_of, || 0), 0);
}

#[test]
fn variant_mismatch_hands_whole_value() {
    let z = Fruit::Orange(15);
    let y = inner_if_or_else_with(z, apple_of, |e| {
        assert_eq!(e, Fruit::Orange(15));
        -1
    });
    assert_eq!(y, -1);
}

fn first_apple_after_skipping(fruits: Vec<Fruit>) -> Option<i32> {
    let mut skipped = 0;
    for f in fruits {
        let Ok(a) = apple_of(f) else {
            skipped += 1;
            continue;
        };
        assert_eq!(skipped, 2);
        return Some(a);
    }
    None
}

#[test]
fn fallback_continues_enclosing_loop() {
    let fruits = vec![Fruit::Orange(1), Fruit::Orange(2), Fruit::Apple(3)];
    assert_eq!(first_apple_after_skipping(fruits), Some(3));
}

fn early_return(x: Result<i32, i32>) -> i32 {
    let Ok(v) = x.into_result() else { return -7 };
    v * 10
}

#[test]
fn fallback_returns_from_enclosing_function() {
    assert_eq!(early_return(Err(0)), -7);
    assert_eq!(early_return(Ok(3)), 30);
}
