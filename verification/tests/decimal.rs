use adder_demo::decimal::to_decimal;

#[test]
fn decimal_of_zero() {
    assert_eq!(to_decimal(0), "0");
}

#[test]
fn decimal_of_single_digits() {
    let digits = ["0", "1", "2", "3", "4", "5", "6", "7", "8", "9"];
    let mut n: i32 = 0;
    for digit in digits {
        assert_eq!(to_decimal(n), digit);
        n += 1;
    }
}

#[test]
fn decimal_of_several_digits() {
    assert_eq!(to_decimal(10), "10");
    assert_eq!(to_decimal(42), "42");
    assert_eq!(to_decimal(100), "100");
    assert_eq!(to_decimal(1_002_003), "1002003");
    assert_eq!(to_decimal(1_234_567_890), "1234567890");
}

#[test]
fn decimal_of_negative_numbers() {
    assert_eq!(to_decimal(-1), "-1");
    assert_eq!(to_decimal(-5), "-5");
    assert_eq!(to_decimal(-10), "-10");
    assert_eq!(to_decimal(-907), "-907");
}

#[test]
fn decimal_of_the_extremes() {
    assert_eq!(to_decimal(i32::MAX), "2147483647");
    assert_eq!(to_decimal(i32::MIN), "-2147483648");
    assert_eq!(to_decimal(i32::MIN + 1), "-2147483647");
}

#[test]
fn decimal_agrees_with_the_standard_notation() {
    let mut n: i32 = -2_500;
    while n <= 2_500 {
        assert_eq!(to_decimal(n), format!("{}", n));
        n += 1;
    }
    let mut power: i32 = 1;
    for _ in 0..9 {
        power *= 10;
        for n in [power - 1, power, power + 1, -power + 1, -power, -power - 1] {
            assert_eq!(to_decimal(n), format!("{}", n));
        }
    }
}
