use arith_guest::record::{Level, LogRecord, Operation};

#[test]
fn tags_name_the_operation() {
    assert_eq!(Operation::Add.tag(), "guest:add");
    assert_eq!(Operation::Divide.tag(), "guest:divide");
    assert_ne!(Operation::Add.tag(), Operation::Divide.tag());
}

#[test]
fn signs_stand_between_spaces() {
    assert_eq!(Operation::Add.sign(), " + ");
    assert_eq!(Operation::Divide.sign(), " / ");
}

#[test]
fn success_of_an_addition() {
    let record = LogRecord::success(Operation::Add, "2", "3", "5");
    assert_eq!(record.level, Level::Info);
    assert_eq!(record.source, "guest:add");
    assert_eq!(record.message, "2 + 3 = 5");
}

#[test]
fn success_of_a_division() {
    let record = LogRecord::success(Operation::Divide, "10", "4", "2.5");
    assert_eq!(record.level, Level::Info);
    assert_eq!(record.source, "guest:divide");
    assert_eq!(record.message, "10 / 4 = 2.5");
}

#[test]
fn success_keeps_the_order_of_the_operands() {
    let record = LogRecord::success(Operation::Divide, "1", "8", "0.125");
    assert_eq!(record.message, "1 / 8 = 0.125");
    let swapped = LogRecord::success(Operation::Divide, "8", "1", "8");
    assert_eq!(swapped.message, "8 / 1 = 8");
}

#[test]
fn success_takes_the_texts_as_they_are() {
    let record = LogRecord::success(Operation::Add, "-1", "NaN", "NaN");
    assert_eq!(record.message, "-1 + NaN = NaN");
    let infinite = LogRecord::success(Operation::Divide, "inf", "-2", "-inf");
    assert_eq!(infinite.message, "inf / -2 = -inf");
    let empty = LogRecord::success(Operation::Add, "", "", "");
    assert_eq!(empty.message, " +  = ");
    let wide = LogRecord::success(Operation::Add, "\u{221e}", "1", "\u{221e}");
    assert_eq!(wide.message, "\u{221e} + 1 = \u{221e}");
}

#[test]
fn division_by_zero_is_an_error() {
    let record = LogRecord::division_by_zero();
    assert_eq!(record.level, Level::Error);
    assert_eq!(record.source, "guest:divide");
    assert_eq!(record.message, "Division by zero error");
}

#[test]
fn levels_differ() {
    assert_ne!(Level::Info, Level::Error);
    assert_ne!(LogRecord::division_by_zero().level, LogRecord::success(Operation::Divide, "1", "2", "0.5").level);
}
