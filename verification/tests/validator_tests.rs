use xsd_parser::validator::{
    gen_length_validation, gen_max_exclusive_validation, gen_max_inclusive_validation,
    gen_max_length_validation, gen_min_exclusive_validation, gen_min_inclusive_validation,
    gen_min_length_validation,
};

#[test]
fn test_gen_max_exclusive_validation() {
    let expected = r#"
        if self.count >= "5".parse::<i32>().unwrap() {
            return Err(format!("MaxExclusive validation error: invalid value of count! \nExpected: count < 5.\nActual: count == {}", self.count));
        }"#;
    assert_eq!(gen_max_exclusive_validation("5", "count", "i32"), expected);
}

#[test]
fn test_gen_max_inclusive_validation() {
    let expected = r#"
        if self.count > "5".parse::<i32>().unwrap() {
            return Err(format!("MaxInclusive validation error: invalid value of count! \nExpected: count <= 5.\nActual: count == {}", self.count));
        }"#;
    assert_eq!(gen_max_inclusive_validation("5", "count", "i32"), expected);
}

#[test]
fn test_gen_length_validation() {
    let expected = r#"
        if self.name.len() != 50 {
            return Err(format!("Length validation error. \nExpected: name length == 50 \nActual: name length == {}", self.name.len()));
        }"#;
    assert_eq!(gen_length_validation("50", "name"), expected);
}

#[test]
fn test_gen_max_length_validation() {
    let expected = r#"
        if self.name.len() > 50 {
            return Err(format!("MaxLength validation error. \nExpected: name length <= 50 \nActual: name length == {}", self.name.len()));
        }"#;
    assert_eq!(gen_max_length_validation("50", "name"), expected);
}

#[test]
fn test_gen_min_exclusive_validation() {
    let expected = r#"
        if self.count <= "5".parse::<i32>().unwrap() {
            return Err(format!("MinExclusive validation error: invalid value of count! \nExpected: count > 5.\nActual: count == {}", self.count));
        }"#;
    assert_eq!(gen_min_exclusive_validation("5", "count", "i32"), expected);
}

#[test]
fn test_gen_min_inclusive_validation() {
    let expected = r#"
        if self.count < "5".parse::<i32>().unwrap() {
            return Err(format!("MinInclusive validation error: invalid value of count! \nExpected: count >= 5.\nActual: count == {}", self.count));
        }"#;
    assert_eq!(gen_min_inclusive_validation("5", "count", "i32"), expected);
}

#[test]
fn test_gen_min_length_validation() {
    let expected = r#"
        #[allow(clippy::len_zero)]
        if self.name.len() < 50 {
            return Err(format!("MinLength validation error. \nExpected: name length >= 50 \nActual: name length == {}", self.name.len()));
        }"#;
    assert_eq!(gen_min_length_validation("50", "name"), expected);
}

#[test]
fn test_gen_min_length_zero_validation() {
    let expected = "";
    assert_eq!(gen_min_length_validation("0", "name"), expected);
}
