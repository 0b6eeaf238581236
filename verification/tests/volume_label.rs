use manga_shelf_lib::volume_label::make_volume_sort_key;

fn key(label: &str) -> String {
    make_volume_sort_key(label).expect("label has a sort key")
}

#[test]
fn numeric_labels_are_padded_to_fixed_width() {
    assert_eq!(key("11"), "0:000011.000");
    assert_eq!(key("1"), "0:000001.000");
    assert_eq!(key("3.5"), "0:000003.500");
    assert_eq!(key("12.125"), "0:000012.125");
    assert_eq!(key("999999"), "0:999999.000");
}

#[test]
fn leading_zeros_do_not_change_numeric_keys() {
    assert_eq!(key("007"), "0:000007.000");
    assert_eq!(key("0"), "0:000000.000");
    assert_eq!(key("000"), "0:000000.000");
    assert_eq!(key("0000123456"), "0:123456.000");
}

#[test]
fn special_labels_sort_after_numbers() {
    assert_eq!(key("上"), "1:上");
    assert_eq!(key("下"), "1:下");
    assert_eq!(key("全一冊"), "2:全一冊");
    assert_eq!(key("外傳"), "9:外傳");
}

#[test]
fn malformed_numbers_are_ordinary_labels() {
    assert_eq!(key("1.2345"), "9:1.2345");
    assert_eq!(key(".5"), "9:.5");
    assert_eq!(key("5."), "9:5.");
    assert_eq!(key("1.2.3"), "9:1.2.3");
    assert_eq!(key("１"), "9:１");
    assert_eq!(key(""), "9:");
}

#[test]
fn numbers_with_more_than_six_integer_digits_are_refused() {
    let error = make_volume_sort_key("1234567").expect_err("seven digits");
    assert_eq!(error.code, "invalid_volume_label");
    assert_eq!(error.message, "The volume label is invalid.");
    let error = make_volume_sort_key("1234567.5").expect_err("seven digits with fraction");
    assert_eq!(error.code, "invalid_volume_label");
}

#[test]
fn sort_keys_order_labels_naturally() {
    let labels = ["2", "11", "3.5", "3", "上", "外傳", "全一冊", "100", "下", "007"];
    let mut keyed: Vec<(String, &str)> = labels.iter().map(|label| (key(label), *label)).collect();
    keyed.sort();
    let ordered: Vec<&str> = keyed.iter().map(|(_, label)| *label).collect();
    assert_eq!(
        ordered,
        vec!["2", "3", "3.5", "007", "11", "100", "上", "下", "全一冊", "外傳"]
    );
}
