use otap_df_pdata::error::{IndexColumn, ProfilesTable};
use otap_df_pdata::model::binary64::binary64_from_int;
use otap_df_pdata::testing::from_config::{BINARY64_NINETY_FIVE_HUNDREDTHS, BINARY64_ONE_HALF};
use otap_df_pdata::testing::text::with_decimal;

#[test]
fn binary64_of_integers_matches_the_float_encoding() {
    for n in [0u64, 1, 2, 3, 7, 10, 50, 95, 100, 123_456_789, (1u64 << 53) - 1] {
        assert_eq!(binary64_from_int(n), (n as f64).to_bits(), "n = {n}");
    }
}

#[test]
fn binary64_constants() {
    assert_eq!(BINARY64_ONE_HALF, 0.5f64.to_bits());
    assert_eq!(BINARY64_NINETY_FIVE_HUNDREDTHS, 0.95f64.to_bits());
}

#[test]
fn decimal_rendering() {
    assert_eq!(with_decimal("span_", 0), "span_0");
    assert_eq!(with_decimal("x", 1234567890), "x1234567890");
    assert_eq!(with_decimal("", u64::MAX), u64::MAX.to_string());
}

#[test]
fn table_and_column_names() {
    assert_eq!(ProfilesTable::Link.name(), "link");
    assert_eq!(ProfilesTable::Attribute.name(), "attribute");
    assert_eq!(ProfilesTable::AttributeUnits.name(), "attribute-units");
    assert_eq!(ProfilesTable::Sample.name(), "sample");
    assert_eq!(IndexColumn::LinkIndex.name(), "link_index");
    assert_eq!(IndexColumn::AttributeIndices.name(), "attribute_indices");
    assert_eq!(IndexColumn::SystemNameStrindex.name(), "system_name_strindex");
}
