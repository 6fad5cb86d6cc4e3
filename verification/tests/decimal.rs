use isucholar_infra::decimal::{all_to_i64, to_i64, DecimalParts};

#[test]
fn integral_decimal() {
    assert_eq!(to_i64(&DecimalParts { mantissa: 300, scale: 0 }), Some(300));
}

#[test]
fn fraction_is_cut_towards_zero() {
    assert_eq!(to_i64(&DecimalParts { mantissa: 12345, scale: 2 }), Some(123));
    assert_eq!(to_i64(&DecimalParts { mantissa: -199, scale: 2 }), Some(-1));
    assert_eq!(to_i64(&DecimalParts { mantissa: -5, scale: 1 }), Some(0));
}

#[test]
fn i64_bounds() {
    assert_eq!(
        to_i64(&DecimalParts { mantissa: i64::MAX as i128, scale: 0 }),
        Some(i64::MAX)
    );
    assert_eq!(
        to_i64(&DecimalParts { mantissa: i64::MIN as i128, scale: 0 }),
        Some(i64::MIN)
    );
    assert_eq!(to_i64(&DecimalParts { mantissa: i64::MAX as i128 + 1, scale: 0 }), None);
    assert_eq!(to_i64(&DecimalParts { mantissa: i64::MIN as i128 - 1, scale: 0 }), None);
    assert_eq!(
        to_i64(&DecimalParts { mantissa: (i64::MAX as i128 + 1) * 10, scale: 1 }),
        None
    );
}

#[test]
fn all_rows_or_none() {
    let rows = vec![
        DecimalParts { mantissa: 100, scale: 0 },
        DecimalParts { mantissa: 0, scale: 0 },
        DecimalParts { mantissa: 2505, scale: 1 },
    ];
    assert_eq!(all_to_i64(&rows), Some(vec![100, 0, 250]));
    let rows = vec![
        DecimalParts { mantissa: 1, scale: 0 },
        DecimalParts { mantissa: 1i128 << 80, scale: 0 },
    ];
    assert_eq!(all_to_i64(&rows), None);
    assert_eq!(all_to_i64(&Vec::new()), Some(Vec::new()));
}
