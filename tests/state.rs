use grhd_core::{
    check_conversion, check_quantity, first_violation, Conserved, DomainError, Field, Metric,
    Primitive, Quantity, ShapeError,
};

fn flags(n: usize, bad: &[(usize, usize)]) -> Field<bool> {
    let rows = (0..n)
        .map(|r| (0..n).map(|c| !bad.contains(&(r, c))).collect())
        .collect();
    Field::from_rows(rows).unwrap()
}

#[test]
fn first_violation_in_row_major_order() {
    assert_eq!(first_violation(&flags(4, &[])), None);
    assert_eq!(first_violation(&flags(4, &[(2, 1), (1, 3), (3, 0)])), Some((1, 3)));
    assert_eq!(first_violation(&flags(4, &[(0, 0)])), Some((0, 0)));
    assert_eq!(first_violation(&flags(4, &[(3, 3)])), Some((3, 3)));
}

#[test]
fn check_quantity_names_quantity_and_cell() {
    assert_eq!(check_quantity(&flags(3, &[]), Quantity::SoundSpeed), Ok(()));
    assert_eq!(
        check_quantity(&flags(3, &[(2, 2), (1, 0)]), Quantity::SoundSpeed),
        Err(DomainError { quantity: Quantity::SoundSpeed, row: 1, col: 0 })
    );
}

#[test]
fn degenerate_metric_everywhere_is_volume_factor_error() {
    // g_xx = g_yy = g_xy = 1: the determinant is zero in every cell
    let n = 4;
    let g = Field::filled(n, 1.0f64);
    let rows: Vec<Vec<bool>> = g
        .into_rows()
        .iter()
        .map(|row| row.iter().map(|&x| x * x - x * x > 0.0).collect())
        .collect();
    let regular = Field::from_rows(rows).unwrap();
    assert_eq!(
        check_quantity(&regular, Quantity::VolumeFactor),
        Err(DomainError { quantity: Quantity::VolumeFactor, row: 0, col: 0 })
    );
}

#[test]
fn superluminal_velocity_is_rejected() {
    // vx = vy = 0.9 under the Euclidean metric: v^2 = 1.62
    let n = 3;
    let (gxx, gxy, gyy, vx, vy) = (1.0f64, 0.0f64, 1.0f64, 0.9f64, 0.9f64);
    let v2 = gxx * vx * vx + 2.0 * gxy * vx * vy + gyy * vy * vy;
    let subluminal = Field::filled(n, v2 < 1.0);
    let r = check_conversion(&subluminal, &flags(n, &[]), &flags(n, &[]));
    assert_eq!(r, Err(DomainError { quantity: Quantity::LorentzFactor, row: 0, col: 0 }));
}

#[test]
fn conversion_checks_in_order() {
    let n = 3;
    assert_eq!(check_conversion(&flags(n, &[]), &flags(n, &[]), &flags(n, &[])), Ok(()));
    assert_eq!(
        check_conversion(&flags(n, &[(2, 0)]), &flags(n, &[(0, 1)]), &flags(n, &[(0, 0)])),
        Err(DomainError { quantity: Quantity::LorentzFactor, row: 2, col: 0 })
    );
    assert_eq!(
        check_conversion(&flags(n, &[]), &flags(n, &[(1, 1)]), &flags(n, &[(0, 0)])),
        Err(DomainError { quantity: Quantity::MassDensity, row: 1, col: 1 })
    );
    assert_eq!(
        check_conversion(&flags(n, &[]), &flags(n, &[]), &flags(n, &[(0, 2)])),
        Err(DomainError { quantity: Quantity::VolumeFactor, row: 0, col: 2 })
    );
}

#[test]
fn primitive_groups_fields_of_one_size() {
    let p = Primitive::new(Field::filled(3, 1.5f64), Field::filled(3, 0.1), Field::filled(3, 0.2)).unwrap();
    assert_eq!(p.size(), 3);
    assert_eq!(p.enthalpy().get(2, 2), 1.5);
    assert_eq!(p.vx().get(0, 1), 0.1);
    assert_eq!(p.vy().get(1, 0), 0.2);
}

#[test]
fn primitive_rejects_mismatched_velocity() {
    let r = Primitive::new(Field::filled(3, 1.5f64), Field::filled(2, 0.1), Field::filled(3, 0.2));
    match r {
        Err(e) => assert_eq!(e, ShapeError::SizeMismatch { expected: 3, found: 2 }),
        Ok(_) => panic!("mismatched sizes accepted"),
    }
    let r = Primitive::new(Field::filled(3, 1.5f64), Field::filled(3, 0.1), Field::filled(4, 0.2));
    match r {
        Err(e) => assert_eq!(e, ShapeError::SizeMismatch { expected: 3, found: 4 }),
        Ok(_) => panic!("mismatched sizes accepted"),
    }
}

#[test]
fn metric_rejects_mismatched_component() {
    match Metric::new(Field::filled(4, 1.0f64), Field::filled(3, 0.0), Field::filled(4, 1.0)) {
        Err(e) => assert_eq!(e, ShapeError::SizeMismatch { expected: 4, found: 3 }),
        Ok(_) => panic!("mismatched sizes accepted"),
    }
}

#[test]
fn primitive_checks_metric_grid() {
    let p = Primitive::new(Field::filled(3, 1.5f64), Field::filled(3, 0.0), Field::filled(3, 0.0)).unwrap();
    let same = Metric::new(Field::filled(3, 1.0f64), Field::filled(3, 0.0), Field::filled(3, 1.0)).unwrap();
    let other = Metric::new(Field::filled(5, 1.0f64), Field::filled(5, 0.0), Field::filled(5, 1.0)).unwrap();
    assert_eq!(p.check_metric(&same), Ok(()));
    assert_eq!(p.check_metric(&other), Err(ShapeError::SizeMismatch { expected: 3, found: 5 }));
}

#[test]
fn conserved_groups_fields_of_one_size() {
    let s = Conserved::new(Field::filled(2, 4.0f64), Field::filled(2, 0.5), Field::filled(2, -0.5)).unwrap();
    assert_eq!(s.density().get(1, 1), 4.0);
    assert_eq!(s.sx().get(0, 0), 0.5);
    assert_eq!(s.sy().get(1, 0), -0.5);
    match Conserved::new(Field::filled(2, 4.0f64), Field::filled(2, 0.5), Field::filled(1, 0.0)) {
        Err(e) => assert_eq!(e, ShapeError::SizeMismatch { expected: 2, found: 1 }),
        Ok(_) => panic!("mismatched sizes accepted"),
    }
}
