use meteoraid::areas::{get_limiting_magnitude, get_limiting_magnitude_avg, Area, AreaTable};

/// Magnitudes are carried in hundredths; the table data is quoted with
/// two decimals.
fn as_mag(r: Option<i32>) -> Option<f64> {
    r.map(|v| v as f64 / 100.0)
}

#[test]
pub fn areas_test_limiting_magnitude_1() {
    let table = AreaTable::standard();
    assert_eq!(as_mag(get_limiting_magnitude(11, Area(14), &table)), Some(5.64));
}

#[test]
pub fn areas_test_limiting_magnitude_2() {
    let table = AreaTable::standard();
    assert_eq!(as_mag(get_limiting_magnitude(10, Area(7), &table)), Some(5.36));
}

#[test]
pub fn test_limiting_magnitude_3() {
    let table = AreaTable::standard();
    assert_eq!(as_mag(get_limiting_magnitude(123, Area(11), &table)), None);
}

#[test]
pub fn test_limiting_magnitude_4() {
    let table = AreaTable::standard();
    assert_eq!(as_mag(get_limiting_magnitude(2, Area(35), &table)), None);
}

#[test]
pub fn test_limiting_magnitude_average_1() {
    let table = AreaTable::standard();
    assert_eq!(
        as_mag(get_limiting_magnitude_avg(&vec![(11, Area(14))], &table)),
        Some(5.64)
    );
}

#[test]
pub fn test_limiting_magnitude_average_2() {
    let table = AreaTable::standard();
    assert_eq!(
        as_mag(get_limiting_magnitude_avg(
            &vec![(11, Area(14)), (10, Area(7)), (8, Area(2))],
            &table
        )),
        Some(5.53)
    );
}

#[test]
pub fn test_limiting_magnitude_average_3() {
    let table = AreaTable::standard();
    assert_eq!(
        as_mag(get_limiting_magnitude_avg(
            &vec![(11, Area(14)), (10, Area(7)), (15, Area(2))],
            &table
        )),
        Some(5.50)
    );
}

#[test]
pub fn test_limiting_magnitude_average_4() {
    let table = AreaTable::standard();
    assert_eq!(
        as_mag(get_limiting_magnitude_avg(
            &vec![(1, Area(14)), (10, Area(7)), (15, Area(2))],
            &table
        )),
        Some(4.67)
    );
}

#[test]
pub fn test_limiting_magnitude_average_5() {
    let table = AreaTable::standard();
    assert_eq!(
        as_mag(get_limiting_magnitude_avg(
            &vec![(1, Area(14)), (10, Area(7)), (15, Area(2)), (3, Area(35))],
            &table
        )),
        None
    );
}

#[test]
pub fn test_limiting_magnitude_average_6() {
    let table = AreaTable::standard();
    assert_eq!(
        as_mag(get_limiting_magnitude_avg(
            &vec![(11, Area(14)), (10, Area(7)), (15, Area(2)), (100, Area(3))],
            &table
        )),
        None
    );
}

#[test]
pub fn test_limiting_magnitude_average_7() {
    let table = AreaTable::standard();
    assert_eq!(
        as_mag(get_limiting_magnitude_avg(
            &vec![(110, Area(14)), (10, Area(70)), (153, Area(2))],
            &table
        )),
        None
    );
}

#[test]
pub fn test_limiting_magnitude_average_8() {
    let table = AreaTable::standard();
    assert_eq!(
        as_mag(get_limiting_magnitude_avg(
            &vec![(12, Area(14)), (12, Area(7)), (10, Area(6))],
            &table
        )),
        Some(5.91)
    );
}
