use grhd_core::Field;
use ndarray::{Array, Array1, Array2};
use ndarray_npy::{NpzReader, NpzWriter, ReadNpyExt, WriteNpyExt};
use std::io::Cursor;

fn to_array(f: Field<f64>) -> Array2<f64> {
    let n = f.size();
    let flat: Vec<f64> = f.into_rows().into_iter().flatten().collect();
    Array2::from_shape_vec((n, n), flat).unwrap()
}

fn to_field(a: &Array2<f64>) -> Field<f64> {
    Field::from_rows(a.outer_iter().map(|row| row.to_vec()).collect()).unwrap()
}

#[test]
fn test_ndarray_add() {
    let ones = Array::from_elem((2, 2), 1.);
    let twos = Array::from_elem((2, 2), 2.);
    let added = &twos + &ones;
    assert_eq!(added, Array::from_elem((2, 2), 3.));
}

#[test]
fn test_ndarray_mul() {
    let ones = Array::from_elem((2, 2), 1.);
    let twos = Array::from_elem((2, 2), 2.);
    let multd = &twos * &ones;
    assert_eq!(multd, Array::from_elem((2, 2), 2.));
}

#[test]
fn test_ndarray_npy_read_write() {
    let zeros = Array::from_elem((5, 5), 0.);
    let mut bytes: Vec<u8> = Vec::new();
    zeros.write_npy(&mut bytes).unwrap();
    let recover: Array2<f64> = Array2::read_npy(&bytes[..]).unwrap();
    assert_eq!(zeros, recover);
}

#[test]
fn test_ndarray_npz_read_write() {
    let zeros = Array::from_elem((2, 2), 0.);
    let time = Array::from_elem(1, 0.5);
    let mut npz = NpzWriter::new(Cursor::new(Vec::new()));
    npz.add_array("data", &zeros).unwrap();
    npz.add_array("time", &time).unwrap();
    let bytes = npz.finish().unwrap().into_inner();
    let mut npzread = NpzReader::new(Cursor::new(bytes)).unwrap();
    let timeread: Array1<f64> = npzread.by_name("time").unwrap();
    let dataread: Array2<f64> = npzread.by_name("data").unwrap();
    assert_eq!(zeros, dataread);
    assert_eq!(time, timeread);
}

#[test]
fn field_round_trips_through_npy_bit_for_bit() {
    let rows: Vec<Vec<f64>> = (0..4)
        .map(|r| (0..4).map(|c| (r as f64) * 0.1 - (c as f64) / 3.0).collect())
        .collect();
    let f = Field::from_rows(rows.clone()).unwrap();
    let mut bytes: Vec<u8> = Vec::new();
    to_array(f).write_npy(&mut bytes).unwrap();
    let back = to_field(&Array2::read_npy(&bytes[..]).unwrap());
    let back_rows = back.into_rows();
    for r in 0..4 {
        for c in 0..4 {
            assert_eq!(back_rows[r][c].to_bits(), rows[r][c].to_bits());
        }
    }
}
