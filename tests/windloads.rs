use psf::windloads::{WindLoads, WindLoadsError, M1_RBM_DOF};

/// A series of `n` columns of 84 rows; every row of column `j` holds `j`.
fn series(n: usize) -> Vec<Vec<f64>> {
    (0..n).map(|j| vec![j as f64; 84]).collect()
}

fn drain(mut w: WindLoads<f64>) -> Vec<Vec<f64>> {
    let mut out = Vec::new();
    while let Some(c) = w.next() {
        out.push(c);
    }
    out
}

#[test]
fn one_sample_past_the_skip() {
    let out = drain(WindLoads::new(series(5001)).unwrap());
    assert_eq!(out.len(), 1);
    assert_eq!(out[0], vec![5000.0; 84]);
}

#[test]
fn sample_count_follows_the_stride() {
    // floor((N - 5001) / 200) + 1 samples, the k-th at column 5000 + 200 k
    for (n, expected) in [(5200usize, 1usize), (5201, 2), (5401, 3), (6000, 5), (6001, 6)] {
        let out = drain(WindLoads::new(series(n)).unwrap());
        assert_eq!(out.len(), expected, "columns: {}", n);
        for (k, c) in out.iter().enumerate() {
            assert_eq!(c[0], (5000 + 200 * k) as f64);
            assert_eq!(c.len(), 84);
        }
    }
}

#[test]
fn short_series_yields_nothing() {
    for n in [0usize, 1, 4999, 5000] {
        let mut w = WindLoads::new(series(n)).unwrap();
        assert!(w.next().is_none());
        assert!(w.next().is_none());
    }
}

#[test]
fn exhausted_driver_stays_exhausted() {
    let mut w = WindLoads::new(series(5201)).unwrap();
    assert_eq!(w.next().unwrap()[0], 5000.0);
    assert_eq!(w.next().unwrap()[0], 5200.0);
    assert!(w.next().is_none());
    assert!(w.next().is_none());
}

#[test]
fn column_with_too_few_rows_is_refused() {
    let mut columns = series(10);
    columns[3] = vec![0.0; M1_RBM_DOF - 1];
    assert_eq!(WindLoads::new(columns).err(), Some(WindLoadsError::MissingRows));
    assert!(WindLoads::new(vec![vec![1.0f64; M1_RBM_DOF]]).is_ok());
}
