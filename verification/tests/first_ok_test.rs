use std::cell::Cell;

use etcd::first_ok::first_ok;

#[test]
fn test_first_ok_ok() {
    let endpoints: Vec<u32> = vec![0, 1, 2];
    let actual = first_ok(&endpoints, |ep: &u32| -> Result<u32, u32> {
        match *ep {
            0 => Err(0),
            1 => Ok(1),
            _ => Ok(2),
        }
    });
    assert_eq!(actual, Ok(1));
}

#[test]
fn test_first_ok_err() {
    let endpoints: Vec<u32> = vec![0, 1];
    let actual = first_ok(&endpoints, |ep: &u32| -> Result<usize, usize> {
        match *ep {
            0 => Err(1),
            _ => Err(2),
        }
    });
    assert_eq!(actual, Err(vec![1, 2]));
}

#[test]
fn test_first_ok_short_circuit() {
    let count = Cell::new(0usize);
    let endpoints: Vec<u32> = vec![0, 1, 2, 3];
    let bump_count = |_ep: &u32| -> Result<usize, usize> {
        let value = count.get() + 1;
        count.set(value);
        if value == 1 {
            Ok(value)
        } else {
            Err(value)
        }
    };
    let actual = first_ok(&endpoints, bump_count);
    assert_eq!(actual, Ok(1));
    assert_eq!(count.get(), 1);
}

#[test]
fn test_first_ok_empty_endpoints() {
    let count = Cell::new(0usize);
    let endpoints: Vec<u32> = Vec::new();
    let actual = first_ok(&endpoints, |_ep: &u32| -> Result<usize, usize> {
        count.set(count.get() + 1);
        Ok(1)
    });
    assert_eq!(actual, Err(Vec::new()));
    assert_eq!(count.get(), 0);
}
