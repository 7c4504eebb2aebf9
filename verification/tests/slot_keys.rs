use sway_tools::bytes::{decimal_bytes, u64_to_be_bytes};
use sway_tools::slot_key::{add_to_b256, get_storage_key};
use sway_tools::state::StateIndex;

fn unhex(text: &str) -> [u8; 32] {
    let digits: Vec<u8> = text
        .bytes()
        .map(|c| if c <= b'9' { c - b'0' } else { c - b'a' + 10 })
        .collect();
    let mut out = [0u8; 32];
    for i in 0..32 {
        out[i] = digits[2 * i] * 16 + digits[2 * i + 1];
    }
    out
}

#[test]
fn state_index_keeps_its_number() {
    assert_eq!(StateIndex::new(17).to_usize(), 17);
    assert_eq!(StateIndex::new(17), StateIndex(17));
}

#[test]
fn key_of_a_variable_is_the_digest_of_its_name() {
    assert_eq!(
        get_storage_key(&StateIndex::new(0), &[]),
        unhex("f383b0ce51358be57daa3b725fe44acdb2d880604e367199080b4379c41bb6ed")
    );
    assert_eq!(
        get_storage_key(&StateIndex::new(1), &[]),
        unhex("de9090cb50e71c2588c773487d1da7066d0c719849a7e58dc8b6397a25c567c0")
    );
}

#[test]
fn key_of_a_path_appends_each_index() {
    assert_eq!(
        get_storage_key(&StateIndex::new(0), &[0]),
        unhex("d625ff6d8e88efd7bb3476e748e5d5935618d78bfc7eedf584fe909ce0809fc3")
    );
    assert_eq!(
        get_storage_key(&StateIndex::new(0), &[1]),
        unhex("c4f29cca5a7266ecbc35c82c55dd2b0059a3db4c83a3410653ec33aded8e9840")
    );
    assert_eq!(
        get_storage_key(&StateIndex::new(7), &[1, 2, 3]),
        unhex("5c0fcdf277fea6a611121af0d82726431a57f6d76a322ab86fde3d7e0c93f7af")
    );
    assert_eq!(
        get_storage_key(&StateIndex::new(10), &[11]),
        unhex("b6caf9e2e36a8449edd50edba79b22059a368e4ab9a861e4659368460a9c83f1")
    );
}

#[test]
fn key_of_the_largest_index() {
    if usize::MAX as u128 == u64::MAX as u128 {
        assert_eq!(
            get_storage_key(&StateIndex::new(usize::MAX), &[]),
            unhex("f00c1acc13abc0c02decf03b323b9aaf47593746f09bf59d34c8c3f8e52abf26")
        );
    }
}

#[test]
fn key_is_not_its_input() {
    let key = get_storage_key(&StateIndex::new(0), &[]);
    assert_ne!(&key[..9], b"storage_0");
    assert_ne!(key, [0u8; 32]);
}

#[test]
fn keys_are_deterministic() {
    for ix in 0..20usize {
        for path in [vec![], vec![0], vec![3, 1, 4], vec![ix, ix]] {
            let first = get_storage_key(&StateIndex::new(ix), &path);
            let second = get_storage_key(&StateIndex::new(ix), &path);
            assert_eq!(first, second);
        }
    }
}

#[test]
fn distinct_paths_have_distinct_keys() {
    let ix = StateIndex::new(5);
    let mut paths: Vec<Vec<usize>> = vec![vec![]];
    for a in 0..12usize {
        paths.push(vec![a]);
        for b in 0..12usize {
            paths.push(vec![a, b]);
            paths.push(vec![a, b, a + b]);
        }
    }
    paths.push(vec![1, 23]);
    paths.push(vec![12, 3]);
    paths.push(vec![123]);
    let keys: Vec<[u8; 32]> = paths.iter().map(|p| get_storage_key(&ix, p)).collect();
    for i in 0..keys.len() {
        for j in (i + 1)..keys.len() {
            assert_ne!(keys[i], keys[j], "{:?} and {:?}", paths[i], paths[j]);
        }
    }
}

#[test]
fn distinct_variables_have_distinct_keys() {
    let keys: Vec<[u8; 32]> = (0..50usize).map(|ix| get_storage_key(&StateIndex::new(ix), &[0])).collect();
    for i in 0..keys.len() {
        for j in (i + 1)..keys.len() {
            assert_ne!(keys[i], keys[j]);
        }
    }
    assert_ne!(
        get_storage_key(&StateIndex::new(1), &[2]),
        get_storage_key(&StateIndex::new(12), &[])
    );
}

#[test]
fn add_zero_is_identity() {
    let key = get_storage_key(&StateIndex::new(0), &[]);
    assert_eq!(add_to_b256(key, 0), key);
    assert_eq!(add_to_b256([0u8; 32], 0), [0u8; 32]);
    assert_eq!(add_to_b256([0xffu8; 32], 0), [0xffu8; 32]);
}

#[test]
fn add_small_offset() {
    let mut expected = [0u8; 32];
    expected[31] = 5;
    assert_eq!(add_to_b256([0u8; 32], 5), expected);
    let mut key = [0u8; 32];
    key[31] = 0xfe;
    let mut expected = [0u8; 32];
    expected[30] = 1;
    expected[31] = 1;
    assert_eq!(add_to_b256(key, 3), expected);
}

#[test]
fn add_writes_the_offset_big_endian() {
    let sum = add_to_b256([0u8; 32], 0x0102030405060708);
    let mut expected = [0u8; 32];
    expected[24..].copy_from_slice(&[1, 2, 3, 4, 5, 6, 7, 8]);
    assert_eq!(sum, expected);
}

#[test]
fn add_carries_past_the_low_eight_bytes() {
    let mut key = [0u8; 32];
    for b in key[24..].iter_mut() {
        *b = 0xff;
    }
    let mut expected = [0u8; 32];
    expected[23] = 1;
    assert_eq!(add_to_b256(key, 1), expected);

    let mut expected = [0u8; 32];
    expected[23] = 1;
    for b in expected[24..].iter_mut() {
        *b = 0xff;
    }
    expected[31] = 0xfe;
    assert_eq!(add_to_b256(key, u64::MAX), expected);
}

#[test]
fn add_wraps_around() {
    assert_eq!(add_to_b256([0xffu8; 32], 1), [0u8; 32]);
    let mut expected = [0u8; 32];
    expected[31] = 9;
    assert_eq!(add_to_b256([0xffu8; 32], 10), expected);
}

#[test]
fn add_twice_is_add_of_the_sum() {
    let keys = [
        [0u8; 32],
        [0xffu8; 32],
        get_storage_key(&StateIndex::new(3), &[1]),
        get_storage_key(&StateIndex::new(4), &[]),
    ];
    let offsets = [0u64, 1, 2, 255, 256, 65535, 1 << 32, (1 << 63) - 1, 1 << 63];
    for key in keys {
        for a in offsets {
            for b in offsets {
                if let Some(sum) = a.checked_add(b) {
                    assert_eq!(add_to_b256(add_to_b256(key, a), b), add_to_b256(key, sum));
                }
            }
        }
    }
}

#[test]
fn decimal_numerals() {
    assert_eq!(decimal_bytes(0), b"0".to_vec());
    assert_eq!(decimal_bytes(7), b"7".to_vec());
    assert_eq!(decimal_bytes(10), b"10".to_vec());
    assert_eq!(decimal_bytes(1234567890), b"1234567890".to_vec());
    assert_eq!(decimal_bytes(usize::MAX), usize::MAX.to_string().into_bytes());
}

#[test]
fn big_endian_words() {
    assert_eq!(u64_to_be_bytes(0), [0u8; 8]);
    assert_eq!(u64_to_be_bytes(1), [0, 0, 0, 0, 0, 0, 0, 1]);
    assert_eq!(u64_to_be_bytes(0x0102030405060708), [1, 2, 3, 4, 5, 6, 7, 8]);
    assert_eq!(u64_to_be_bytes(u64::MAX), [0xffu8; 8]);
    assert_eq!(u64_to_be_bytes(0xdeadbeef), 0xdeadbeefu64.to_be_bytes());
}
