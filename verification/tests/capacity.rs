use arborist::capacity::{canopy_size, merkle_tree_get_size, tree_size, CapacityError, CapacityTable};

#[test]
fn depth_14_buffer_64_without_canopy() {
    assert_eq!(tree_size(14, 64, 0).unwrap(), 31800);
}

#[test]
fn one_canopy_level_adds_two_nodes() {
    let flat = tree_size(14, 64, 0).unwrap();
    let one = tree_size(14, 64, 1).unwrap();
    assert_eq!(one, flat + 2 * 32);
    assert_eq!(canopy_size(1), 64);
}

#[test]
fn canopy_size_values() {
    assert_eq!(canopy_size(0), 0);
    assert_eq!(canopy_size(2), 6 * 32);
    assert_eq!(canopy_size(10), 2046 * 32);
    assert_eq!(canopy_size(58), u64::MAX - 63);
}

#[test]
fn structure_sizes_match_the_tree_types() {
    assert_eq!(merkle_tree_get_size(3, 8).unwrap(), 24 + 9 * (40 + 32 * 3));
    assert_eq!(merkle_tree_get_size(14, 64).unwrap(), 31744);
    assert_eq!(merkle_tree_get_size(30, 2048).unwrap(), 24 + 2049 * (40 + 32 * 30));
    assert_eq!(
        merkle_tree_get_size(24, 512).unwrap(),
        std::mem::size_of::<spl_account_compression::ConcurrentMerkleTree<24, 512>>()
    );
}

#[test]
fn unknown_depth_reports_neighbours() {
    match merkle_tree_get_size(10, 64) {
        Err(CapacityError::InvalidDepth { depth, closest }) => {
            assert_eq!(depth, 10);
            assert_eq!(closest, vec![5, 14]);
        }
        other => panic!("unexpected {:?}", other),
    }
    match merkle_tree_get_size(2, 8) {
        Err(CapacityError::InvalidDepth { closest, .. }) => assert_eq!(closest, vec![3]),
        other => panic!("unexpected {:?}", other),
    }
    match merkle_tree_get_size(31, 8) {
        Err(CapacityError::InvalidDepth { closest, .. }) => assert_eq!(closest, vec![30]),
        other => panic!("unexpected {:?}", other),
    }
    match merkle_tree_get_size(22, 8) {
        Err(CapacityError::InvalidDepth { closest, .. }) => assert_eq!(closest, vec![20, 24]),
        other => panic!("unexpected {:?}", other),
    }
}

#[test]
fn unknown_buffer_size_reports_valid_sizes() {
    match merkle_tree_get_size(24, 8) {
        Err(CapacityError::InvalidBufferSize { buffer_size, valid }) => {
            assert_eq!(buffer_size, 8);
            assert_eq!(valid, vec![64, 256, 512, 1024, 2048]);
        }
        other => panic!("unexpected {:?}", other),
    }
    match tree_size(3, 64, 0) {
        Err(CapacityError::InvalidBufferSize { valid, .. }) => assert_eq!(valid, vec![8]),
        other => panic!("unexpected {:?}", other),
    }
}

#[test]
fn oversized_canopy_is_reported() {
    assert!(matches!(tree_size(14, 64, 58), Err(CapacityError::SizeOverflow)));
    assert!(matches!(tree_size(14, 64, 255), Err(CapacityError::SizeOverflow)));
    assert_eq!(tree_size(14, 64, 57).unwrap(), 31800 + ((1u64 << 58) - 2) * 32);
}

#[test]
fn shape_errors_come_before_overflow() {
    assert!(matches!(tree_size(4, 64, 200), Err(CapacityError::InvalidDepth { .. })));
}

#[test]
fn table_lookup_is_repeatable() {
    let table = CapacityTable::new();
    for _ in 0..3 {
        assert_eq!(table.lookup(20, 1024).unwrap(), 24 + 1025 * (40 + 32 * 20));
    }
}

#[test]
fn capacity_error_texts() {
    assert_eq!(
        merkle_tree_get_size(10, 64).unwrap_err().message(),
        "Invalid tree depth 10 - closest valid value(s) are 5 and 14"
    );
    assert_eq!(
        merkle_tree_get_size(1, 64).unwrap_err().message(),
        "Invalid tree depth 1 - closest valid value(s) are 3"
    );
    assert_eq!(
        merkle_tree_get_size(200, 64).unwrap_err().message(),
        "Invalid tree depth 200 - closest valid value(s) are 30"
    );
    assert_eq!(
        merkle_tree_get_size(14, 8).unwrap_err().message(),
        "Invalid buffer size 8 - valid size(s) are 64, 256, 1024, 2048"
    );
    assert_eq!(
        tree_size(5, 65535, 0).unwrap_err().message(),
        "Invalid buffer size 65535 - valid size(s) are 8"
    );
    assert_eq!(
        tree_size(14, 64, 60).unwrap_err().message(),
        "Error converting Merkle tree size to 64-bit"
    );
}

#[test]
fn every_shape_has_its_size() {
    let shapes: [(u8, u16); 26] = [
        (3, 8), (5, 8), (14, 64), (14, 256), (14, 1024), (14, 2048), (15, 64), (16, 64),
        (17, 64), (18, 64), (19, 64), (20, 64), (20, 256), (20, 1024), (20, 2048), (24, 64),
        (24, 256), (24, 512), (24, 1024), (24, 2048), (26, 512), (26, 1024), (26, 2048),
        (30, 512), (30, 1024), (30, 2048),
    ];
    let table = CapacityTable::new();
    for (depth, buffer_size) in shapes {
        let expected = 24 + (buffer_size as usize + 1) * (40 + 32 * depth as usize);
        assert_eq!(table.lookup(depth, buffer_size).unwrap(), expected);
        assert_eq!(tree_size(depth, buffer_size, 0).unwrap(), 56 + expected as u64);
    }
    let mut valid = 0;
    for depth in 0..=255u8 {
        for buffer_size in [8u16, 64, 128, 256, 512, 1024, 2048, 4096] {
            if table.lookup(depth, buffer_size).is_ok() {
                assert!(shapes.contains(&(depth, buffer_size)));
                valid += 1;
            }
        }
    }
    assert_eq!(valid, 26);
}

#[test]
fn canopy_size_grows_with_depth() {
    let mut previous = canopy_size(0);
    for depth in 1..=58u8 {
        let size = canopy_size(depth);
        assert!(size > previous);
        previous = size;
    }
}

#[test]
fn one_table_serves_many_sizes() {
    let table = CapacityTable::new();
    assert_eq!(table.tree_size(14, 64, 0).unwrap(), 31800);
    assert_eq!(table.tree_size(14, 64, 1).unwrap(), 31864);
    assert_eq!(table.tree_size(30, 2048, 10).unwrap(), tree_size(30, 2048, 10).unwrap());
    assert!(matches!(table.tree_size(14, 64, 58), Err(CapacityError::SizeOverflow)));
    assert!(matches!(table.tree_size(13, 64, 0), Err(CapacityError::InvalidDepth { .. })));
    assert!(matches!(table.tree_size(15, 256, 0), Err(CapacityError::InvalidBufferSize { .. })));
}
