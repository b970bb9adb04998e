use gs_schemas::coordinates::{
    AbsBlockPos, AbsChunkPos, InChunkIndexError, InChunkPos, InChunkRange, InChunkVecError,
    RelBlockPos, RelChunkPos, Vec3i, CHUNK_DIM3Z,
};

#[test]
fn index_round_trip_for_every_position() {
    for x in 0..32 {
        for y in 0..32 {
            for z in 0..32 {
                let p = InChunkPos::try_from(Vec3i::new(x, y, z)).unwrap();
                assert_eq!(InChunkPos::try_from_index(p.as_index()), Ok(p));
            }
        }
    }
}

#[test]
fn index_uses_xzy_stride() {
    let p = InChunkPos::try_from(Vec3i::new(1, 2, 3)).unwrap();
    assert_eq!(p.as_index(), 1 + 32 * 3 + 1024 * 2);
    let q = InChunkPos::try_from_index(2145).unwrap();
    assert_eq!(q.vec(), Vec3i::new(1, 2, 3));
    let last = InChunkPos::try_from_index(CHUNK_DIM3Z - 1).unwrap();
    assert_eq!(last.vec(), Vec3i::new(31, 31, 31));
}

#[test]
fn index_out_of_chunk_fails() {
    assert_eq!(
        InChunkPos::try_from_index(CHUNK_DIM3Z),
        Err(InChunkIndexError(CHUNK_DIM3Z))
    );
    assert!(InChunkPos::try_from_index(usize::MAX).is_err());
}

#[test]
fn vector_outside_chunk_fails() {
    let bad = [
        Vec3i::new(-1, 0, 0),
        Vec3i::new(0, -1, 0),
        Vec3i::new(0, 0, -1),
        Vec3i::new(32, 0, 0),
        Vec3i::new(0, 32, 0),
        Vec3i::new(0, 0, 32),
        Vec3i::new(i32::MIN, 5, 5),
        Vec3i::new(5, 5, i32::MAX),
    ];
    for v in bad {
        assert_eq!(InChunkPos::try_from(v), Err(InChunkVecError(v)));
    }
    assert!(InChunkPos::try_from(Vec3i::new(0, 0, 0)).is_ok());
    assert!(InChunkPos::try_from(Vec3i::new(31, 31, 31)).is_ok());
}

#[test]
fn range_from_corners_normalizes() {
    let a = InChunkPos::try_from(Vec3i::new(5, 1, 9)).unwrap();
    let b = InChunkPos::try_from(Vec3i::new(2, 7, 9)).unwrap();
    let r = InChunkRange::from_corners(a, b);
    assert_eq!(r.min().vec(), Vec3i::new(2, 1, 9));
    assert_eq!(r.max().vec(), Vec3i::new(5, 7, 9));
    assert!(!r.is_empty());
}

#[test]
fn range_iterates_y_then_z_then_x() {
    let a = InChunkPos::try_from(Vec3i::new(1, 4, 2)).unwrap();
    let b = InChunkPos::try_from(Vec3i::new(2, 5, 3)).unwrap();
    let cells: Vec<Vec3i> = InChunkRange::from_corners(b, a)
        .iter_xzy()
        .into_iter()
        .map(|p| p.vec())
        .collect();
    assert_eq!(
        cells,
        vec![
            Vec3i::new(1, 4, 2),
            Vec3i::new(2, 4, 2),
            Vec3i::new(1, 4, 3),
            Vec3i::new(2, 4, 3),
            Vec3i::new(1, 5, 2),
            Vec3i::new(2, 5, 2),
            Vec3i::new(1, 5, 3),
            Vec3i::new(2, 5, 3),
        ]
    );
    let indices: Vec<usize> = InChunkRange::from_corners(a, b)
        .iter_xzy()
        .into_iter()
        .map(|p| p.as_index())
        .collect();
    let mut sorted = indices.clone();
    sorted.sort();
    assert_eq!(indices, sorted);
}

#[test]
fn single_block_range() {
    let a = InChunkPos::try_from(Vec3i::new(3, 3, 3)).unwrap();
    let r = InChunkRange::from_corners(a, a);
    assert!(!r.is_empty());
    assert_eq!(r.iter_xzy(), vec![a]);
}

#[test]
fn whole_chunk_range_visits_every_index_in_order() {
    let a = InChunkPos::try_from(Vec3i::new(0, 0, 0)).unwrap();
    let b = InChunkPos::try_from(Vec3i::new(31, 31, 31)).unwrap();
    let all = InChunkRange::from_corners(a, b).iter_xzy();
    assert_eq!(all.len(), CHUNK_DIM3Z);
    for (i, p) in all.iter().enumerate() {
        assert_eq!(p.as_index(), i);
    }
}

#[test]
fn add_gives_relative_position() {
    let a = InChunkPos::try_from(Vec3i::new(31, 0, 7)).unwrap();
    let b = InChunkPos::try_from(Vec3i::new(31, 2, 1)).unwrap();
    let s: RelBlockPos = a.add(b);
    assert_eq!(Vec3i::from(s), Vec3i::new(62, 2, 8));
}

#[test]
fn newtype_conversions_keep_the_vector() {
    let v = Vec3i::new(-4, 9, 100000);
    assert_eq!(Vec3i::from(AbsChunkPos::from(v)), v);
    assert_eq!(Vec3i::from(RelChunkPos::from(v)), v);
    assert_eq!(Vec3i::from(AbsBlockPos::from(v)), v);
    assert_eq!(Vec3i::from(RelBlockPos::from(v)), v);
    let p = InChunkPos::try_from(Vec3i::new(1, 2, 3)).unwrap();
    assert_eq!(Vec3i::from(p), Vec3i::new(1, 2, 3));
}
