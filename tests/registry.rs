use earth::{GridVec, TileOccupied, TileRegistry};

fn filled(k: i32) -> TileRegistry {
    let mut reg = TileRegistry::new();
    for i in 0..k {
        reg.register(GridVec::from_axial((i, -i / 2)), 100 + i as u64).unwrap();
    }
    reg
}

#[test]
fn register_and_lookup() {
    let mut reg = TileRegistry::new();
    assert!(reg.is_empty());
    let c = GridVec::new(1, -1, 0).unwrap();
    assert_eq!(reg.get(c), None);
    assert_eq!(reg.register(c, 7), Ok(()));
    assert_eq!(reg.get(c), Some(7));
    assert!(reg.contains(c));
    assert_eq!(reg.len(), 1);
    assert!(!reg.contains(GridVec::zero()));
}

#[test]
fn register_same_tile_twice_is_idempotent() {
    let mut reg = TileRegistry::new();
    let c = GridVec::north();
    assert_eq!(reg.register(c, 9), Ok(()));
    assert_eq!(reg.register(c, 9), Ok(()));
    assert_eq!(reg.len(), 1);
    assert_eq!(reg.get(c), Some(9));
}

#[test]
fn register_never_overwrites_another_tile() {
    let mut reg = TileRegistry::new();
    let c = GridVec::south();
    reg.register(c, 1).unwrap();
    assert_eq!(reg.register(c, 2), Err(TileOccupied { existing: 1 }));
    assert_eq!(reg.get(c), Some(1));
    assert_eq!(reg.len(), 1);
}

#[test]
fn remove_then_replace() {
    let mut reg = filled(5);
    let c = GridVec::from_axial((2, -1));
    assert_eq!(reg.remove(c), 102);
    assert_eq!(reg.get(c), None);
    assert_eq!(reg.len(), 4);
    assert_eq!(reg.register(c, 500), Ok(()));
    assert_eq!(reg.get(c), Some(500));
    assert_eq!(reg.get(GridVec::from_axial((4, -2))), Some(104));
}

#[test]
fn clear_destroys_every_tile() {
    for k in [0, 1, 50] {
        let mut reg = filled(k);
        assert_eq!(reg.len(), k as usize);
        let destroyed = reg.clear();
        assert_eq!(destroyed.len(), k as usize);
        assert!(reg.is_empty());
        assert_eq!(reg.len(), 0);
        let mut entities: Vec<u64> = destroyed.iter().map(|e| e.1).collect();
        entities.sort();
        let expected: Vec<u64> = (0..k).map(|i| 100 + i as u64).collect();
        assert_eq!(entities, expected);
        for (cell, entity) in destroyed {
            assert_eq!(GridVec::from_axial((entity as i32 - 100, -(entity as i32 - 100) / 2)), cell);
        }
    }
}
