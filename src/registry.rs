use vstd::prelude::*;
use crate::hex::{Cube, GridVec};

verus! {

/// The error returned when a cell is already held by another tile.
#[derive(Clone, Copy, PartialEq, Eq, Structural, Debug)]
pub struct TileOccupied {
    /// The tile that holds the cell.
    pub existing: u64,
}

/// The cells of a list of entries, in order.
pub open spec fn entry_cells(entries: Seq<(GridVec, u64)>) -> Seq<Cube> {
    entries.map_values(|e: (GridVec, u64)| e.0@)
}

/// True when `entries` lists each cell of `tiles` once, with its tile, and nothing else.
pub open spec fn lists_exactly(entries: Seq<(GridVec, u64)>, tiles: Map<Cube, u64>) -> bool {
    &&& entry_cells(entries).no_duplicates()
    &&& entry_cells(entries).to_set() == tiles.dom()
    &&& forall|i: int| 0 <= i < entries.len() ==> tiles[#[trigger] entries[i].0@] == entries[i].1
}

/// The lookup from grid cell to the tile that occupies it.
///
/// A tile is named by the bits of its entity handle. Each cell holds at
/// most one tile; the registry is the authoritative answer to "what is at
/// this cell".
pub struct TileRegistry {
    entries: Vec<(GridVec, u64)>,
    tiles: Ghost<Map<Cube, u64>>,
}

impl View for TileRegistry {
    type V = Map<Cube, u64>;

    closed spec fn view(&self) -> Map<Cube, u64> {
        self.tiles@
    }
}

impl TileRegistry {
    #[verifier::type_invariant]
    spec fn consistent(self) -> bool {
        lists_exactly(self.entries@, self.tiles@)
    }

    /// An empty registry.
    pub fn new() -> (r: TileRegistry)
        ensures
            r@ == Map::<Cube, u64>::empty(),
    {
        let entries: Vec<(GridVec, u64)> = Vec::new();
        proof {
            assert(entry_cells(entries@).to_set() =~= Set::empty());
        }
        TileRegistry { entries, tiles: Ghost(Map::empty()) }
    }

    /// The index of the entry for `coord`, if there is one.
    fn position(&self, coord: GridVec) -> (r: Option<usize>)
        requires
            lists_exactly(self.entries@, self.tiles@),
        ensures
            r is None <==> !self@.contains_key(coord@),
            r matches Some(i) ==> i < self.entries@.len() && self.entries@[i as int].0@ == coord@,
    {
        let ghost cells = entry_cells(self.entries@);
        let mut i: usize = 0;
        while i < self.entries.len()
            invariant
                i <= self.entries@.len(),
                cells == entry_cells(self.entries@),
                lists_exactly(self.entries@, self.tiles@),
                forall|j: int| 0 <= j < i ==> cells[j] != coord@,
            decreases self.entries@.len() - i,
        {
            proof {
                GridVec::lemma_view_injective(self.entries@[i as int].0, coord);
                assert(cells[i as int] == self.entries@[i as int].0@);
            }
            if self.entries[i].0 == coord {
                proof {
                    assert(cells.contains(coord@));
                    assert(cells.to_set().contains(coord@));
                }
                return Some(i);
            }
            i = i + 1;
        }
        proof {
            assert(!cells.contains(coord@));
        }
        None
    }

    /// Moves the entries out, leaving the registry empty.
    fn take_entries(&mut self) -> (r: Vec<(GridVec, u64)>)
        ensures
            r@ == old(self).entries@,
            lists_exactly(r@, old(self)@),
            final(self)@ == Map::<Cube, u64>::empty(),
    {
        proof {
            use_type_invariant(&*self);
        }
        let mut taken = TileRegistry::new();
        std::mem::swap(self, &mut taken);
        let TileRegistry { entries, tiles: _ } = taken;
        entries
    }

    /// The number of registered tiles.
    pub fn len(&self) -> (r: usize)
        ensures
            r == self@.len(),
    {
        proof {
            use_type_invariant(self);
            entry_cells(self.entries@).unique_seq_to_set();
        }
        self.entries.len()
    }

    /// True when no tile is registered.
    pub fn is_empty(&self) -> (r: bool)
        ensures
            r == (self@.len() == 0),
    {
        self.len() == 0
    }

    /// The tile at `coord`, if any.
    pub fn get(&self, coord: GridVec) -> (r: Option<u64>)
        ensures
            r == (if self@.contains_key(coord@) { Some(self@[coord@]) } else { None }),
    {
        proof {
            use_type_invariant(self);
        }
        match self.position(coord) {
            Some(i) => Some(self.entries[i].1),
            None => None,
        }
    }

    /// True when a tile occupies `coord`.
    pub fn contains(&self, coord: GridVec) -> (r: bool)
        ensures
            r == self@.contains_key(coord@),
    {
        proof {
            use_type_invariant(self);
        }
        self.position(coord).is_some()
    }

    /// Records that `entity` occupies `coord`.
    ///
    /// Registering the same tile at the same cell again changes nothing.
    /// A cell held by another tile is left as it is, and the error names
    /// that tile.
    pub fn register(&mut self, coord: GridVec, entity: u64) -> (r: Result<(), TileOccupied>)
        ensures
            !old(self)@.contains_key(coord@) ==> r is Ok && final(self)@ == old(self)@.insert(coord@, entity),
            old(self)@.contains_key(coord@) && old(self)@[coord@] == entity ==> r is Ok && final(self)@ == old(self)@,
            old(self)@.contains_key(coord@) && old(self)@[coord@] != entity ==> r == Err::<(), TileOccupied>(
                TileOccupied { existing: old(self)@[coord@] },
            ) && final(self)@ == old(self)@,
    {
        proof {
            use_type_invariant(&*self);
        }
        match self.position(coord) {
            Some(i) => {
                let existing = self.entries[i].1;
                if existing == entity {
                    Ok(())
                } else {
                    Err(TileOccupied { existing })
                }
            },
            None => {
                let ghost old_entries = self.entries@;
                let ghost new_tiles = self.tiles@.insert(coord@, entity);
                let mut entries = self.take_entries();
                entries.push((coord, entity));
                proof {
                    let cells = entry_cells(old_entries);
                    assert(entry_cells(entries@) =~= cells.push(coord@));
                    cells.lemma_push_to_set_commute(coord@);
                    assert(!cells.contains(coord@));
                    assert forall|i: int, j: int|
                        0 <= i < j < entry_cells(entries@).len() implies entry_cells(entries@)[i]
                        != entry_cells(entries@)[j] by {
                        if j == cells.len() {
                            assert(cells[i] == entry_cells(entries@)[i]);
                        }
                    }
                    assert forall|i: int| 0 <= i < entries@.len() implies new_tiles[#[trigger] entries@[i].0@]
                        == entries@[i].1 by {
                        if i < old_entries.len() {
                            assert(cells[i] == old_entries[i].0@);
                        }
                    }
                    assert(entry_cells(entries@).to_set() =~= new_tiles.dom());
                }
                *self = TileRegistry { entries, tiles: Ghost(new_tiles) };
                Ok(())
            },
        }
    }

    /// Removes the tile at `coord`, which must be registered, and returns it.
    pub fn remove(&mut self, coord: GridVec) -> (r: u64)
        requires
            old(self)@.contains_key(coord@),
        ensures
            r == old(self)@[coord@],
            final(self)@ == old(self)@.remove(coord@),
    {
        proof {
            use_type_invariant(&*self);
        }
        let i = match self.position(coord) {
            Some(i) => i,
            None => 0,
        };
        let ghost old_entries = self.entries@;
        let ghost new_tiles = self.tiles@.remove(coord@);
        let mut entries = self.take_entries();
        let removed = entries.remove(i);
        proof {
            let cells = entry_cells(old_entries);
            let new_cells = entry_cells(entries@);
            assert(new_cells =~= cells.remove(i as int));
            assert forall|a: int, b: int| 0 <= a < b < new_cells.len() implies new_cells[a] != new_cells[b] by {
                let a0 = if a < i { a } else { a + 1 };
                let b0 = if b < i { b } else { b + 1 };
                assert(new_cells[a] == cells[a0]);
                assert(new_cells[b] == cells[b0]);
            }
            assert forall|c: Cube| new_cells.contains(c) <==> new_tiles.dom().contains(c) by {
                assert(cells[i as int] == coord@);
                if new_cells.contains(c) {
                    let k = choose|k: int| 0 <= k < new_cells.len() && new_cells[k] == c;
                    let k0 = if k < i { k } else { k + 1 };
                    assert(new_cells[k] == cells[k0]);
                    assert(cells[k0] == c);
                    assert(cells.contains(c));
                    assert(cells.to_set().contains(c));
                    assert(k0 != i);
                    assert(c != coord@);
                }
                if new_tiles.dom().contains(c) {
                    assert(cells.to_set().contains(c));
                    assert(cells.contains(c));
                    let k = choose|k: int| 0 <= k < cells.len() && cells[k] == c;
                    assert(k != i);
                    let k1 = if k < i { k } else { k - 1 };
                    assert(new_cells[k1] == cells[k]);
                    assert(new_cells.contains(c));
                }
            }
            assert(new_cells.to_set() =~= new_tiles.dom());
            assert forall|k: int| 0 <= k < entries@.len() implies new_tiles[#[trigger] entries@[k].0@]
                == entries@[k].1 by {
                let k0 = if k < i { k } else { k + 1 };
                assert(entries@[k] == old_entries[k0]);
                assert(cells[k0] != cells[i as int]);
            }
        }
        *self = TileRegistry { entries, tiles: Ghost(new_tiles) };
        removed.1
    }

    /// Empties the registry and returns every entry it held, each cell
    /// once, so that the caller can destroy each tile.
    pub fn clear(&mut self) -> (r: Vec<(GridVec, u64)>)
        ensures
            final(self)@ == Map::<Cube, u64>::empty(),
            lists_exactly(r@, old(self)@),
            r@.len() == old(self)@.len(),
    {
        proof {
            use_type_invariant(&*self);
            entry_cells(self.entries@).unique_seq_to_set();
        }
        self.take_entries()
    }
}

} // verus!
