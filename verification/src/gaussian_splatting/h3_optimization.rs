//! Multi-resolution spatial index over H3-style cell identifiers: each
//! splat is filed under its cell at a coarse, a medium and a fine
//! resolution.

use vstd::prelude::*;
use std::collections::HashMap;
use crate::text::{views, owned, clone_strings};

verus! {

broadcast use vstd::std_specs::hash::group_hash_axioms;

/// H3 resolution level, from 0 (global) to 15 (about 1 m hexagons).
#[derive(Clone, Copy, Debug, PartialEq, Eq, Hash, PartialOrd, Ord, Structural)]
pub struct H3Resolution(pub u8);

/// Coarse resolution level: 15 km hexagons (for global queries).
pub const COARSE_LEVEL: u8 = 2;
/// Medium resolution level: about 1 km hexagons (for regional queries).
pub const MEDIUM_LEVEL: u8 = 7;
/// Fine resolution level: about 100 m hexagons (for local queries).
pub const FINE_LEVEL: u8 = 10;

/// Cell identifier at a resolution: the resolution in the top byte, the
/// scaled latitude shifted into bits 32 and up, the scaled longitude in the
/// low bits (all combined by bitwise or, high bits shifted out dropped).
pub open spec fn cell_id(lat_bits: u64, lon_bits: u64, resolution: u8) -> u64 {
    ((resolution as u64) << 56u64) | (lat_bits << 32u64) | lon_bits
}

/// For coordinates that fit their fields (latitude below 2^24, longitude below
/// 2^32), the cell identifier keeps each part apart: the top byte is the
/// resolution, bits 32 to 55 are the scaled latitude, the low 32 bits are the
/// scaled longitude.
pub proof fn lemma_cell_id_fields(lat_bits: u64, lon_bits: u64, resolution: u8)
    requires
        lat_bits < 0x100_0000,
        lon_bits < 0x1_0000_0000,
    ensures
        (cell_id(lat_bits, lon_bits, resolution) >> 32u64) & 0xff_ffffu64 == lat_bits,
        cell_id(lat_bits, lon_bits, resolution) & 0xffff_ffffu64 == lon_bits,
        cell_id(lat_bits, lon_bits, resolution) >> 56u64 == resolution as u64,
{
    let r: u64 = resolution as u64;
    assert(r < 256);
    assert((((r << 56u64) | (lat_bits << 32u64) | lon_bits) >> 32u64) & 0xff_ffffu64 == lat_bits)
        by (bit_vector)
        requires
            r < 256,
            lat_bits < 0x100_0000,
            lon_bits < 0x1_0000_0000,
    ;
    assert(((r << 56u64) | (lat_bits << 32u64) | lon_bits) & 0xffff_ffffu64 == lon_bits)
        by (bit_vector)
        requires
            r < 256,
            lat_bits < 0x100_0000,
            lon_bits < 0x1_0000_0000,
    ;
    assert(((r << 56u64) | (lat_bits << 32u64) | lon_bits) >> 56u64 == r) by (bit_vector)
        requires
            r < 256,
            lat_bits < 0x100_0000,
            lon_bits < 0x1_0000_0000,
    ;
}

/// Distinct places give distinct cells: over coordinates that fit their
/// fields, two cell identifiers are equal exactly when the latitudes, the
/// longitudes and the resolutions are.
pub proof fn lemma_cell_id_injective(
    lat1: u64,
    lon1: u64,
    res1: u8,
    lat2: u64,
    lon2: u64,
    res2: u8,
)
    requires
        lat1 < 0x100_0000,
        lon1 < 0x1_0000_0000,
        lat2 < 0x100_0000,
        lon2 < 0x1_0000_0000,
    ensures
        cell_id(lat1, lon1, res1) == cell_id(lat2, lon2, res2) <==> (lat1 == lat2 && lon1 == lon2
            && res1 == res2),
{
    lemma_cell_id_fields(lat1, lon1, res1);
    lemma_cell_id_fields(lat2, lon2, res2);
}

/// Combines scaled coordinates and a resolution into a cell identifier.
pub fn h3_cell_id(lat_bits: u64, lon_bits: u64, resolution: u8) -> (c: u64)
    ensures
        c == cell_id(lat_bits, lon_bits, resolution),
        lat_bits < 0x100_0000 && lon_bits < 0x1_0000_0000 ==> {
            &&& (c >> 32u64) & 0xff_ffffu64 == lat_bits
            &&& c & 0xffff_ffffu64 == lon_bits
            &&& c >> 56u64 == resolution as u64
        },
{
    proof {
        if lat_bits < 0x100_0000 && lon_bits < 0x1_0000_0000 {
            lemma_cell_id_fields(lat_bits, lon_bits, resolution);
        }
    }
    ((resolution as u64) << 56u64) | (lat_bits << 32u64) | lon_bits
}

/// The names filed under `cell` in `index`, oldest first.
pub open spec fn members(index: Map<u64, Vec<String>>, cell: u64) -> Seq<Seq<char>> {
    if index.contains_key(cell) {
        views(index[cell]@)
    } else {
        Seq::empty()
    }
}

/// The cell tables of a spatial index, one per resolution: each maps a cell
/// to the splats filed under it, oldest first. Only the index fills them.
#[derive(Debug)]
pub struct CellTables {
    index_coarse: HashMap<u64, Vec<String>>,
    index_medium: HashMap<u64, Vec<String>>,
    index_fine: HashMap<u64, Vec<String>>,
}

/// Multi-resolution spatial index.
#[derive(Debug)]
pub struct H3SpatialIndex {
    /// Cell tables at the three resolutions
    pub cells: CellTables,
    /// Number of splats indexed
    pub total_indexed: usize,
    /// Number of coarse cells in use
    pub coarse_cells: usize,
    /// Number of medium cells in use
    pub medium_cells: usize,
    /// Number of fine cells in use
    pub fine_cells: usize,
}

impl H3SpatialIndex {
    /// Cells in use at the coarse resolution and their members.
    pub closed spec fn coarse(&self) -> Map<u64, Vec<String>> {
        self.cells.index_coarse@
    }

    /// Cells in use at the medium resolution and their members.
    pub closed spec fn medium(&self) -> Map<u64, Vec<String>> {
        self.cells.index_medium@
    }

    /// Cells in use at the fine resolution and their members.
    pub closed spec fn fine(&self) -> Map<u64, Vec<String>> {
        self.cells.index_fine@
    }

    /// Number of splats indexed (the public counter).
    pub open spec fn total(&self) -> usize {
        self.total_indexed
    }

    /// Cell counters: coarse, medium, fine (the public counters).
    pub open spec fn cell_counts(&self) -> (usize, usize, usize) {
        (self.coarse_cells, self.medium_cells, self.fine_cells)
    }

    /// The index consulted for a resolution: coarse and medium by their
    /// levels, the fine index for any other level.
    pub open spec fn level(&self, r: H3Resolution) -> Map<u64, Vec<String>> {
        if r == H3Resolution(COARSE_LEVEL) {
            self.coarse()
        } else if r == H3Resolution(MEDIUM_LEVEL) {
            self.medium()
        } else {
            self.fine()
        }
    }

    /// The cell counters agree with the cells in use.
    pub closed spec fn wf(&self) -> bool {
        &&& self.coarse().dom().finite()
        &&& self.medium().dom().finite()
        &&& self.fine().dom().finite()
        &&& self.coarse_cells == self.coarse().len()
        &&& self.medium_cells == self.medium().len()
        &&& self.fine_cells == self.fine().len()
    }

    pub fn new() -> (ix: Self)
        ensures
            ix.wf(),
            ix.coarse() == Map::<u64, Vec<String>>::empty(),
            ix.medium() == Map::<u64, Vec<String>>::empty(),
            ix.fine() == Map::<u64, Vec<String>>::empty(),
            ix.total() == 0,
            ix.cell_counts() == (0usize, 0usize, 0usize),
                                        {
        H3SpatialIndex {
            cells: CellTables {
                index_coarse: HashMap::new(),
                index_medium: HashMap::new(),
                index_fine: HashMap::new(),
            },
            total_indexed: 0,
            coarse_cells: 0,
            medium_cells: 0,
            fine_cells: 0,
        }
    }

    /// Files `splat_id` under `cell` in one index; returns the new number of
    /// cells in use.
    fn file_under(index: &mut HashMap<u64, Vec<String>>, cell: u64, splat_id: &str) -> (n: usize)
        requires
            old(index)@.dom().finite(),
        ensures
            final(index)@.dom().finite(),
            final(index)@.dom() == old(index)@.dom().insert(cell),
            members(final(index)@, cell) == members(old(index)@, cell).push(splat_id@),
            forall|c: u64| c != cell && #[trigger] old(index)@.contains_key(c) ==> final(index)@[c] == old(index)@[c],
            n == final(index)@.len(),
    {
        let mut list = match index.remove(&cell) {
            Some(l) => l,
            None => Vec::new(),
        };
        let ghost prev = list@;
        list.push(owned(splat_id));
        assert(views(list@) =~= views(prev).push(splat_id@));
        index.insert(cell, list);
        assert(final(index)@.dom() =~= old(index)@.dom().insert(cell));
        index.len()
    }

    /// Files a splat under its coarse, medium and fine cells.
    pub fn index_splat_cells(&mut self, splat_id: &str, coarse_cell: u64, medium_cell: u64, fine_cell: u64)
        requires
            old(self).wf(),
            old(self).total() < usize::MAX,
        ensures
            final(self).wf(),
            final(self).total() == old(self).total() + 1,
            final(self).cell_counts().0 == final(self).coarse().len(),
            final(self).cell_counts().1 == final(self).medium().len(),
            final(self).cell_counts().2 == final(self).fine().len(),
            members(final(self).coarse(), coarse_cell) == members(old(self).coarse(), coarse_cell).push(splat_id@),
            members(final(self).medium(), medium_cell) == members(old(self).medium(), medium_cell).push(splat_id@),
            members(final(self).fine(), fine_cell) == members(old(self).fine(), fine_cell).push(splat_id@),
            final(self).coarse().dom() == old(self).coarse().dom().insert(coarse_cell),
            final(self).medium().dom() == old(self).medium().dom().insert(medium_cell),
            final(self).fine().dom() == old(self).fine().dom().insert(fine_cell),
            forall|c: u64| c != coarse_cell && #[trigger] old(self).coarse().contains_key(c) ==> final(self).coarse()[c] == old(self).coarse()[c],
            forall|c: u64| c != medium_cell && #[trigger] old(self).medium().contains_key(c) ==> final(self).medium()[c] == old(self).medium()[c],
            forall|c: u64| c != fine_cell && #[trigger] old(self).fine().contains_key(c) ==> final(self).fine()[c] == old(self).fine()[c],
    {
        self.coarse_cells = Self::file_under(&mut self.cells.index_coarse, coarse_cell, splat_id);
        self.medium_cells = Self::file_under(&mut self.cells.index_medium, medium_cell, splat_id);
        self.fine_cells = Self::file_under(&mut self.cells.index_fine, fine_cell, splat_id);
        self.total_indexed = self.total_indexed + 1;
    }

    /// The splats filed under `cell` at the index that `resolution` selects
    /// (coarse, medium, or fine for any other level), oldest first.
    pub fn candidates_in_cell(&self, resolution: H3Resolution, cell: u64) -> (v: Vec<String>)
        ensures
            views(v@) == members(self.level(resolution), cell),
    {
        let index = if resolution.0 == COARSE_LEVEL {
            &self.cells.index_coarse
        } else if resolution.0 == MEDIUM_LEVEL {
            &self.cells.index_medium
        } else {
            &self.cells.index_fine
        };
        match index.get(&cell) {
            Some(list) => clone_strings(list),
            None => Vec::new(),
        }
    }

    /// Removes every entry and resets the counters.
    pub fn clear(&mut self)
        ensures
            final(self).wf(),
            final(self).coarse() == Map::<u64, Vec<String>>::empty(),
            final(self).medium() == Map::<u64, Vec<String>>::empty(),
            final(self).fine() == Map::<u64, Vec<String>>::empty(),
            final(self).total() == 0,
            final(self).cell_counts() == (0usize, 0usize, 0usize),
                                        {
        self.cells.index_coarse.clear();
        self.cells.index_medium.clear();
        self.cells.index_fine.clear();
        self.total_indexed = 0;
        self.coarse_cells = 0;
        self.medium_cells = 0;
        self.fine_cells = 0;
    }
}

impl Default for H3SpatialIndex {
    fn default() -> (ix: Self)
        ensures
            ix.wf(),
            ix.coarse() == Map::<u64, Vec<String>>::empty(),
            ix.medium() == Map::<u64, Vec<String>>::empty(),
            ix.fine() == Map::<u64, Vec<String>>::empty(),
            ix.total() == 0,
            ix.cell_counts() == (0usize, 0usize, 0usize),
    {
        Self::new()
    }
}

/// A splat just filed is among the candidates of each of its three cells,
/// as the last entry.
pub proof fn lemma_indexed_splat_is_found(
    before: H3SpatialIndex,
    after: H3SpatialIndex,
    splat_id: Seq<char>,
    coarse_cell: u64,
    medium_cell: u64,
    fine_cell: u64,
)
    requires
        members(after.coarse(), coarse_cell) == members(before.coarse(), coarse_cell).push(splat_id),
        members(after.medium(), medium_cell) == members(before.medium(), medium_cell).push(splat_id),
        members(after.fine(), fine_cell) == members(before.fine(), fine_cell).push(splat_id),
    ensures
        members(after.level(H3Resolution(COARSE_LEVEL)), coarse_cell).contains(splat_id),
        members(after.level(H3Resolution(MEDIUM_LEVEL)), medium_cell).contains(splat_id),
        members(after.level(H3Resolution(FINE_LEVEL)), fine_cell).contains(splat_id),
{
    assert(members(after.coarse(), coarse_cell).last() == splat_id);
    assert(members(after.medium(), medium_cell).last() == splat_id);
    assert(members(after.fine(), fine_cell).last() == splat_id);
    assert(members(after.coarse(), coarse_cell)[members(after.coarse(), coarse_cell).len() - 1] == splat_id);
    assert(members(after.medium(), medium_cell)[members(after.medium(), medium_cell).len() - 1] == splat_id);
    assert(members(after.fine(), fine_cell)[members(after.fine(), fine_cell).len() - 1] == splat_id);
}

} // verus!
