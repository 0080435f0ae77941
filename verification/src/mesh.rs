//! The index lists of the engine's wireframe meshes.
//!
//! The vertices of a wireframe come in pairs, one pair to a line, and the
//! indices name them in the order in which they lie in the vertex buffer.

use vstd::prelude::*;
use crate::error::SetupError;

verus! {

/// The number of lines of a grid of `cells` cells to each side of the
/// origin: `2 * cells + 1` lines in each of the two directions.
pub open spec fn spec_grid_lines(cells: int) -> int {
    2 * (2 * cells + 1)
}

/// The number of vertices, and of indices, of such a grid: two to a line.
pub open spec fn spec_grid_index_count(cells: int) -> int {
    2 * spec_grid_lines(cells)
}

/// The indices `0, 1, ..` up to `count`, in rising order.
pub open spec fn spec_sequential_indices(count: int) -> Seq<u16> {
    Seq::new(count as nat, |i: int| i as u16)
}

/// The indices `0, 1, ..` up to `count`, in rising order.
pub fn sequential_indices(count: u16) -> (indices: Vec<u16>)
    ensures
        indices@ == spec_sequential_indices(count as int),
{
    let mut indices: Vec<u16> = Vec::new();
    let mut i: u16 = 0;
    while i < count
        invariant
            0 <= i <= count,
            indices.len() == i,
            forall|j: int| 0 <= j < i ==> indices[j] == j as u16,
        decreases count - i,
    {
        indices.push(i);
        i += 1;
    }
    assert(indices@ =~= spec_sequential_indices(count as int));
    indices
}

/// The index list of the grid mesh. Fails exactly when the grid has more
/// vertices than a 16-bit index can count.
pub fn grid_indices(cells: usize) -> (made: Result<Vec<u16>, SetupError>)
    ensures
        match made {
            Ok(indices) => {
                &&& spec_grid_index_count(cells as int) <= u16::MAX
                &&& indices@ == spec_sequential_indices(spec_grid_index_count(cells as int))
            },
            Err(e) => e == SetupError::SizeOverflow && spec_grid_index_count(cells as int)
                > u16::MAX,
        },
{
    if cells > 8191 {
        return Err(SetupError::SizeOverflow);
    }
    let lines: usize = cells * 2 + 1;
    let count: usize = lines * 4;
    Ok(sequential_indices(count as u16))
}

/// The index list of the crosshair mesh: four lines, two of them upright
/// and two level, with their 16 coordinates read as 16 indexed values.
pub fn crosshair_indices() -> (indices: Vec<u16>)
    ensures
        indices@ == spec_sequential_indices(16),
{
    sequential_indices(16)
}

/// The number of indices of a mesh as the draw call takes it. `None`
/// exactly when it does not fit 32 bits.
pub fn index_count(indices: &Vec<u16>) -> (count: Option<u32>)
    ensures
        indices.len() > u32::MAX ==> count is None,
        indices.len() <= u32::MAX ==> count == Some(indices.len() as u32),
{
    if indices.len() > u32::MAX as usize {
        None
    } else {
        Some(indices.len() as u32)
    }
}

} // verus!
