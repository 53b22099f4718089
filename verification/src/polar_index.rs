//! Index tables of the glider polars: the polars are stored in the order they were added, and
//! the menu lists them sorted by name. Both tables are generated from the polar store.
use vstd::prelude::*;

verus! {

/// Number of polars in the store.
pub const POLAR_COUNT: usize = 169;

/// Position in the sorted list of each stored polar.
pub open spec fn to_sorted_table() -> Seq<u8> {
    seq![
        0, 1, 2, 3, 4, 5, 8, 9, 10, 11, 12, 13, 14, 15, 16, 17,
        18, 19, 20, 21, 22, 23, 24, 25, 26, 27, 28, 29, 30, 31, 32, 33,
        34, 35, 36, 37, 38, 39, 40, 41, 42, 43, 44, 45, 46, 47, 48, 49,
        50, 51, 52, 53, 54, 55, 56, 57, 58, 59, 60, 61, 62, 63, 64, 65,
        66, 67, 68, 69, 70, 71, 72, 73, 74, 75, 76, 77, 78, 79, 80, 81,
        82, 83, 84, 85, 86, 87, 88, 89, 90, 91, 92, 93, 94, 95, 96, 97,
        98, 99, 100, 101, 102, 103, 104, 105, 106, 107, 108, 109, 110, 111, 112, 113,
        114, 115, 116, 117, 118, 119, 120, 121, 122, 123, 124, 125, 126, 127, 128, 129,
        130, 131, 132, 133, 134, 135, 136, 137, 138, 139, 140, 141, 142, 143, 144, 145,
        146, 147, 148, 149, 150, 151, 152, 153, 154, 155, 156, 157, 158, 159, 160, 161,
        162, 163, 164, 165, 166, 167, 168, 7, 6,
    ]
}

/// Stored polar at each position of the sorted list.
pub open spec fn to_raw_table() -> Seq<u8> {
    seq![
        0, 1, 2, 3, 4, 5, 168, 167, 6, 7, 8, 9, 10, 11, 12, 13,
        14, 15, 16, 17, 18, 19, 20, 21, 22, 23, 24, 25, 26, 27, 28, 29,
        30, 31, 32, 33, 34, 35, 36, 37, 38, 39, 40, 41, 42, 43, 44, 45,
        46, 47, 48, 49, 50, 51, 52, 53, 54, 55, 56, 57, 58, 59, 60, 61,
        62, 63, 64, 65, 66, 67, 68, 69, 70, 71, 72, 73, 74, 75, 76, 77,
        78, 79, 80, 81, 82, 83, 84, 85, 86, 87, 88, 89, 90, 91, 92, 93,
        94, 95, 96, 97, 98, 99, 100, 101, 102, 103, 104, 105, 106, 107, 108, 109,
        110, 111, 112, 113, 114, 115, 116, 117, 118, 119, 120, 121, 122, 123, 124, 125,
        126, 127, 128, 129, 130, 131, 132, 133, 134, 135, 136, 137, 138, 139, 140, 141,
        142, 143, 144, 145, 146, 147, 148, 149, 150, 151, 152, 153, 154, 155, 156, 157,
        158, 159, 160, 161, 162, 163, 164, 165, 166,
    ]
}

/// The position in the sorted list of the polar stored at `raw_idx`.
pub fn to_sorted_idx(raw_idx: usize) -> (r: usize)
    requires
        raw_idx < POLAR_COUNT,
    ensures
        r == to_sorted_table()[raw_idx as int],
        r < POLAR_COUNT,
{
    let table: [u8; 169] = [
        0, 1, 2, 3, 4, 5, 8, 9, 10, 11, 12, 13, 14, 15, 16, 17,
        18, 19, 20, 21, 22, 23, 24, 25, 26, 27, 28, 29, 30, 31, 32, 33,
        34, 35, 36, 37, 38, 39, 40, 41, 42, 43, 44, 45, 46, 47, 48, 49,
        50, 51, 52, 53, 54, 55, 56, 57, 58, 59, 60, 61, 62, 63, 64, 65,
        66, 67, 68, 69, 70, 71, 72, 73, 74, 75, 76, 77, 78, 79, 80, 81,
        82, 83, 84, 85, 86, 87, 88, 89, 90, 91, 92, 93, 94, 95, 96, 97,
        98, 99, 100, 101, 102, 103, 104, 105, 106, 107, 108, 109, 110, 111, 112, 113,
        114, 115, 116, 117, 118, 119, 120, 121, 122, 123, 124, 125, 126, 127, 128, 129,
        130, 131, 132, 133, 134, 135, 136, 137, 138, 139, 140, 141, 142, 143, 144, 145,
        146, 147, 148, 149, 150, 151, 152, 153, 154, 155, 156, 157, 158, 159, 160, 161,
        162, 163, 164, 165, 166, 167, 168, 7, 6,
    ];
    assert(table@ =~= to_sorted_table());
    table[raw_idx] as usize
}

/// The stored position of the polar at `sorted_idx` in the sorted list.
pub fn to_raw_idx(sorted_idx: usize) -> (r: usize)
    requires
        sorted_idx < POLAR_COUNT,
    ensures
        r == to_raw_table()[sorted_idx as int],
        r < POLAR_COUNT,
{
    let table: [u8; 169] = [
        0, 1, 2, 3, 4, 5, 168, 167, 6, 7, 8, 9, 10, 11, 12, 13,
        14, 15, 16, 17, 18, 19, 20, 21, 22, 23, 24, 25, 26, 27, 28, 29,
        30, 31, 32, 33, 34, 35, 36, 37, 38, 39, 40, 41, 42, 43, 44, 45,
        46, 47, 48, 49, 50, 51, 52, 53, 54, 55, 56, 57, 58, 59, 60, 61,
        62, 63, 64, 65, 66, 67, 68, 69, 70, 71, 72, 73, 74, 75, 76, 77,
        78, 79, 80, 81, 82, 83, 84, 85, 86, 87, 88, 89, 90, 91, 92, 93,
        94, 95, 96, 97, 98, 99, 100, 101, 102, 103, 104, 105, 106, 107, 108, 109,
        110, 111, 112, 113, 114, 115, 116, 117, 118, 119, 120, 121, 122, 123, 124, 125,
        126, 127, 128, 129, 130, 131, 132, 133, 134, 135, 136, 137, 138, 139, 140, 141,
        142, 143, 144, 145, 146, 147, 148, 149, 150, 151, 152, 153, 154, 155, 156, 157,
        158, 159, 160, 161, 162, 163, 164, 165, 166,
    ];
    assert(table@ =~= to_raw_table());
    table[sorted_idx] as usize
}

/// The number of polars, as the sorted table has them.
pub fn size() -> (r: usize)
    ensures
        r == to_raw_table().len(),
{
    POLAR_COUNT
}

/// The two tables are inverse to each other: the sorted position of a stored polar leads back
/// to it, and the stored position of a sorted entry leads back to that entry.
pub proof fn lemma_index_tables_inverse(i: int)
    requires
        0 <= i < POLAR_COUNT,
    ensures
        to_raw_table()[to_sorted_table()[i] as int] == i,
        to_sorted_table()[to_raw_table()[i] as int] == i,
        to_sorted_table()[i] < POLAR_COUNT,
        to_raw_table()[i] < POLAR_COUNT,
{
    assert(forall|k: int| 0 <= k < 169 ==> to_raw_table()[to_sorted_table()[k] as int] == k);
    assert(forall|k: int| 0 <= k < 169 ==> to_sorted_table()[to_raw_table()[k] as int] == k);
    assert(forall|k: int| 0 <= k < 169 ==> to_sorted_table()[k] < 169 && to_raw_table()[k] < 169);
}

} // verus!
