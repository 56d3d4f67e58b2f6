//! A fixed array of five numbers and the index that picks one of them.

use vstd::prelude::*;
use crate::text::{parse_usize, parsed_unsigned, trim, trimmed};

verus! {

/// How many numbers the array holds.
pub const LENGTH: usize = 5;

/// The numbers of the array, in order.
pub open spec fn numbers() -> Seq<i32> {
    seq![1i32, 2i32, 3i32, 4i32, 5i32]
}

/// The array itself.
pub fn array() -> (values: [i32; 5])
    ensures
        values@ == numbers(),
{
    [1, 2, 3, 4, 5]
}

/// Reads an index off a line of input: the number that the line denotes once
/// the white space around it is gone. There is none where the line denotes no
/// unsigned number, or one too large for a `usize`.
pub fn read_index(line: &str) -> (index: Option<usize>)
    ensures
        index matches Some(n) ==> parsed_unsigned(trimmed(line@)) == Some(n as nat),
        index is None ==> (parsed_unsigned(trimmed(line@)) matches Some(n) ==> n > usize::MAX),
{
    parse_usize(trim(line))
}

/// The number at an index that lies within the array.
pub fn element_at(index: usize) -> (element: i32)
    requires
        index < LENGTH,
    ensures
        element == numbers()[index as int],
{
    let values = array();
    values[index]
}

/// The number at an index, and none for an index past the end of the array.
pub fn checked_element(index: usize) -> (element: Option<i32>)
    ensures
        index < LENGTH ==> element == Some(numbers()[index as int]),
        index >= LENGTH ==> element is None,
{
    if index < LENGTH {
        Some(element_at(index))
    } else {
        None
    }
}

} // verus!
