use vstd::prelude::*;

verus! {

/// The number of columns the display controller addresses.
pub const PANEL_COLUMNS: u32 = 320;

/// A bound of a window as the controller takes it: two bytes, high first.
pub open spec fn bound_bytes(v: u32) -> Seq<u32> {
    seq![v / 256, v % 256]
}

/// The column and row windows of a picture `height` rows high and `width`
/// columns wide, drawn against the right edge of the panel: columns from
/// `PANEL_COLUMNS - width` to the last, rows from 0 to `height - 1`.
pub fn area_window(height: u32, width: u32) -> (r: (Vec<u32>, Vec<u32>))
    requires
        1 <= height,
        width <= PANEL_COLUMNS,
    ensures
        r.0@ == bound_bytes((PANEL_COLUMNS - width) as u32) + bound_bytes((PANEL_COLUMNS - 1) as u32),
        r.1@ == bound_bytes(0) + bound_bytes((height - 1) as u32),
{
    let first = PANEL_COLUMNS - width;
    let last = PANEL_COLUMNS - 1;
    let bottom = height - 1;
    assert(first >> 8 == first / 256 && first & 0xff == first % 256) by (bit_vector);
    assert(last >> 8 == last / 256 && last & 0xff == last % 256) by (bit_vector);
    assert(bottom >> 8 == bottom / 256 && bottom & 0xff == bottom % 256) by (bit_vector);
    let columns: Vec<u32> = vec![first >> 8, first & 0xff, last >> 8, last & 0xff];
    let rows: Vec<u32> = vec![0, 0, bottom >> 8, bottom & 0xff];
    assert(columns@ =~= bound_bytes(first) + bound_bytes(last));
    assert(rows@ =~= bound_bytes(0) + bound_bytes(bottom));
    (columns, rows)
}

} // verus!
