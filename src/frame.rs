use vstd::prelude::*;

verus! {

/// The tint counter of the next frame: it counts up and starts again at zero
/// after 254.
pub fn next_tint(i: u8) -> (r: u8)
    requires
        i < 255,
    ensures
        r as int == (i as int + 1) % 255,
        r < 255,
{
    (i + 1) % 255
}

/// The background colour, as red, green and blue, for tint counter `i`: it
/// fades from blue to red as the counter rises.
pub fn background_rgb(i: u8) -> (r: (u8, u8, u8))
    ensures
        r == (i, 64u8, (255 - i) as u8),
{
    (i, 64, 255 - i)
}

/// The corners of a shape with the first repeated at the end, so that
/// drawing lines through them in order closes the shape.
pub fn closed_outline<T: Copy>(points: &Vec<T>) -> (r: Vec<T>)
    requires
        points@.len() > 0,
    ensures
        r@ == points@.push(points@[0]),
{
    let mut r: Vec<T> = Vec::new();
    let n = points.len();
    let mut i: usize = 0;
    while i < n
        invariant
            n == points@.len(),
            0 <= i <= n,
            r@ == points@.subrange(0, i as int),
        decreases n - i,
    {
        r.push(points[i]);
        i = i + 1;
    }
    r.push(points[0]);
    assert(points@.subrange(0, n as int) =~= points@);
    r
}

} // verus!
