//! The pixel grid of a picture.
//!
//! Pixels are numbered row by row from the top-left corner, the way they are
//! written out. A pixel's position counts its column from the left and its
//! row from the bottom, the way the camera's image plane is laid out. Every
//! pixel is rendered on its own and stored under its own number, so two
//! workers never write to the same place.

use vstd::arithmetic::div_mod::lemma_fundamental_div_mod;
use vstd::arithmetic::div_mod::lemma_fundamental_div_mod_converse;
use vstd::arithmetic::div_mod::lemma_mod_bound;
use vstd::prelude::*;

verus! {

/// Whether a picture of the given size has a pixel with this number.
pub open spec fn in_frame(index: nat, width: nat, height: nat) -> bool {
    width > 0 && index < width * height
}

/// The column, counted from the left, and the row, counted from the bottom,
/// of the pixel with this number.
pub open spec fn position(index: nat, width: nat, height: nat) -> (nat, nat) {
    (index % width, (height - 1 - index / width) as nat)
}

/// The number of the pixel in column `x` of row `y`.
pub open spec fn index_at(x: nat, y: nat, width: nat, height: nat) -> nat {
    ((height - 1 - y) * width + x) as nat
}

proof fn lemma_row_of_index(index: nat, width: nat, height: nat)
    requires
        width > 0,
    ensures
        index < width * height <==> index / width < height,
        index % width < width,
        index == width * (index / width) + index % width,
{
    lemma_fundamental_div_mod(index as int, width as int);
    lemma_mod_bound(index as int, width as int);
    let q = index / width;
    if q < height {
        assert(width * q <= width * (height - 1)) by (nonlinear_arith)
            requires
                q <= height - 1,
                width > 0,
        ;
        assert(width * (height - 1) == width * height - width) by (nonlinear_arith);
    } else {
        assert(width * q >= width * height) by (nonlinear_arith)
            requires
                q >= height,
                width > 0,
        ;
    }
}

/// A pixel of the picture lies inside it: its column is less than the width
/// and its row less than the height.
pub proof fn lemma_position_in_frame(index: nat, width: nat, height: nat)
    requires
        in_frame(index, width, height),
    ensures
        position(index, width, height).0 < width,
        position(index, width, height).1 < height,
{
    lemma_row_of_index(index, width, height);
}

/// Two pixels of a picture at the same position are the same pixel: no two
/// numbers share a place.
pub proof fn lemma_positions_distinct(first: nat, second: nat, width: nat, height: nat)
    requires
        in_frame(first, width, height),
        in_frame(second, width, height),
        position(first, width, height) == position(second, width, height),
    ensures
        first == second,
{
    lemma_row_of_index(first, width, height);
    lemma_row_of_index(second, width, height);
}

/// Every position inside the picture belongs to a pixel of it, the one
/// numbered `index_at`.
pub proof fn lemma_position_of_index_at(x: nat, y: nat, width: nat, height: nat)
    requires
        x < width,
        y < height,
    ensures
        in_frame(index_at(x, y, width, height), width, height),
        position(index_at(x, y, width, height), width, height) == (x, y),
{
    let row = (height - 1 - y) as nat;
    let index = index_at(x, y, width, height);
    assert(row * width >= 0) by (nonlinear_arith)
        requires
            row >= 0,
            width > 0,
    ;
    lemma_fundamental_div_mod_converse(index as int, width as int, row as int, x as int);
    lemma_row_of_index(index, width, height);
}

/// The number of pixels of a picture, `None` where it is more than the
/// machine can count.
pub fn pixel_count(width: usize, height: usize) -> (count: Option<usize>)
    ensures
        count == if width * height <= usize::MAX {
            Some((width * height) as usize)
        } else {
            None
        },
{
    width.checked_mul(height)
}

/// The position of the pixel with this number: its column from the left and
/// its row from the bottom. `None` if and only if the picture has no such
/// pixel.
pub fn pixel_position(index: usize, width: usize, height: usize) -> (place: Option<(usize, usize)>)
    ensures
        place is Some <==> in_frame(index as nat, width as nat, height as nat),
        place matches Some((x, y)) ==> (x as nat, y as nat) == position(
            index as nat,
            width as nat,
            height as nat,
        ),
{
    if width == 0 {
        return None;
    }
    let row = index / width;
    proof {
        lemma_row_of_index(index as nat, width as nat, height as nat);
    }
    if row >= height {
        return None;
    }
    Some((index % width, height - 1 - row))
}

} // verus!
