//! The camera: the corner of the stage that the canvas shows, in units of
//! 1/512 of a pixel.

use crate::map::TileMap;
use vstd::prelude::*;

verus! {

/// Pixels along one side of a tile.
pub const TILE_PIXELS: isize = 16;

/// Camera units in a pixel.
pub const PIXEL_UNITS: isize = 0x200;

/// The top-left corner of the view, and how slowly it follows its target.
#[derive(Debug, Clone, Copy, PartialEq, Eq, Structural)]
pub struct Frame {
    /// How far the view's corner lies right of the stage's.
    pub x: isize,
    /// How far the view's corner lies below the stage's.
    pub y: isize,
    /// The view closes one part in `wait` of its distance to the target with
    /// each update.
    pub wait: isize,
}

/// The quotient of `a` by `b` rounded toward zero, for `b != 0`: what the
/// machine's division of signed numbers gives.
pub open spec fn trunc_div(a: int, b: int) -> int {
    if a >= 0 {
        a / b
    } else {
        -((-a) / b)
    }
}

/// A quotient rounded toward zero is no further from zero than the dividend,
/// and multiplied back it stays within one divisor of the dividend, on the
/// side of zero.
pub proof fn lemma_trunc_div(a: int, b: int)
    requires
        b != 0,
    ensures
        a >= 0 ==> -a <= trunc_div(a, b) <= a,
        a <= 0 ==> a <= trunc_div(a, b) <= -a,
        a >= 0 ==> 0 <= a - trunc_div(a, b) * b,
        a <= 0 ==> 0 >= a - trunc_div(a, b) * b,
        b > 0 ==> -b < a - trunc_div(a, b) * b < b,
        b < 0 ==> b < a - trunc_div(a, b) * b < -b,
{
    if a >= 0 {
        assert(-a <= a / b <= a && 0 <= a - (a / b) * b && (b > 0 ==> a - (a / b) * b < b) && (b < 0
            ==> a - (a / b) * b < -b)) by (nonlinear_arith)
            requires
                a >= 0,
                b != 0,
        ;
    } else {
        let n = -a;
        assert(-n <= n / b <= n && 0 <= n - (n / b) * b && (b > 0 ==> n - (n / b) * b < b) && (b < 0
            ==> n - (n / b) * b < -b)) by (nonlinear_arith)
            requires
                n > 0,
                b != 0,
        ;
        assert(a - (-(n / b)) * b == -(n - (n / b) * b)) by (nonlinear_arith)
            requires
                n == -a,
        ;
    }
}

/// Where the view stands along one axis after an update.
///
/// `cells` tiles span `(cells - 1) * 16` pixels from the first to the last.
/// A stage narrower than the canvas is centred, which puts the view at a
/// negative place. Otherwise the view moves toward the place that puts the
/// target mid-canvas, by one part in `wait` of the way, rounded toward where
/// it stands, and stays between zero and the place where the canvas ends with
/// the stage.
pub open spec fn follow(pos: int, wait: int, target: int, canvas: int, cells: int) -> int {
    let span = (cells - 1) * TILE_PIXELS;
    if span < canvas {
        -((canvas - span) * (PIXEL_UNITS / 2))
    } else {
        let moved = pos + trunc_div(target - canvas * (PIXEL_UNITS / 2) - pos, wait);
        let limit = (span - canvas) * PIXEL_UNITS;
        if moved < 0 {
            0
        } else if moved > limit {
            limit
        } else {
            moved
        }
    }
}

/// Whether an axis can be updated: the stage has a tile, the view moves at
/// all, and the new place is one the machine can hold.
pub open spec fn can_follow(pos: int, wait: int, target: int, canvas: int, cells: int) -> bool {
    &&& cells >= 1
    &&& wait != 0
    &&& isize::MIN <= follow(pos, wait, target, canvas, cells) <= isize::MAX
}

/// The new place along one axis, where the machine can hold it.
fn follow_axis(pos: isize, wait: isize, target: isize, canvas: isize, cells: usize) -> (place:
    Option<isize>)
    ensures
        place is Some <==> can_follow(
            pos as int,
            wait as int,
            target as int,
            canvas as int,
            cells as int,
        ),
        place matches Some(p) ==> p == follow(
            pos as int,
            wait as int,
            target as int,
            canvas as int,
            cells as int,
        ),
{
    if cells < 1 || wait == 0 {
        return None;
    }
    let tile: i128 = TILE_PIXELS as i128;
    let unit: i128 = PIXEL_UNITS as i128;
    let half: i128 = unit / 2;
    assert(tile == 16 && unit == 0x200 && half == 0x100);
    let span: i128 = (cells as i128 - 1) * tile;
    let width: i128 = canvas as i128;
    let place: i128 = if span < width {
        -((width - span) * half)
    } else {
        let ahead: i128 = target as i128 - width * half - pos as i128;
        proof {
            lemma_trunc_div(ahead as int, wait as int);
        }
        let moved: i128 = pos as i128 + ahead / (wait as i128);
        let limit: i128 = (span - width) * unit;
        if moved < 0 {
            0
        } else if moved > limit {
            limit
        } else {
            moved
        }
    };
    if place < isize::MIN as i128 || place > isize::MAX as i128 {
        None
    } else {
        Some(place as isize)
    }
}

impl Frame {
    /// Whether `update` can be called with these arguments.
    pub open spec fn can_follow(
        self,
        canvas_size: (isize, isize),
        target_x: isize,
        target_y: isize,
        map_width: usize,
        map_height: usize,
    ) -> bool {
        &&& can_follow(
            self.x as int,
            self.wait as int,
            target_x as int,
            canvas_size.0 as int,
            map_width as int,
        )
        &&& can_follow(
            self.y as int,
            self.wait as int,
            target_y as int,
            canvas_size.1 as int,
            map_height as int,
        )
    }

    /// Tells whether `update` can be called with these arguments.
    pub fn can_update(
        &self,
        canvas_size: (isize, isize),
        target_x: isize,
        target_y: isize,
        map: &TileMap,
    ) -> (ok: bool)
        ensures
            ok == self.can_follow(canvas_size, target_x, target_y, map.width, map.height),
    {
        let x: Option<isize> = follow_axis(self.x, self.wait, target_x, canvas_size.0, map.width);
        let y: Option<isize> = follow_axis(self.y, self.wait, target_y, canvas_size.1, map.height);
        x.is_some() && y.is_some()
    }

    /// Moves the view one step after its target over the stage of `map`.
    ///
    /// `canvas_size` is the size of the canvas in pixels; the target is given
    /// in camera units.
    pub fn update(
        &mut self,
        canvas_size: (isize, isize),
        target_x: isize,
        target_y: isize,
        map: &TileMap,
    )
        requires
            old(self).can_follow(canvas_size, target_x, target_y, map.width, map.height),
        ensures
            final(self).x == follow(
                old(self).x as int,
                old(self).wait as int,
                target_x as int,
                canvas_size.0 as int,
                map.width as int,
            ),
            final(self).y == follow(
                old(self).y as int,
                old(self).wait as int,
                target_y as int,
                canvas_size.1 as int,
                map.height as int,
            ),
            final(self).wait == old(self).wait,
    {
        let x: Option<isize> = follow_axis(self.x, self.wait, target_x, canvas_size.0, map.width);
        let y: Option<isize> = follow_axis(self.y, self.wait, target_y, canvas_size.1, map.height);
        self.x = x.unwrap();
        self.y = y.unwrap();
    }
}

} // verus!
