//! The geometry of the ASCII ROC-curve renderer: resolving a sweep
//! precision into a step count, snapping exact rates onto a square grid
//! of cells, and laying the grid points out on a character canvas with
//! its two axes.
//!
//! A rate is carried as a pair `(numerator, denominator)` — for example
//! a false-positive rate as (false positives, false positives + true
//! negatives) — so every step here is exact integer arithmetic.

use vstd::prelude::*;

verus! {

use crate::MLError;

/// The threshold step used when sweeping an ROC curve, as the number of
/// steps the unit interval is divided into: a step of one tenth gives
/// ten cells per axis and eleven samples from zero through one.
#[allow(non_camel_case_types)]
#[derive(Clone, Copy, Debug, PartialEq, Eq, Structural)]
pub enum Precision {
    /// A step of 1/10000: 10001 samples.
    F0001,
    /// A step of 1/1000: 1001 samples.
    F001,
    /// A step of 1/100: 101 samples.
    F01,
    /// A step of 1/10: 11 samples.
    F1,
    /// A caller-defined step of 1/n, which therefore divides the unit
    /// interval evenly.
    DEFINE(usize),
}

impl Precision {
    /// The number of grid cells per axis: the reciprocal of the step.
    pub open spec fn steps_spec(self) -> int {
        match self {
            Precision::F0001 => 10000,
            Precision::F001 => 1000,
            Precision::F01 => 100,
            Precision::F1 => 10,
            Precision::DEFINE(n) => n as int,
        }
    }

    /// A precision is usable when its step is positive and leaves room
    /// for the closing sample at one.
    pub open spec fn valid_spec(self) -> bool {
        1 <= self.steps_spec() && self.steps_spec() < usize::MAX
    }

    /// Resolves the precision into its step count and its sample count,
    /// one more than the step count since the sweep covers both ends of
    /// the unit interval. Fails with `PrecisionMismatch` exactly when
    /// the precision is unusable.
    pub fn resolve(self) -> (result: Result<(usize, usize), MLError>)
        ensures
            match result {
                Ok(p) => {
                    &&& self.valid_spec()
                    &&& p.0 == self.steps_spec()
                    &&& p.1 == self.steps_spec() + 1
                },
                Err(e) => {
                    &&& e == MLError::PrecisionMismatch
                    &&& !self.valid_spec()
                },
            },
    {
        match self {
            Precision::F0001 => Ok((10000, 10001)),
            Precision::F001 => Ok((1000, 1001)),
            Precision::F01 => Ok((100, 101)),
            Precision::F1 => Ok((10, 11)),
            Precision::DEFINE(steps) => {
                if 1 <= steps && steps < usize::MAX {
                    Ok((steps, steps + 1))
                } else {
                    Err(MLError::PrecisionMismatch)
                }
            },
        }
    }
}

/// The grid line nearest to the exact value (num/den)·steps, with a
/// value halfway between two lines snapping to the upper one. Each of
/// the `steps` cells per axis spans one unit between adjacent lines, so
/// this is the midpoint rule: a value at or past the middle of its cell
/// moves to the cell's upper edge, otherwise to its lower edge.
pub open spec fn nearest_grid_line(num: int, den: int, steps: int) -> int {
    (2 * num * steps + den) / (2 * den)
}

/// Snaps the exact rate num/den (at most one) onto the axis grid.
pub fn grid_coord(num: usize, den: usize, steps: usize) -> (g: usize)
    requires
        1 <= den,
        num <= den,
        1 <= steps,
        2 * den * steps + den <= usize::MAX,
    ensures
        g == nearest_grid_line(num as int, den as int, steps as int),
        g <= steps,
        2 * den * g <= 2 * num * steps + den < 2 * den * g + 2 * den,
{
    proof {
        assert(2 * num * steps <= 2 * den * steps && 2 * den <= 2 * den * steps) by (nonlinear_arith)
            requires
                num <= den,
                0 <= num,
                1 <= steps,
                1 <= den,
        ;
    }
    let scaled = 2 * num * steps + den;
    let g = scaled / (2 * den);
    proof {
        vstd::arithmetic::div_mod::lemma_fundamental_div_mod(scaled as int, 2 * den as int);
        assert(2 * (den as int) * ((scaled as int) / (2 * (den as int))) == 2 * den * g);
        assert(2 * den * g <= scaled < 2 * den * g + 2 * den);
        assert(g <= steps) by (nonlinear_arith)
            requires
                1 <= den,
                1 <= steps,
                0 <= g,
                2 * den * g <= 2 * den * steps + den,
        ;
    }
    g
}

/// The grid point `p` is drawn in canvas cell (`row`, `col`): the
/// x-coordinate lands two columns right of the canvas edge to leave
/// room for the vertical axis, and the y-coordinate is flipped so that
/// larger values plot higher up, with row `steps + 1` as the baseline.
pub open spec fn plots_at(p: (usize, usize), steps: int, row: int, col: int) -> bool {
    &&& p.0 + 2 == col
    &&& steps + 1 - p.1 == row
}

/// The axis artwork under the plotted points: the origin marker where
/// the axes cross, the horizontal axis along the baseline row, the
/// vertical axis down column two, and blank space elsewhere.
pub open spec fn base_char(steps: int, row: int, col: int) -> char {
    if row == steps + 1 && col == 2 {
        '\u{253c}'
    } else if row == steps + 1 && 2 <= col <= steps + 2 {
        '\u{2500}'
    } else if col == 2 && 1 <= row <= steps + 1 {
        '\u{2502}'
    } else {
        ' '
    }
}

/// What the finished canvas holds in cell (`row`, `col`): a point
/// marker wherever some grid point is drawn, otherwise the axis
/// artwork.
pub open spec fn canvas_char(points: Seq<(usize, usize)>, steps: int, row: int, col: int) -> char {
    if exists|k: int| 0 <= k < points.len() && plots_at(points[k], steps, row, col) {
        '\u{2022}'
    } else {
        base_char(steps, row, col)
    }
}

#[verifier::loop_isolation(false)]
fn cell_char(points: &Vec<(usize, usize)>, steps: usize, row: usize, col: usize) -> (ch: char)
    requires
        1 <= steps,
        steps + 2 <= usize::MAX,
        forall|k: int|
            0 <= k < points@.len() ==> (#[trigger] points@[k]).0 <= steps && points@[k].1 <= steps,
    ensures
        ch == canvas_char(points@, steps as int, row as int, col as int),
{
    let n = points.len();
    for k in 0..n
        invariant
            forall|j: int|
                0 <= j < k ==> !plots_at(points@[j], steps as int, row as int, col as int),
    {
        let (px, py) = points[k];
        if px + 2 == col && steps + 1 - py == row {
            proof {
                assert(plots_at(points@[k as int], steps as int, row as int, col as int));
            }
            return '\u{2022}';
        }
    }
    if row == steps + 1 && col == 2 {
        '\u{253c}'
    } else if row == steps + 1 && 2 <= col && col <= steps + 2 {
        '\u{2500}'
    } else if col == 2 && 1 <= row && row <= steps + 1 {
        '\u{2502}'
    } else {
        ' '
    }
}

/// Draws the canvas for a set of already-snapped grid points: a
/// rectangle of `steps + 2` rows by `steps + 3` columns whose every
/// cell is pinned down by [`canvas_char`] — the two axes with their
/// origin marker, and one point marker per plotted grid point.
#[verifier::loop_isolation(false)]
pub fn render_canvas(points: &Vec<(usize, usize)>, steps: usize) -> (canvas: Vec<Vec<char>>)
    requires
        1 <= steps,
        steps + 3 <= usize::MAX,
        forall|k: int|
            0 <= k < points@.len() ==> (#[trigger] points@[k]).0 <= steps && points@[k].1 <= steps,
    ensures
        canvas@.len() == steps + 2,
        forall|r: int| 0 <= r < canvas@.len() ==> (#[trigger] canvas@[r])@.len() == steps + 3,
        forall|r: int, c: int|
            0 <= r < steps + 2 && 0 <= c < steps + 3 ==> #[trigger] canvas@[r]@[c] == canvas_char(
                points@,
                steps as int,
                r,
                c,
            ),
{
    let rows = steps + 2;
    let cols = steps + 3;
    let mut canvas: Vec<Vec<char>> = Vec::new();
    let mut row: usize = 0;
    while row < rows
        invariant
            row <= rows,
            canvas@.len() == row,
            forall|r: int| 0 <= r < row ==> (#[trigger] canvas@[r])@.len() == cols,
            forall|r: int, c: int|
                0 <= r < row && 0 <= c < cols ==> #[trigger] canvas@[r]@[c] == canvas_char(
                    points@,
                    steps as int,
                    r,
                    c,
                ),
        decreases rows - row,
    {
        let mut line: Vec<char> = Vec::new();
        let mut col: usize = 0;
        while col < cols
            invariant
                col <= cols,
                line@.len() == col,
                forall|c: int|
                    0 <= c < col ==> #[trigger] line@[c] == canvas_char(
                        points@,
                        steps as int,
                        row as int,
                        c,
                    ),
            decreases cols - col,
        {
            line.push(cell_char(points, steps, row, col));
            col = col + 1;
        }
        canvas.push(line);
        row = row + 1;
    }
    canvas
}

/// A rate num/den is usable when its denominator is positive and it is
/// at most one.
pub open spec fn valid_rate(r: (usize, usize)) -> bool {
    1 <= r.1 && r.0 <= r.1
}

pub open spec fn all_rates_valid(s: Seq<(usize, usize)>) -> bool {
    forall|k: int| 0 <= k < s.len() ==> valid_rate(s[k])
}

/// Where an exact point — an x rate and a y rate — lands on the grid:
/// each coordinate snaps to its nearest grid line independently.
pub open spec fn snapped_point(p: ((usize, usize), (usize, usize)), steps: int) -> (usize, usize) {
    (
        nearest_grid_line(p.0.0 as int, p.0.1 as int, steps) as usize,
        nearest_grid_line(p.1.0 as int, p.1.1 as int, steps) as usize,
    )
}

pub open spec fn snapped_points(points: Seq<((usize, usize), (usize, usize))>, steps: int) -> Seq<
    (usize, usize),
> {
    points.map_values(|p: ((usize, usize), (usize, usize))| snapped_point(p, steps))
}

/// Snaps every exact point onto the grid and draws the canvas for the
/// whole set: the axes plus one marker per snapped point, exactly as
/// [`canvas_char`] describes.
#[verifier::loop_isolation(false)]
pub fn roc_curve_canvas(points: &Vec<((usize, usize), (usize, usize))>, steps: usize) -> (canvas:
    Vec<Vec<char>>)
    requires
        1 <= steps,
        steps + 3 <= usize::MAX,
        forall|k: int|
            0 <= k < points@.len() ==> valid_rate((#[trigger] points@[k]).0) && valid_rate(
                points@[k].1,
            ),
        forall|k: int|
            0 <= k < points@.len() ==> 2 * (#[trigger] points@[k]).0.1 * steps + points@[k].0.1
                <= usize::MAX && 2 * points@[k].1.1 * steps + points@[k].1.1 <= usize::MAX,
    ensures
        canvas@.len() == steps + 2,
        forall|r: int| 0 <= r < canvas@.len() ==> (#[trigger] canvas@[r])@.len() == steps + 3,
        forall|r: int, c: int|
            0 <= r < steps + 2 && 0 <= c < steps + 3 ==> #[trigger] canvas@[r]@[c] == canvas_char(
                snapped_points(points@, steps as int),
                steps as int,
                r,
                c,
            ),
{
    let n = points.len();
    let mut grid_pos: Vec<(usize, usize)> = Vec::new();
    let mut i: usize = 0;
    while i < n
        invariant
            i <= n,
            grid_pos@.len() == i,
            forall|j: int|
                0 <= j < i ==> #[trigger] grid_pos@[j] == snapped_point(points@[j], steps as int),
            forall|j: int|
                0 <= j < i ==> (#[trigger] grid_pos@[j]).0 <= steps && grid_pos@[j].1 <= steps,
        decreases n - i,
    {
        let ((xn, xd), (yn, yd)) = points[i];
        let gx = grid_coord(xn, xd, steps);
        let gy = grid_coord(yn, yd, steps);
        grid_pos.push((gx, gy));
        i = i + 1;
    }
    proof {
        assert(grid_pos@ =~= snapped_points(points@, steps as int));
    }
    render_canvas(&grid_pos, steps)
}

/// Which validation step an ROC plot request fails on, if any: empty
/// data first, then a length mismatch between the two rate vectors,
/// then a rate outside the unit interval, and last a precision that is
/// unusable or whose sample count does not match the data.
pub open spec fn roc_failure(
    fpr: Seq<(usize, usize)>,
    tpr: Seq<(usize, usize)>,
    precision: Precision,
) -> Option<MLError> {
    if fpr.len() == 0 || tpr.len() == 0 {
        Option::Some(MLError::EmptyInput)
    } else if fpr.len() != tpr.len() {
        Option::Some(MLError::ShapeMismatch)
    } else if !(all_rates_valid(fpr) && all_rates_valid(tpr)) {
        Option::Some(MLError::DomainViolation)
    } else if !precision.valid_spec() || fpr.len() != precision.steps_spec() + 1 {
        Option::Some(MLError::PrecisionMismatch)
    } else {
        Option::None
    }
}

/// The x and y rate vectors zipped into points.
pub open spec fn paired(fpr: Seq<(usize, usize)>, tpr: Seq<(usize, usize)>) -> Seq<
    ((usize, usize), (usize, usize)),
> {
    Seq::new(fpr.len(), |i: int| (fpr[i], tpr[i]))
}

/// Validates a swept ROC curve — false-positive rates against
/// true-positive rates, one point per threshold sample — and renders it
/// onto the character canvas. Fails exactly as [`roc_failure`]
/// describes; on success the canvas plots the snapped points over the
/// axes.
#[verifier::loop_isolation(false)]
pub fn roc_curve(
    fpr: &Vec<(usize, usize)>,
    tpr: &Vec<(usize, usize)>,
    precision: Precision,
) -> (result: Result<Vec<Vec<char>>, MLError>)
    requires
        precision.valid_spec() ==> {
            &&& precision.steps_spec() + 3 <= usize::MAX
            &&& forall|k: int|
                0 <= k < fpr@.len() ==> 2 * (#[trigger] fpr@[k]).1 * precision.steps_spec()
                    + fpr@[k].1 <= usize::MAX
            &&& forall|k: int|
                0 <= k < tpr@.len() ==> 2 * (#[trigger] tpr@[k]).1 * precision.steps_spec()
                    + tpr@[k].1 <= usize::MAX
        },
    ensures
        match result {
            Ok(canvas) => {
                &&& roc_failure(fpr@, tpr@, precision) is None
                &&& canvas@.len() == precision.steps_spec() + 2
                &&& forall|r: int|
                    0 <= r < canvas@.len() ==> (#[trigger] canvas@[r])@.len()
                        == precision.steps_spec() + 3
                &&& forall|r: int, c: int|
                    0 <= r < precision.steps_spec() + 2 && 0 <= c < precision.steps_spec() + 3
                        ==> #[trigger] canvas@[r]@[c] == canvas_char(
                        snapped_points(paired(fpr@, tpr@), precision.steps_spec()),
                        precision.steps_spec(),
                        r,
                        c,
                    )
            },
            Err(e) => roc_failure(fpr@, tpr@, precision) == Option::Some(e),
        },
{
    if fpr.is_empty() || tpr.is_empty() {
        return Err(MLError::EmptyInput);
    }
    if fpr.len() != tpr.len() {
        return Err(MLError::ShapeMismatch);
    }
    let n = fpr.len();
    let mut i: usize = 0;
    while i < n
        invariant
            i <= n,
            forall|k: int| 0 <= k < i ==> valid_rate(#[trigger] fpr@[k]),
            forall|k: int| 0 <= k < i ==> valid_rate(#[trigger] tpr@[k]),
        decreases n - i,
    {
        let (xn, xd) = fpr[i];
        let (yn, yd) = tpr[i];
        if xd < 1 || xn > xd || yd < 1 || yn > yd {
            return Err(MLError::DomainViolation);
        }
        i = i + 1;
    }
    let (steps, samples) = match precision.resolve() {
        Ok(p) => p,
        Err(e) => {
            return Err(e);
        },
    };
    if n != samples {
        return Err(MLError::PrecisionMismatch);
    }
    let mut points: Vec<((usize, usize), (usize, usize))> = Vec::new();
    let mut j: usize = 0;
    while j < n
        invariant
            j <= n,
            points@.len() == j,
            forall|k: int| 0 <= k < j ==> #[trigger] points@[k] == (fpr@[k], tpr@[k]),
        decreases n - j,
    {
        points.push((fpr[j], tpr[j]));
        j = j + 1;
    }
    proof {
        assert(points@ =~= paired(fpr@, tpr@));
    }
    Ok(roc_curve_canvas(&points, steps))
}

} // verus!
