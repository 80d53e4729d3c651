//! The size of the intro art, and the outline of its filled cells.

use vstd::prelude::*;

verus! {

/// The sizes in which the intro art can be drawn.
#[derive(Clone, Copy, Debug, PartialEq, Eq, Structural)]
pub enum IntroArtSize {
    Large,
    Medium,
    Small,
    Tiny,
}

pub const LARGE_MIN_WIDTH: u16 = 80;

pub const MEDIUM_MIN_WIDTH: u16 = 56;

pub const SMALL_MIN_WIDTH: u16 = 50;

pub const LARGE_MIN_HEIGHT: u16 = 28;

pub const MEDIUM_MIN_HEIGHT: u16 = 21;

pub const SMALL_MIN_HEIGHT: u16 = 19;

/// The number of rows that the logo takes.
pub const INTRO_LOGO_HEIGHT: u16 = 6;

/// The largest size whose least width `width` reaches.
pub open spec fn size_for_width(width: u16) -> IntroArtSize {
    if width >= LARGE_MIN_WIDTH {
        IntroArtSize::Large
    } else if width >= MEDIUM_MIN_WIDTH {
        IntroArtSize::Medium
    } else if width >= SMALL_MIN_WIDTH {
        IntroArtSize::Small
    } else {
        IntroArtSize::Tiny
    }
}

/// The largest size whose least width and least height the area reaches.
pub open spec fn size_for_area(width: u16, height: u16) -> IntroArtSize {
    if width >= LARGE_MIN_WIDTH && height >= LARGE_MIN_HEIGHT {
        IntroArtSize::Large
    } else if width >= MEDIUM_MIN_WIDTH && height >= MEDIUM_MIN_HEIGHT {
        IntroArtSize::Medium
    } else if width >= SMALL_MIN_WIDTH && height >= SMALL_MIN_HEIGHT {
        IntroArtSize::Small
    } else {
        IntroArtSize::Tiny
    }
}

/// Returns the size of the intro art for a terminal that is `width` columns
/// wide.
pub fn intro_art_size_for_width(width: u16) -> (size: IntroArtSize)
    ensures
        size == size_for_width(width),
{
    if width >= LARGE_MIN_WIDTH {
        IntroArtSize::Large
    } else if width >= MEDIUM_MIN_WIDTH {
        IntroArtSize::Medium
    } else if width >= SMALL_MIN_WIDTH {
        IntroArtSize::Small
    } else {
        IntroArtSize::Tiny
    }
}

/// Returns the size of the intro art for an area of `width` columns and
/// `height` rows.
pub fn intro_art_size_for_area(width: u16, height: u16) -> (size: IntroArtSize)
    ensures
        size == size_for_area(width, height),
{
    if width >= LARGE_MIN_WIDTH && height >= LARGE_MIN_HEIGHT {
        IntroArtSize::Large
    } else if width >= MEDIUM_MIN_WIDTH && height >= MEDIUM_MIN_HEIGHT {
        IntroArtSize::Medium
    } else if width >= SMALL_MIN_WIDTH && height >= SMALL_MIN_HEIGHT {
        IntroArtSize::Small
    } else {
        IntroArtSize::Tiny
    }
}

/// Returns the number of rows that the intro art takes. Every size draws
/// the same logo.
pub fn intro_art_height(size: IntroArtSize) -> (height: u16)
    ensures
        height == INTRO_LOGO_HEIGHT,
{
    INTRO_LOGO_HEIGHT
}

/// The grid is a rectangle of `width` columns.
pub open spec fn is_grid(mask: Seq<Vec<bool>>, width: int) -> bool {
    forall|y: int| 0 <= y < mask.len() ==> (#[trigger] mask[y]).len() == width
}

/// Every row of the grid has at least `width` columns.
pub open spec fn covers_width(mask: Seq<Vec<bool>>, width: int) -> bool {
    forall|y: int| 0 <= y < mask.len() ==> (#[trigger] mask[y]).len() >= width
}

/// The cell is filled. A place outside the first `width` columns, or
/// outside the rows, is not.
pub open spec fn filled(mask: Seq<Vec<bool>>, width: int, x: int, y: int) -> bool {
    0 <= y < mask.len() && 0 <= x < width && x < mask[y].len() && mask[y][x]
}

/// The cell lies on the outline: it is filled, and one of the four places
/// next to it is not.
pub open spec fn on_border(mask: Seq<Vec<bool>>, width: int, x: int, y: int) -> bool {
    filled(mask, width, x, y) && (!filled(mask, width, x, y - 1) || !filled(mask, width, x, y + 1)
        || !filled(mask, width, x - 1, y) || !filled(mask, width, x + 1, y))
}

/// Builds a row of `width` cells that are not filled.
fn empty_row(width: usize) -> (row: Vec<bool>)
    ensures
        row.len() == width,
        forall|x: int| 0 <= x < width ==> !row[x],
{
    let mut row: Vec<bool> = Vec::new();
    for x in 0..width
        invariant
            row.len() == x,
            forall|k: int| 0 <= k < x ==> !row[k],
    {
        row.push(false);
    }
    row
}

/// Marks the outline of the filled cells of a grid. The grid is as wide as
/// its first row, and what a longer row holds beyond that is left aside. The
/// result has the grid's shape, and a cell of it is set exactly where the
/// grid's cell is filled and touches a place that is not.
pub fn compute_border(mask: &Vec<Vec<bool>>) -> (border: Vec<Vec<bool>>)
    requires
        mask.len() > 0,
        covers_width(mask@, mask[0].len() as int),
    ensures
        border.len() == mask.len(),
        is_grid(border@, mask[0].len() as int),
        forall|x: int, y: int|
            0 <= y < mask.len() && 0 <= x < mask[0].len() ==> #[trigger] border[y][x] == on_border(
                mask@,
                mask[0].len() as int,
                x,
                y,
            ),
{
    let h = mask.len();
    let w = mask[0].len();
    let mut out: Vec<Vec<bool>> = Vec::new();
    for y in 0..h
        invariant
            h == mask.len(),
            w == mask[0].len(),
            covers_width(mask@, w as int),
            out.len() == y,
            is_grid(out@, w as int),
            forall|x: int, k: int|
                0 <= k < y && 0 <= x < w ==> #[trigger] out[k][x] == on_border(
                    mask@,
                    w as int,
                    x,
                    k,
                ),
    {
        let mut row = empty_row(w);
        for x in 0..w
            invariant
                h == mask.len(),
                w == mask[0].len(),
                y < h,
                covers_width(mask@, w as int),
                row.len() == w,
                forall|k: int|
                    0 <= k < x ==> #[trigger] row[k] == on_border(mask@, w as int, k, y as int),
                forall|k: int| x <= k < w ==> !(#[trigger] row[k]),
        {
            assert(mask@[y as int].len() >= w);
            if mask[y][x] {
                let up = y == 0 || !mask[y - 1][x];
                let down = y + 1 >= h || !mask[y + 1][x];
                let left = x == 0 || !mask[y][x - 1];
                let right = x + 1 >= w || !mask[y][x + 1];
                if up || down || left || right {
                    row.set(x, true);
                }
            }
        }
        out.push(row);
    }
    out
}

/// The character at a place of the art, and a blank where the line is too
/// short.
pub open spec fn art_cell(lines: Seq<Vec<char>>, x: int, y: int) -> char {
    if 0 <= x < lines[y].len() {
        lines[y][x]
    } else {
        ' '
    }
}

/// The width of the art: the length of its longest line.
pub open spec fn is_art_width(lines: Seq<Vec<char>>, width: int) -> bool {
    &&& forall|y: int| 0 <= y < lines.len() ==> (#[trigger] lines[y]).len() <= width
    &&& lines.len() == 0 ==> width == 0
    &&& lines.len() > 0 ==> exists|y: int| 0 <= y < lines.len() && (#[trigger] lines[y]).len() == width
}

/// The cell is animated: it lies on its line, and its character is one of
/// the animated ones.
pub open spec fn is_animated_cell(
    lines: Seq<Vec<char>>,
    animated_chars: Seq<char>,
    x: int,
    y: int,
) -> bool {
    0 <= x < lines[y].len() && animated_chars.contains(lines[y][x])
}

/// The cell belongs to the shadow: it lies on its line, and its character is
/// neither animated nor a blank.
pub open spec fn is_shadow_cell(
    lines: Seq<Vec<char>>,
    animated_chars: Seq<char>,
    x: int,
    y: int,
) -> bool {
    0 <= x < lines[y].len() && !animated_chars.contains(lines[y][x]) && lines[y][x] != ' '
}

/// The masks of a piece of art.
pub struct ArtMasks {
    /// The character of every cell.
    pub chars: Vec<Vec<char>>,
    /// The cells that are animated.
    pub animated: Vec<Vec<bool>>,
    /// The cells that are drawn but not animated.
    pub shadow: Vec<Vec<bool>>,
    pub width: usize,
    pub height: usize,
}

/// Tells whether `c` is one of `chars`.
fn contains_char(chars: &Vec<char>, c: char) -> (r: bool)
    ensures
        r == chars@.contains(c),
{
    for i in 0..chars.len()
        invariant
            forall|k: int| 0 <= k < i ==> chars[k] != c,
    {
        if chars[i] == c {
            return true;
        }
    }
    false
}

/// Returns the length of the longest line.
fn art_width(lines: &Vec<Vec<char>>) -> (width: usize)
    ensures
        is_art_width(lines@, width as int),
{
    let mut width: usize = 0;
    for y in 0..lines.len()
        invariant
            forall|k: int| 0 <= k < y ==> (#[trigger] lines[k]).len() <= width,
            y == 0 ==> width == 0,
            y > 0 ==> exists|k: int| 0 <= k < y && (#[trigger] lines[k]).len() == width,
    {
        if lines[y].len() > width || y == 0 {
            width = lines[y].len();
        }
    }
    width
}

/// Lays a piece of art out as masks of one width: every line is filled up
/// with blanks, a cell is animated where its character is one of
/// `animated_chars`, and it belongs to the shadow where it is neither
/// animated nor blank.
pub fn lines_masks(lines: &Vec<Vec<char>>, animated_chars: &Vec<char>) -> (masks: ArtMasks)
    ensures
        masks.height == lines.len(),
        is_art_width(lines@, masks.width as int),
        masks.chars.len() == lines.len(),
        masks.animated.len() == lines.len(),
        masks.shadow.len() == lines.len(),
        forall|y: int| 0 <= y < lines.len() ==> (#[trigger] masks.chars[y]).len() == masks.width,
        forall|y: int| 0 <= y < lines.len() ==> (#[trigger] masks.animated[y]).len() == masks.width,
        forall|y: int| 0 <= y < lines.len() ==> (#[trigger] masks.shadow[y]).len() == masks.width,
        forall|x: int, y: int|
            0 <= y < lines.len() && 0 <= x < masks.width ==> #[trigger] masks.chars[y][x]
                == art_cell(lines@, x, y),
        forall|x: int, y: int|
            0 <= y < lines.len() && 0 <= x < masks.width ==> #[trigger] masks.animated[y][x]
                == is_animated_cell(lines@, animated_chars@, x, y),
        forall|x: int, y: int|
            0 <= y < lines.len() && 0 <= x < masks.width ==> #[trigger] masks.shadow[y][x]
                == is_shadow_cell(lines@, animated_chars@, x, y),
{
    let height = lines.len();
    let width = art_width(lines);
    let mut chars: Vec<Vec<char>> = Vec::new();
    let mut animated: Vec<Vec<bool>> = Vec::new();
    let mut shadow: Vec<Vec<bool>> = Vec::new();
    for y in 0..height
        invariant
            height == lines.len(),
            is_art_width(lines@, width as int),
            chars.len() == y,
            animated.len() == y,
            shadow.len() == y,
            forall|k: int| 0 <= k < y ==> (#[trigger] chars[k]).len() == width,
            forall|k: int| 0 <= k < y ==> (#[trigger] animated[k]).len() == width,
            forall|k: int| 0 <= k < y ==> (#[trigger] shadow[k]).len() == width,
            forall|x: int, k: int|
                0 <= k < y && 0 <= x < width ==> #[trigger] chars[k][x] == art_cell(lines@, x, k),
            forall|x: int, k: int|
                0 <= k < y && 0 <= x < width ==> #[trigger] animated[k][x] == is_animated_cell(
                    lines@,
                    animated_chars@,
                    x,
                    k,
                ),
            forall|x: int, k: int|
                0 <= k < y && 0 <= x < width ==> #[trigger] shadow[k][x] == is_shadow_cell(
                    lines@,
                    animated_chars@,
                    x,
                    k,
                ),
    {
        let line = &lines[y];
        let mut char_row: Vec<char> = Vec::new();
        let mut anim_row: Vec<bool> = Vec::new();
        let mut shadow_row: Vec<bool> = Vec::new();
        for x in 0..width
            invariant
                y < lines.len(),
                line == lines[y as int],
                char_row.len() == x,
                anim_row.len() == x,
                shadow_row.len() == x,
                forall|k: int| 0 <= k < x ==> #[trigger] char_row[k] == art_cell(lines@, k, y as int),
                forall|k: int|
                    0 <= k < x ==> #[trigger] anim_row[k] == is_animated_cell(
                        lines@,
                        animated_chars@,
                        k,
                        y as int,
                    ),
                forall|k: int|
                    0 <= k < x ==> #[trigger] shadow_row[k] == is_shadow_cell(
                        lines@,
                        animated_chars@,
                        k,
                        y as int,
                    ),
        {
            if x < line.len() {
                let ch = line[x];
                let is_animated = contains_char(animated_chars, ch);
                char_row.push(ch);
                anim_row.push(is_animated);
                shadow_row.push(!is_animated && ch != ' ');
            } else {
                char_row.push(' ');
                anim_row.push(false);
                shadow_row.push(false);
            }
        }
        chars.push(char_row);
        animated.push(anim_row);
        shadow.push(shadow_row);
    }
    ArtMasks { chars, animated, shadow, width, height }
}

} // verus!
