//! Splitting an image into square tiles of pixels, visited in row-major tile order.
use vstd::prelude::*;

verus! {

/// Width and height of a tile, in pixels.
pub const PIXEL_TILE_SIZE: usize = 16;

/// The number of pixels in a full tile.
pub fn pixel_tile_count() -> (n: usize)
    ensures
        n == PIXEL_TILE_SIZE * PIXEL_TILE_SIZE,
{
    PIXEL_TILE_SIZE * PIXEL_TILE_SIZE
}

/// A rectangle of pixels, `start_x..end_x` by `start_y..end_y`.
#[derive(Clone, Copy, Debug, PartialEq, Eq, Structural)]
pub struct PixelTile {
    pub start_x: u32,
    pub end_x: u32,
    pub start_y: u32,
    pub end_y: u32,
}

/// The tiles of an image, handed out one after another.
pub struct PixelTiles {
    image_w: u32,
    image_h: u32,
    tile_w: u32,
    tile_index: u32,
    tile_count: u32,
}

/// Number of tiles needed to cover `len` pixels along one axis.
pub open spec fn tiles_along(len: int) -> int {
    (len + PIXEL_TILE_SIZE - 1) / (PIXEL_TILE_SIZE as int)
}

/// Number of tiles of an image of `w` by `h` pixels.
pub open spec fn tile_total(w: int, h: int) -> int {
    tiles_along(w) * tiles_along(h)
}

pub open spec fn min_int(a: int, b: int) -> int {
    if a <= b { a } else { b }
}

/// The `i`-th tile of an image of `w` by `h` pixels: tiles are numbered row by
/// row, each row holding `tiles_along(w)` tiles; tiles on the right and bottom
/// edges are cut off at the image border.
pub open spec fn tile_at(w: int, h: int, i: int) -> PixelTile {
    let tw = tiles_along(w);
    let tx = i % tw;
    let ty = i / tw;
    let size = PIXEL_TILE_SIZE as int;
    PixelTile {
        start_x: (tx * size) as u32,
        end_x: min_int(tx * size + size, w) as u32,
        start_y: (ty * size) as u32,
        end_y: min_int(ty * size + size, h) as u32,
    }
}

impl PixelTile {
    /// The pixel `(x, y)` lies in this tile.
    pub open spec fn contains(self, x: int, y: int) -> bool {
        self.start_x <= x < self.end_x && self.start_y <= y < self.end_y
    }

    /// Width of the tile in pixels.
    pub open spec fn spec_width(self) -> int {
        self.end_x - self.start_x
    }

    /// Height of the tile in pixels.
    pub open spec fn spec_height(self) -> int {
        self.end_y - self.start_y
    }
}

/// The sizes for which the tile arithmetic stays within `u32`.
pub open spec fn tileable(w: int, h: int) -> bool {
    &&& 0 < w <= u32::MAX - (PIXEL_TILE_SIZE - 1)
    &&& 0 < h <= u32::MAX - (PIXEL_TILE_SIZE - 1)
    &&& tile_total(w, h) <= u32::MAX
}

impl PixelTiles {
    pub closed spec fn image_w(self) -> int {
        self.image_w as int
    }

    pub closed spec fn image_h(self) -> int {
        self.image_h as int
    }

    /// Index of the next tile to hand out.
    pub closed spec fn next_index(self) -> int {
        self.tile_index as int
    }

    pub closed spec fn wf(self) -> bool {
        &&& tileable(self.image_w as int, self.image_h as int)
        &&& self.tile_w == tiles_along(self.image_w as int)
        &&& self.tile_count == tile_total(self.image_w as int, self.image_h as int)
        &&& self.tile_index <= self.tile_count
    }

    /// The tiles still to come, in order.
    pub open spec fn remaining(self) -> Seq<PixelTile> {
        Seq::new(
            (tile_total(self.image_w(), self.image_h()) - self.next_index()) as nat,
            |k: int| tile_at(self.image_w(), self.image_h(), self.next_index() + k),
        )
    }

    /// Starts at the first tile of an image of `image_w` by `image_h` pixels.
    pub fn new(image_w: u32, image_h: u32) -> (tiles: Self)
        requires
            tileable(image_w as int, image_h as int),
        ensures
            tiles.wf(),
            tiles.image_w() == image_w,
            tiles.image_h() == image_h,
            tiles.next_index() == 0,
            tiles.remaining().len() == tile_total(image_w as int, image_h as int),
    {
        let tile = PIXEL_TILE_SIZE as u32;
        assert(tile == 16);
        let tile_w = (image_w - 1) / tile + 1;
        let tile_h = (image_h - 1) / tile + 1;
        assert(tile_w == tiles_along(image_w as int)) by (nonlinear_arith)
            requires tile_w == (image_w - 1) / 16 + 1, image_w >= 1;
        assert(tile_h == tiles_along(image_h as int)) by (nonlinear_arith)
            requires tile_h == (image_h - 1) / 16 + 1, image_h >= 1;
        assert(tile_w * tile_h == tile_total(image_w as int, image_h as int));
        let tile_count = tile_w * tile_h;
        PixelTiles { image_w, image_h, tile_w, tile_index: 0, tile_count }
    }

    /// Hands out the next tile, or `None` once every tile has been handed out.
    pub fn next(&mut self) -> (tile: Option<PixelTile>)
        requires
            old(self).wf(),
        ensures
            final(self).wf(),
            final(self).image_w() == old(self).image_w(),
            final(self).image_h() == old(self).image_h(),
            old(self).remaining().len() == 0 ==> tile is None && final(self).next_index()
                == old(self).next_index(),
            old(self).remaining().len() > 0 ==> {
                &&& tile == Some(old(self).remaining()[0])
                &&& final(self).next_index() == old(self).next_index() + 1
                &&& final(self).remaining() == old(self).remaining().drop_first()
            },
    {
        if self.tile_index == self.tile_count {
            return None;
        }
        let tile = PIXEL_TILE_SIZE as u32;
        assert(tile == 16);
        let ghost w = self.image_w as int;
        let ghost h = self.image_h as int;
        let ghost i = self.tile_index as int;
        let tile_x = self.tile_index % self.tile_w;
        let tile_y = self.tile_index / self.tile_w;
        proof {
            lemma_tile_origin_in_image(w, h, i);
        }
        let start_x = tile_x * tile;
        let start_y = tile_y * tile;
        let end_x = if start_x + tile < self.image_w { start_x + tile } else { self.image_w };
        let end_y = if start_y + tile < self.image_h { start_y + tile } else { self.image_h };
        let ghost old_remaining = self.remaining();
        self.tile_index += 1;
        assert(self.remaining() =~= old_remaining.drop_first());
        Some(PixelTile { start_x, end_x, start_y, end_y })
    }
}

impl PixelTiles {
    /// Every tile not yet handed out, in order.
    pub fn into_vec(self) -> (v: Vec<PixelTile>)
        requires
            self.wf(),
        ensures
            v@ == self.remaining(),
    {
        let mut tiles = self;
        let mut v: Vec<PixelTile> = Vec::new();
        let ghost all = self.remaining();
        loop
            invariant
                tiles.wf(),
                tiles.image_w() == self.image_w(),
                tiles.image_h() == self.image_h(),
                self.next_index() <= tiles.next_index(),
                v@ + tiles.remaining() == all,
                all == self.remaining(),
            decreases tiles.remaining().len(),
        {
            let ghost before = tiles.remaining();
            match tiles.next() {
                Some(tile) => {
                    v.push(tile);
                    assert(v@ + tiles.remaining() =~= all) by {
                        assert(before =~= seq![tile] + tiles.remaining());
                    }
                },
                None => {
                    assert(before.len() == 0);
                    assert(v@ =~= all);
                    return v;
                },
            }
        }
    }
}

impl PixelTile {
    /// The index, in an image stored row by row `image_w` pixels wide, of each
    /// pixel of this tile, the tile being walked row by row.
    pub fn pixel_indices(&self, image_w: u32) -> (v: Vec<usize>)
        requires
            self.start_x <= self.end_x <= image_w,
            self.start_y <= self.end_y,
            self.start_x < self.end_x && self.start_y < self.end_y ==> (self.end_x - 1) + (
            self.end_y - 1) * image_w <= u32::MAX,
        ensures
            v.len() == self.spec_width() * self.spec_height(),
            forall|k: int|
                0 <= k < v.len() ==> #[trigger] v[k] == (self.start_x + k % self.spec_width()) + (
                self.start_y + k / self.spec_width()) * image_w,
    {
        let mut v: Vec<usize> = Vec::new();
        let tw = self.end_x - self.start_x;
        let mut pixel_y = self.start_y;
        while pixel_y < self.end_y
            invariant
                self.start_x <= self.end_x <= image_w,
                self.start_y <= pixel_y <= self.end_y,
                tw == self.end_x - self.start_x,
                self.start_x < self.end_x && self.start_y < self.end_y ==> (self.end_x - 1) + (
                self.end_y - 1) * image_w <= u32::MAX,
                v.len() == (pixel_y - self.start_y) * tw,
                forall|k: int|
                    0 <= k < v.len() ==> #[trigger] v[k] == (self.start_x + k % (tw as int)) + (
                    self.start_y + k / (tw as int)) * image_w,
            decreases self.end_y - pixel_y,
        {
            let mut pixel_x = self.start_x;
            let ghost row_start = v.len() as int;
            while pixel_x < self.end_x
                invariant
                    self.start_x <= pixel_x <= self.end_x <= image_w,
                    self.start_y <= pixel_y < self.end_y,
                    tw == self.end_x - self.start_x,
                    self.start_x < self.end_x ==> (self.end_x - 1) + (self.end_y - 1) * image_w
                        <= u32::MAX,
                    row_start == (pixel_y - self.start_y) * tw,
                    v.len() == row_start + (pixel_x - self.start_x),
                    forall|k: int|
                        0 <= k < v.len() ==> #[trigger] v[k] == (self.start_x + k % (tw as int)) + (
                        self.start_y + k / (tw as int)) * image_w,
                decreases self.end_x - pixel_x,
            {
                assert(pixel_x + pixel_y * image_w <= u32::MAX) by (nonlinear_arith)
                    requires
                        pixel_x < self.end_x,
                        pixel_y < self.end_y,
                        (self.end_x - 1) + (self.end_y - 1) * image_w <= u32::MAX,
                        image_w >= 0;
                let index = pixel_x + pixel_y * image_w;
                let ghost k = v.len() as int;
                let ghost dx = pixel_x - self.start_x;
                let ghost dy = pixel_y - self.start_y;
                assert(k % (tw as int) == dx && k / (tw as int) == dy) by (nonlinear_arith)
                    requires k == dy * tw + dx, 0 <= dx < tw, 0 <= dy;
                v.push(index as usize);
                pixel_x += 1;
            }
            assert(v.len() == (pixel_y + 1 - self.start_y) * tw) by (nonlinear_arith)
                requires v.len() == (pixel_y - self.start_y) * tw + tw;
            pixel_y += 1;
        }
        assert(v.len() == self.spec_width() * self.spec_height()) by (nonlinear_arith)
            requires
                v.len() == (pixel_y - self.start_y) * tw,
                pixel_y == self.end_y,
                tw == self.spec_width();
        v
    }
}

/// The first pixel of every tile of a valid index lies inside the image.
pub proof fn lemma_tile_origin_in_image(w: int, h: int, i: int)
    requires
        0 < w,
        0 < h,
        0 <= i < tile_total(w, h),
    ensures
        (i % tiles_along(w)) * 16 < w,
        (i / tiles_along(w)) * 16 < h,
        i / tiles_along(w) < tiles_along(h),
{
    let tw = tiles_along(w);
    let th = tiles_along(h);
    assert(tw >= 1);
    assert(th >= 1);
    let tx = i % tw;
    let ty = i / tw;
    assert(0 <= tx < tw) by (nonlinear_arith)
        requires tw >= 1, i >= 0, tx == i % tw;
    assert(0 <= ty < th) by (nonlinear_arith)
        requires tw >= 1, th >= 1, 0 <= i < tw * th, ty == i / tw;
    assert(tx * 16 < w) by (nonlinear_arith)
        requires 0 <= tx < tw, tw == (w + 15) / 16, w > 0;
    assert(ty * 16 < h) by (nonlinear_arith)
        requires 0 <= ty < th, th == (h + 15) / 16, h > 0;
}

/// Index of the tile that holds the pixel `(x, y)` of an image `w` pixels wide.
pub open spec fn tile_index_of(w: int, x: int, y: int) -> int {
    (y / (PIXEL_TILE_SIZE as int)) * tiles_along(w) + x / (PIXEL_TILE_SIZE as int)
}

/// Every tile of an image is a non-empty rectangle inside the image, at most
/// `PIXEL_TILE_SIZE` pixels wide and high.
pub proof fn lemma_tile_in_image(w: int, h: int, i: int)
    requires
        tileable(w, h),
        0 <= i < tile_total(w, h),
    ensures
        0 <= tile_at(w, h, i).start_x < tile_at(w, h, i).end_x <= w,
        0 <= tile_at(w, h, i).start_y < tile_at(w, h, i).end_y <= h,
        tile_at(w, h, i).spec_width() <= PIXEL_TILE_SIZE,
        tile_at(w, h, i).spec_height() <= PIXEL_TILE_SIZE,
{
    lemma_tile_origin_in_image(w, h, i);
    let tw = tiles_along(w);
    let tx = i % tw;
    let ty = i / tw;
    assert(0 <= tx) by (nonlinear_arith)
        requires tw >= 1, i >= 0, tx == i % tw;
    assert(0 <= ty) by (nonlinear_arith)
        requires tw >= 1, i >= 0, ty == i / tw;
    assert(0 <= tx * 16) by (nonlinear_arith)
        requires 0 <= tx;
    assert(0 <= ty * 16) by (nonlinear_arith)
        requires 0 <= ty;
}

/// Tiling law: every pixel of the image lies in exactly one tile, the one
/// numbered `tile_index_of(w, x, y)`.
pub proof fn lemma_tiles_partition_image(w: int, h: int, x: int, y: int)
    requires
        tileable(w, h),
        0 <= x < w,
        0 <= y < h,
    ensures
        0 <= tile_index_of(w, x, y) < tile_total(w, h),
        tile_at(w, h, tile_index_of(w, x, y)).contains(x, y),
        forall|i: int|
            0 <= i < tile_total(w, h) && #[trigger] tile_at(w, h, i).contains(x, y) ==> i
                == tile_index_of(w, x, y),
{
    let tw = tiles_along(w);
    let th = tiles_along(h);
    let qx = x / 16;
    let qy = y / 16;
    assert(0 <= qx < tw) by (nonlinear_arith)
        requires 0 <= x < w, qx == x / 16, tw == (w + 15) / 16;
    assert(0 <= qy < th) by (nonlinear_arith)
        requires 0 <= y < h, qy == y / 16, th == (h + 15) / 16;
    let k = qy * tw + qx;
    assert(k == tile_index_of(w, x, y));
    assert(0 <= k < tw * th) by (nonlinear_arith)
        requires 0 <= qx < tw, 0 <= qy < th, k == qy * tw + qx;
    assert(k % tw == qx && k / tw == qy) by (nonlinear_arith)
        requires 0 <= qx < tw, 0 <= qy, k == qy * tw + qx;
    assert(qx * 16 <= x < qx * 16 + 16) by (nonlinear_arith)
        requires 0 <= x, qx == x / 16;
    assert(qy * 16 <= y < qy * 16 + 16) by (nonlinear_arith)
        requires 0 <= y, qy == y / 16;
    lemma_tile_in_image(w, h, k);
    assert forall|i: int|
        0 <= i < tile_total(w, h) && #[trigger] tile_at(w, h, i).contains(x, y) implies i == k by {
        lemma_tile_in_image(w, h, i);
        lemma_tile_origin_in_image(w, h, i);
        let tx = i % tw;
        let ty = i / tw;
        assert(0 <= tx && 0 <= ty) by (nonlinear_arith)
            requires tw >= 1, i >= 0, tx == i % tw, ty == i / tw;
        assert(tx * 16 <= x < tx * 16 + 16);
        assert(ty * 16 <= y < ty * 16 + 16);
        assert(tx == qx) by (nonlinear_arith)
            requires tx * 16 <= x < tx * 16 + 16, qx == x / 16, 0 <= x;
        assert(ty == qy) by (nonlinear_arith)
            requires ty * 16 <= y < ty * 16 + 16, qy == y / 16, 0 <= y;
        assert(i == ty * tw + tx) by (nonlinear_arith)
            requires tw >= 1, i >= 0, tx == i % tw, ty == i / tw;
    }
}

/// Tiling law, on the tiles that a fresh `PixelTiles` hands out: each pixel of
/// the image is in exactly one of them.
pub proof fn lemma_fresh_tiles_cover_each_pixel_once(tiles: PixelTiles, x: int, y: int)
    requires
        tiles.wf(),
        tiles.next_index() == 0,
        0 <= x < tiles.image_w(),
        0 <= y < tiles.image_h(),
    ensures
        exists|k: int| 0 <= k < tiles.remaining().len() && (#[trigger] tiles.remaining()[k]).contains(x, y),
        forall|k1: int, k2: int|
            0 <= k1 < tiles.remaining().len() && 0 <= k2 < tiles.remaining().len()
                && (#[trigger] tiles.remaining()[k1]).contains(x, y)
                && (#[trigger] tiles.remaining()[k2]).contains(x, y) ==> k1 == k2,
{
    let w = tiles.image_w();
    let h = tiles.image_h();
    lemma_tiles_partition_image(w, h, x, y);
    let k = tile_index_of(w, x, y);
    assert(tiles.remaining()[k] == tile_at(w, h, k));
}

} // verus!
