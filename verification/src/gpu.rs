//! The frame compositor: reads the video I/O registers, palette RAM,
//! video RAM and object-attribute memory, and rasters tile layers,
//! sprites and bitmap layers into a 240 by 160 RGB buffer, three bytes a
//! pixel, row-major.
#![allow(non_snake_case)]
use vstd::prelude::*;

use crate::mem::{spec_read_byte, spec_read_hw, spec_write_hw, Mem};

verus! {

broadcast use crate::cpu::lemma_and_mask_bound_u16;

/// First byte of palette RAM.
pub const PRAM_START: usize = 0x05000000;

/// First byte of video RAM, which holds tile data, tile maps and bitmaps.
pub const TILE_DATA_ADDR: usize = 0x06000000;

/// First byte of object-attribute memory.
pub const OAM_START: usize = 0x07000000;

/// First byte of the sprite tile data in video RAM.
pub const SPRITE_TILE_DATA_ADDR: usize = 0x06010000;

/// First byte of the sprite half of palette RAM.
pub const SPRITE_PRAM_ADDR: usize = 0x05000200;

/// The display-control register.
pub const REG_DISPCNT_ADDR: usize = 0x04000000;

/// The display-status register.
pub const REG_DISPSTAT_ADDR: usize = 0x04000004;

/// The vertical-counter register.
pub const REG_VCOUNT_ADDR: usize = 0x04000006;

/// Cycles in one full frame.
pub const FRAME_CYCLES: usize = 280896;

/// Cycles in one scanline.
pub const SCANLINE_CYCLES: usize = 1232;

/// Cycles of the visible part of a scanline.
pub const H_BLANK_CYCLES: usize = 1004;

/// Cycles of the visible part of a frame.
pub const V_BLANK_CYCLES: usize = 197120;

/// Bytes in the 240 by 160 RGB framebuffer.
pub const FRAME_BYTES: usize = 115200;

/// A 16-bit I/O register seen through the bus: the last value read or
/// written, and its bus address.
pub struct Register {
    pub value: u16,
    pub address: usize,
}

impl Register {
    /// Reads the register's current value from the bus.
    pub fn getValue(&mut self, mem: &Mem) -> (r: u16)
        requires
            old(self).address <= u32::MAX,
        ensures
            r == spec_read_hw(mem@, old(self).address as int),
            final(self).value == r,
            final(self).address == old(self).address,
    {
        self.value = mem.read_halfword(self.address as u32);
        self.value
    }

    /// Reads bit `n` of the register from the bus.
    pub fn getBit(&mut self, n: u16, mem: &Mem) -> (r: u16)
        requires
            old(self).address <= u32::MAX,
            n < 16,
        ensures
            r == (spec_read_hw(mem@, old(self).address as int) >> n) & 1,
            final(self).value == spec_read_hw(mem@, old(self).address as int),
            final(self).address == old(self).address,
    {
        self.value = mem.read_halfword(self.address as u32);
        (self.value >> n) & 1
    }

    /// Reads the field of `num_bits` bits starting at `start` from the bus.
    pub fn getBits(&mut self, start: u16, num_bits: u16, mem: &Mem) -> (r: u16)
        requires
            old(self).address <= u32::MAX,
            start < 16,
            0 < num_bits < 16,
        ensures
            r == (spec_read_hw(mem@, old(self).address as int) >> start) % (1u16 << num_bits),
            final(self).value == spec_read_hw(mem@, old(self).address as int),
            final(self).address == old(self).address,
    {
        self.value = mem.read_halfword(self.address as u32);
        proof {
            assert(1u16 << num_bits > 0) by (bit_vector)
                requires
                    num_bits < 16,
            ;
        }
        (self.value >> start) % (1u16 << num_bits)
    }

    /// Writes `v` to the register through the bus.
    pub fn setValue(&mut self, v: u16, mem: &mut Mem)
        requires
            old(self).address <= u32::MAX,
        ensures
            final(mem)@ == spec_write_hw(old(mem)@, old(self).address as int, v),
            final(self).value == v,
            final(self).address == old(self).address,
    {
        self.value = v;
        mem.write_halfword(self.address as u32, v);
    }

    /// Forces bit `n` of the cached value to `v` (zero or one) and writes
    /// the value back through the bus.
    pub fn setBit(&mut self, v: u8, n: u8, mem: &mut Mem)
        requires
            old(self).address <= u32::MAX,
            n < 16,
        ensures
            final(self).value == (if v == 0 {
                old(self).value & !(1u16 << (n as u16))
            } else if v == 1 {
                old(self).value | (1u16 << (n as u16))
            } else {
                old(self).value
            }),
            final(mem)@ == spec_write_hw(old(mem)@, old(self).address as int, final(self).value),
            final(self).address == old(self).address,
    {
        if v == 0 {
            self.value = self.value & !(1u16 << (n as u16));
        } else if v == 1 {
            self.value = self.value | (1u16 << (n as u16));
        }
        mem.write_halfword(self.address as u32, self.value);
    }
}

/// The background-control register address of layer `bg`.
pub open spec fn spec_bg_cnt_addr(bg: int) -> int {
    0x04000008 + 2 * bg
}

/// The horizontal-offset register address of layer `bg`.
pub open spec fn spec_bg_hoff_addr(bg: int) -> int {
    0x4000010 + 4 * bg
}

/// The vertical-offset register address of layer `bg`.
pub open spec fn spec_bg_voff_addr(bg: int) -> int {
    0x4000012 + 4 * bg
}

/// The tile chosen by the pixel coordinate under the layer's screen-size
/// mode; the largest mode shares the first map block.
pub open spec fn spec_bg_tile(sizeMode: int, xs: int, ys: int) -> int {
    if sizeMode == 0 {
        (ys % 256) / 8 * 32 + (xs % 256) / 8
    } else if sizeMode == 1 {
        if xs % 512 < 256 {
            (ys % 256) / 8 * 32 + (xs % 512) / 8
        } else {
            1024 + (ys % 256) / 8 * 32 + (xs % 256) / 8
        }
    } else if sizeMode == 2 {
        (ys % 512) / 8 * 32 + (xs % 256) / 8
    } else {
        0
    }
}

/// The 15-bit color of one background pixel: the offset coordinate picks
/// a tile entry in the screen-base table; the entry names a tile, its
/// flips and (in 16-color mode) a palette; the in-tile pixel indexes the
/// character base for a 4- or 8-bit palette index; palette RAM gives the
/// color.
pub open spec fn spec_pixel_color(m: Seq<u8>, x: int, y: int, bg: int) -> u16 {
    let bgcnt = spec_read_hw(m, spec_bg_cnt_addr(bg));
    let xOffset = spec_read_hw(m, spec_bg_hoff_addr(bg)) as int;
    let yOffset = spec_read_hw(m, spec_bg_voff_addr(bg)) as int;
    let charBase = ((bgcnt >> 2) % 4) as int;
    let screenBase = ((bgcnt >> 8) % 32) as int;
    let sizeMode = ((bgcnt >> 14) % 4) as int;
    let colorMode = (bgcnt >> 7) & 1;
    let currentTile = spec_bg_tile(sizeMode, xOffset + x, yOffset + y);
    let currentTileData = spec_read_hw(m, TILE_DATA_ADDR + screenBase * 2048 + 2 * currentTile);
    let xw0 = (xOffset + x) % 8;
    let yw0 = (yOffset + y) % 8;
    let xw = if (currentTileData >> 10) % 2 == 1 {
        7 - xw0
    } else {
        xw0
    };
    let yw = if (currentTileData >> 11) % 2 == 1 {
        7 - yw0
    } else {
        yw0
    };
    let pixelNum = yw * 8 + xw;
    if colorMode == 1 {
        let data = spec_read_byte(
            m,
            TILE_DATA_ADDR + charBase * 0x4000 + (currentTileData & 0xff) * 0x40 + pixelNum,
        );
        spec_read_hw(m, PRAM_START + data * 2)
    } else {
        let b = spec_read_byte(
            m,
            TILE_DATA_ADDR + charBase * 0x4000 + (currentTileData & 0xff) * 0x20 + pixelNum / 2,
        );
        let data = if pixelNum % 2 == 0 {
            b & 0b1111
        } else {
            b >> 4
        };
        spec_read_hw(m, PRAM_START + (currentTileData >> 12) * 32 + data * 2)
    }
}

/// Computes the 15-bit color of one pixel of a tiled background layer;
/// the affine path is not rasterized and reads the zeroth tile.
pub fn getCurrentPixelColor(x: usize, y: usize, bgNum: usize, affine: bool, mem: &mut Mem) -> (r:
    u16)
    requires
        x < 240,
        y < 160,
        bgNum < 4,
    ensures
        final(mem)@ == old(mem)@,
        !affine ==> r == spec_pixel_color(old(mem)@, x as int, y as int, bgNum as int),
{
    let bgcnt = mem.read_halfword((0x04000008 + 2 * bgNum) as u32);
    let xOffset = mem.read_halfword((0x4000010 + 4 * bgNum) as u32) as usize;
    let yOffset = mem.read_halfword((0x4000012 + 4 * bgNum) as u32) as usize;
    let charBase = ((bgcnt >> 2) % 4) as usize;
    let screenBase = ((bgcnt >> 8) % 32) as usize;
    let sizeMode = ((bgcnt >> 14) % 4) as usize;
    let colorMode = (bgcnt >> 7) & 1;

    let mut currentTile: usize = 0;
    let mut xWithinTile: usize = 0;
    let mut yWithinTile: usize = 0;
    if !affine {
        if sizeMode == 0 {
            currentTile = (yOffset + y) % 256 / 8 * 32 + (xOffset + x) % 256 / 8;
        } else if sizeMode == 1 {
            if (xOffset + x) % 512 < 256 {
                currentTile = (yOffset + y) % 256 / 8 * 32 + (xOffset + x) % 512 / 8;
            } else {
                currentTile = 1024 + (yOffset + y) % 256 / 8 * 32 + (xOffset + x) % 256 / 8;
            }
        } else if sizeMode == 2 {
            currentTile = (yOffset + y) % 512 / 8 * 32 + (xOffset + x) % 256 / 8;
        }
        xWithinTile = (xOffset + x) % 8;
        yWithinTile = (yOffset + y) % 8;
    }
    let currentTileData = mem.read_halfword(
        (TILE_DATA_ADDR + screenBase * 2048 + 2 * currentTile) as u32,
    );
    if !affine {
        if (currentTileData >> 10) % 2 == 1 {
            xWithinTile = 7 - xWithinTile;
        }
        if (currentTileData >> 11) % 2 == 1 {
            yWithinTile = 7 - yWithinTile;
        }
    }
    let currentPixelNum: usize = yWithinTile * 8 + xWithinTile;
    if colorMode == 1 {
        let data = mem.read_byte(
            (TILE_DATA_ADDR + charBase * 0x4000 + (currentTileData & 0xff) as usize * 0x40
                + currentPixelNum) as u32,
        );
        mem.read_halfword((PRAM_START + (data as usize) * 2) as u32)
    } else {
        let b = mem.read_byte(
            (TILE_DATA_ADDR + charBase * 0x4000 + (currentTileData & 0xff) as usize * 0x20
                + currentPixelNum / 2) as u32,
        );
        let data = if currentPixelNum % 2 == 0 {
            b & 0b1111
        } else {
            b >> 4
        };
        mem.read_halfword(
            (PRAM_START + ((currentTileData >> 12) as usize) * 32 + (data as usize) * 2) as u32,
        )
    }
}

/// The red component of a 15-bit color, scaled to eight bits.
pub open spec fn spec_red(c: u16) -> u8 {
    (((c & 0b11111) as u8) << 3) as u8
}

/// The green component of a 15-bit color, scaled to eight bits.
pub open spec fn spec_green(c: u16) -> u8 {
    ((((c >> 5) & 0b11111) as u8) << 3) as u8
}

/// The blue component of a 15-bit color, scaled to eight bits.
pub open spec fn spec_blue(c: u16) -> u8 {
    ((((c >> 10) & 0b11111) as u8) << 3) as u8
}

/// Whether a 15-bit color is drawn at all: all-black pixels are treated
/// as transparent by the layer painters.
pub open spec fn spec_opaque(c: u16) -> bool {
    c & 0b11111 != 0 || (c >> 5) & 0b11111 != 0 || (c >> 10) & 0b11111 != 0
}

/// The framebuffer after painting one pixel of color `c` at `(x, y)`:
/// its three bytes are overwritten when the color is drawn.
pub open spec fn spec_put_pixel(buf: Seq<u8>, x: int, y: int, c: u16) -> Seq<u8> {
    if spec_opaque(c) {
        buf.update((y * 240 + x) * 3, spec_red(c)).update((y * 240 + x) * 3 + 1, spec_green(c))
            .update((y * 240 + x) * 3 + 2, spec_blue(c))
    } else {
        buf
    }
}

/// The framebuffer after painting the first `k` pixels, in row-major
/// order, of background layer `bg`.
pub open spec fn spec_tile_layer(buf: Seq<u8>, m: Seq<u8>, bg: int, k: int) -> Seq<u8>
    decreases k,
{
    if k <= 0 {
        buf
    } else {
        let prev = spec_tile_layer(buf, m, bg, k - 1);
        spec_put_pixel(prev, (k - 1) % 240, (k - 1) / 240, spec_pixel_color(m, (k - 1) % 240, (k
            - 1) / 240, bg))
    }
}

/// Paints one 240 by 160 tiled background layer over the framebuffer;
/// all-black pixels leave the buffer untouched.
#[verifier::loop_isolation(false)]
pub fn addBGTileLayer(bgNum: usize, screen: &mut Vec<u8>, mem: &mut Mem)
    requires
        bgNum < 4,
        old(screen)@.len() == FRAME_BYTES,
    ensures
        final(mem)@ == old(mem)@,
        final(screen)@.len() == FRAME_BYTES,
        final(screen)@ == spec_tile_layer(old(screen)@, old(mem)@, bgNum as int, 38400),
{
    let ghost buf0 = screen@;
    let ghost m0 = mem@;
    let mut k: usize = 0;
    while k < 38400
        invariant
            k <= 38400,
            mem@ == m0,
            screen@.len() == FRAME_BYTES,
            screen@ == spec_tile_layer(buf0, m0, bgNum as int, k as int),
        decreases 38400 - k,
    {
        let x = k % 240;
        let y = k / 240;
        let c = getCurrentPixelColor(x, y, bgNum, false, mem);
        let red = ((c & 0b11111) as u8) << 3;
        let green = (((c >> 5) & 0b11111) as u8) << 3;
        let blue = (((c >> 10) & 0b11111) as u8) << 3;
        if c & 0b11111 != 0 || (c >> 5) & 0b11111 != 0 || (c >> 10) & 0b11111 != 0 {
            screen[(y * 240 + x) * 3] = red;
            screen[(y * 240 + x) * 3 + 1] = green;
            screen[(y * 240 + x) * 3 + 2] = blue;
        }
        k = k + 1;
    }
}

/// The framebuffer after painting the first `k` pixels, in column-major
/// order, of the direct-color bitmap layer: 240 colors a row, read from
/// consecutive video-RAM halfwords at the layer offset.
pub open spec fn spec_bitmap_layer(buf: Seq<u8>, m: Seq<u8>, k: int) -> Seq<u8>
    decreases k,
{
    if k <= 0 {
        buf
    } else {
        let prev = spec_bitmap_layer(buf, m, k - 1);
        let x = (k - 1) / 160;
        let y = (k - 1) % 160;
        let xOffset = spec_read_hw(m, spec_bg_hoff_addr(2)) as int;
        let yOffset = spec_read_hw(m, spec_bg_voff_addr(2)) as int;
        let c = spec_read_hw(m, TILE_DATA_ADDR + ((yOffset + y) * 240 + (xOffset + x)) * 2);
        spec_put_pixel(prev, x, y, c)
    }
}

/// Paints the direct-color bitmap layer over the framebuffer.
#[verifier::loop_isolation(false)]
pub fn addBGBitmapLayer(screen: &mut Vec<u8>, mem: &mut Mem)
    requires
        old(screen)@.len() == FRAME_BYTES,
    ensures
        final(mem)@ == old(mem)@,
        final(screen)@.len() == FRAME_BYTES,
        final(screen)@ == spec_bitmap_layer(old(screen)@, old(mem)@, 38400),
{
    let ghost buf0 = screen@;
    let ghost m0 = mem@;
    let xOffset = mem.read_halfword(0x4000018) as usize;
    let yOffset = mem.read_halfword(0x400001A) as usize;
    let mut k: usize = 0;
    while k < 38400
        invariant
            k <= 38400,
            mem@ == m0,
            screen@.len() == FRAME_BYTES,
            xOffset == spec_read_hw(m0, spec_bg_hoff_addr(2)),
            yOffset == spec_read_hw(m0, spec_bg_voff_addr(2)),
            screen@ == spec_bitmap_layer(buf0, m0, k as int),
        decreases 38400 - k,
    {
        let x = k / 160;
        let y = k % 160;
        let c = mem.read_halfword(
            (TILE_DATA_ADDR + ((yOffset + y) * 240 + (xOffset + x)) * 2) as u32,
        );
        let red = ((c & 0b11111) as u8) << 3;
        let green = (((c >> 5) & 0b11111) as u8) << 3;
        let blue = (((c >> 10) & 0b11111) as u8) << 3;
        if c & 0b11111 != 0 || (c >> 5) & 0b11111 != 0 || (c >> 10) & 0b11111 != 0 {
            screen[(y * 240 + x) * 3] = red;
            screen[(y * 240 + x) * 3 + 1] = green;
            screen[(y * 240 + x) * 3 + 2] = blue;
        }
        k = k + 1;
    }
}


/// The second bitmap page sits this far into video RAM.
pub const PAGE_STRIDE: usize = 0xA000;

/// The framebuffer after painting the first `k` pixels, in column-major
/// order, of a palette-indexed bitmap page: 240 bytes a row, each a
/// palette index resolved through palette RAM.
pub open spec fn spec_indexed_bitmap_layer(buf: Seq<u8>, m: Seq<u8>, page: bool, k: int) -> Seq<
    u8,
>
    decreases k,
{
    if k <= 0 {
        buf
    } else {
        let prev = spec_indexed_bitmap_layer(buf, m, page, k - 1);
        let x = (k - 1) / 160;
        let y = (k - 1) % 160;
        let base = TILE_DATA_ADDR + if page {
            PAGE_STRIDE as int
        } else {
            0
        };
        let xOffset = spec_read_hw(m, spec_bg_hoff_addr(2)) as int;
        let yOffset = spec_read_hw(m, spec_bg_voff_addr(2)) as int;
        let data = spec_read_byte(m, base + (yOffset + y) * 240 + (xOffset + x));
        let c = spec_read_hw(m, PRAM_START + data * 2);
        spec_put_pixel(prev, x, y, c)
    }
}

/// Paints a palette-indexed bitmap page over the framebuffer; `page`
/// selects the second of the two framebuffers.
#[verifier::loop_isolation(false)]
pub fn addBGIndexedBitmapLayer(screen: &mut Vec<u8>, mem: &mut Mem, page: bool)
    requires
        old(screen)@.len() == FRAME_BYTES,
    ensures
        final(mem)@ == old(mem)@,
        final(screen)@.len() == FRAME_BYTES,
        final(screen)@ == spec_indexed_bitmap_layer(old(screen)@, old(mem)@, page, 38400),
{
    let ghost buf0 = screen@;
    let ghost m0 = mem@;
    let base: usize = TILE_DATA_ADDR + if page {
        PAGE_STRIDE
    } else {
        0
    };
    let xOffset = mem.read_halfword(0x4000018) as usize;
    let yOffset = mem.read_halfword(0x400001A) as usize;
    let mut k: usize = 0;
    while k < 38400
        invariant
            k <= 38400,
            mem@ == m0,
            screen@.len() == FRAME_BYTES,
            base == TILE_DATA_ADDR + if page {
                PAGE_STRIDE as int
            } else {
                0
            },
            xOffset == spec_read_hw(m0, spec_bg_hoff_addr(2)),
            yOffset == spec_read_hw(m0, spec_bg_voff_addr(2)),
            screen@ == spec_indexed_bitmap_layer(buf0, m0, page, k as int),
        decreases 38400 - k,
    {
        let x = k / 160;
        let y = k % 160;
        let data = mem.read_byte((base + (yOffset + y) * 240 + (xOffset + x)) as u32);
        let c = mem.read_halfword((PRAM_START + (data as usize) * 2) as u32);
        let red = ((c & 0b11111) as u8) << 3;
        let green = (((c >> 5) & 0b11111) as u8) << 3;
        let blue = (((c >> 10) & 0b11111) as u8) << 3;
        if c & 0b11111 != 0 || (c >> 5) & 0b11111 != 0 || (c >> 10) & 0b11111 != 0 {
            screen[(y * 240 + x) * 3] = red;
            screen[(y * 240 + x) * 3 + 1] = green;
            screen[(y * 240 + x) * 3 + 2] = blue;
        }
        k = k + 1;
    }
}

/// The pixel dimensions of a sprite, from its shape and size fields; the
/// reserved shape has no pixels.
pub open spec fn spec_sprite_dims(shape: u16, size: u16) -> (u16, u16) {
    if shape == 0 {
        if size == 0 {
            (8, 8)
        } else if size == 1 {
            (16, 16)
        } else if size == 2 {
            (32, 32)
        } else {
            (64, 64)
        }
    } else if shape == 1 {
        if size == 0 {
            (16, 8)
        } else if size == 1 {
            (32, 8)
        } else if size == 2 {
            (32, 16)
        } else {
            (64, 32)
        }
    } else if shape == 2 {
        if size == 0 {
            (8, 16)
        } else if size == 1 {
            (8, 32)
        } else if size == 2 {
            (16, 32)
        } else {
            (32, 64)
        }
    } else {
        (0, 0)
    }
}

/// Signed division by two hundred fifty-six truncating toward zero, as
/// the hardware's fixed-point scaling does.
pub open spec fn trunc_div256(a: int) -> int {
    if a >= 0 {
        a / 256
    } else {
        -((-a) / 256)
    }
}

/// One fixed-point affine coefficient read from object-attribute memory,
/// applied to a centered coordinate: the top bit gives the sign, the rest
/// scales by two hundred fifty-six, truncating toward zero.
pub open spec fn spec_affine_term(p: u16, centered: int) -> int {
    let signed = if p >> 15 == 1 {
        -((p as int) * centered)
    } else {
        (p as int) * centered
    };
    trunc_div256(signed)
}

/// The in-sprite texel that screen position `(x, y)` samples: the direct
/// offset for a plain sprite, or the affine matrix applied to the
/// centered coordinate for a rotated/scaled one. Returned as the raw
/// 16-bit coordinate pair the hardware computes with.
pub open spec fn spec_sprite_texel(m: Seq<u8>, sn: int, x: u16, y: u16) -> (u16, u16) {
    let attr0 = spec_read_hw(m, OAM_START + 8 * sn);
    let attr1 = spec_read_hw(m, OAM_START + 8 * sn + 2);
    let dims = spec_sprite_dims(attr0 >> 14, attr1 >> 14);
    let sx = x.wrapping_sub((attr1 & 0b11111_1111) as u16);
    let sy = y.wrapping_sub((attr0 & 0b1111_1111) as u16);
    if (attr0 >> 8) & 0b11 == 1 || (attr0 >> 8) & 0b11 == 3 {
        let cx = sx - dims.0;
        let cy = sy - dims.1;
        let ai = (attr1 >> 9) & 0b11111;
        let pa = spec_read_hw(m, OAM_START + 0x20 * ai + 0x6);
        let pb = spec_read_hw(m, OAM_START + 0x20 * ai + 0xE);
        let pc = spec_read_hw(m, OAM_START + 0x20 * ai + 0x16);
        let pd = spec_read_hw(m, OAM_START + 0x20 * ai + 0x1E);
        let tx = dims.0 / 2 + spec_affine_term(pa, cx) + spec_affine_term(pb, cy);
        let ty = dims.1 / 2 + spec_affine_term(pc, cx) + spec_affine_term(pd, cy);
        ((tx as i16) as u16, (ty as i16) as u16)
    } else {
        (sx, sy)
    }
}

/// The palette index and color that screen position `(x, y)` of sprite
/// `sn` produces, and whether its texel lies inside the sprite.
pub open spec fn spec_sprite_sample(m: Seq<u8>, sn: int, x: u16, y: u16) -> (bool, u8, u16) {
    let attr0 = spec_read_hw(m, OAM_START + 8 * sn);
    let attr1 = spec_read_hw(m, OAM_START + 8 * sn + 2);
    let attr2 = spec_read_hw(m, OAM_START + 8 * sn + 4);
    let dims = spec_sprite_dims(attr0 >> 14, attr1 >> 14);
    let t = spec_sprite_texel(m, sn, x, y);
    let sx = t.0;
    let sy = t.1;
    if sx >= 0x8000 || sy >= 0x8000 || sx >= dims.0 || sy >= dims.1 {
        (false, 0, 0)
    } else {
        let base_tile = attr2 & 0b11111_11111;
        let color_mode = (attr0 >> 13) & 1;
        let one_dim = spec_read_hw(m, REG_DISPCNT_ADDR as int) >> 6 & 1 == 1;
        let cur = (sy / 8) * (dims.0 / 8) + sx / 8;
        let ctm: int = if !one_dim {
            if color_mode == 1 {
                base_tile + (sy / 8) * 32 + (sx / 8) * 2
            } else {
                base_tile + (sy / 8) * 32 + sx / 8
            }
        } else {
            if color_mode == 1 {
                base_tile + cur * 2
            } else {
                base_tile + cur
            }
        };
        let pixel_num = (sy % 8) * 8 + sx % 8;
        if color_mode == 1 {
            let data = spec_read_byte(m, SPRITE_TILE_DATA_ADDR + 0x20 * ctm + pixel_num);
            (true, data, spec_read_hw(m, SPRITE_PRAM_ADDR + 2 * data))
        } else {
            let b = spec_read_byte(m, SPRITE_TILE_DATA_ADDR + 0x20 * ctm + pixel_num / 2);
            let data = if pixel_num % 2 == 0 {
                b & 0b1111
            } else {
                b >> 4
            };
            (true, data, spec_read_hw(m, SPRITE_PRAM_ADDR + (attr2 >> 12) * 32 + data * 2))
        }
    }
}

/// The framebuffer after sprite `sn` considers screen position `(x, y)`:
/// painted at the wrapped row when the texel is inside the sprite, its
/// palette index is nonzero, the color is drawn, and the position is on
/// screen.
pub open spec fn spec_sprite_pixel(buf: Seq<u8>, m: Seq<u8>, sn: int, x: u16, y: u16) -> Seq<u8> {
    let s = spec_sprite_sample(m, sn, x, y);
    if s.0 && s.1 != 0 && x < 240 && y % 256 < 160 {
        spec_put_pixel(buf, x as int, (y % 256) as int, s.2)
    } else {
        buf
    }
}

/// The framebuffer after the first `j` rows of column `x` of sprite `sn`.
pub open spec fn spec_sprite_col(buf: Seq<u8>, m: Seq<u8>, sn: int, x: u16, j: int) -> Seq<u8>
    decreases j,
{
    if j <= 0 {
        buf
    } else {
        let prev = spec_sprite_col(buf, m, sn, x, j - 1);
        let yc = spec_read_hw(m, OAM_START + 8 * sn) & 0b1111_1111;
        spec_sprite_pixel(prev, m, sn, x, (yc + j - 1) as u16)
    }
}

/// The vertical pixel span a sprite covers, doubled for the double-size
/// affine form.
pub open spec fn spec_sprite_yspan(m: Seq<u8>, sn: int) -> int {
    let attr0 = spec_read_hw(m, OAM_START + 8 * sn);
    let attr1 = spec_read_hw(m, OAM_START + 8 * sn + 2);
    let dims = spec_sprite_dims(attr0 >> 14, attr1 >> 14);
    if (attr0 >> 8) & 0b11 == 3 {
        2 * (dims.1 as int)
    } else {
        dims.1 as int
    }
}

/// The horizontal pixel span a sprite covers, doubled for the double-size
/// affine form.
pub open spec fn spec_sprite_xspan(m: Seq<u8>, sn: int) -> int {
    let attr0 = spec_read_hw(m, OAM_START + 8 * sn);
    let attr1 = spec_read_hw(m, OAM_START + 8 * sn + 2);
    let dims = spec_sprite_dims(attr0 >> 14, attr1 >> 14);
    if (attr0 >> 8) & 0b11 == 3 {
        2 * (dims.0 as int)
    } else {
        dims.0 as int
    }
}

/// The framebuffer after the first `i` columns of sprite `sn`.
pub open spec fn spec_sprite_all(buf: Seq<u8>, m: Seq<u8>, sn: int, i: int) -> Seq<u8>
    decreases i,
{
    if i <= 0 {
        buf
    } else {
        let prev = spec_sprite_all(buf, m, sn, i - 1);
        let xc = spec_read_hw(m, OAM_START + 8 * sn + 2) & 0b11111_1111;
        spec_sprite_col(prev, m, sn, (xc + i - 1) as u16, spec_sprite_yspan(m, sn))
    }
}

/// Computes one affine term.
fn affine_term(p: u16, centered: i32) -> (r: i64)
    requires
        -0x10000 <= centered <= 0x10000,
    ensures
        r == spec_affine_term(p, centered as int),
        -0x200000000 <= r <= 0x200000000,
{
    proof {
        assert((p as int) * (centered as int) <= 0x200000000 && (p as int) * (centered as int)
            >= -0x200000000) by (nonlinear_arith)
            requires
                p <= 0xFFFF,
                -0x10000 <= centered <= 0x10000,
        ;
    }
    let signed: i64 = if p >> 15 == 1 {
        -((p as i64) * (centered as i64))
    } else {
        (p as i64) * (centered as i64)
    };
    if signed >= 0 {
        signed / 256
    } else {
        -((-signed) / 256)
    }
}

/// Samples sprite `sn` at screen position `(x, y)` and paints the wrapped
/// screen position when the texel is inside the sprite and visible.
#[verifier::rlimit(100)]
fn sprite_point(screen: &mut Vec<u8>, mem: &Mem, sn: usize, x: u16, y: u16)
    requires
        sn < 128,
        old(screen)@.len() == FRAME_BYTES,
    ensures
        final(screen)@.len() == FRAME_BYTES,
        final(screen)@ == spec_sprite_pixel(old(screen)@, mem@, sn as int, x, y),
{
    let attr0 = mem.read_halfword((OAM_START + 8 * sn) as u32);
    let attr1 = mem.read_halfword((OAM_START + 8 * sn + 2) as u32);
    let attr2 = mem.read_halfword((OAM_START + 8 * sn + 4) as u32);
    let affine = (attr0 >> 8) & 0b11 == 1 || (attr0 >> 8) & 0b11 == 3;
    let base_tile = attr2 & 0b11111_11111;
    let color_mode = (attr0 >> 13) & 1;
    let one_dim = mem.read_halfword(REG_DISPCNT_ADDR as u32) >> 6 & 1 == 1;
    let x_coord = attr1 & 0b11111_1111;
    let y_coord = attr0 & 0b1111_1111;
    let shape = attr0 >> 14;
    let size = attr1 >> 14;
    let (x_dim, y_dim): (u16, u16) = if shape == 0 {
        if size == 0 {
            (8, 8)
        } else if size == 1 {
            (16, 16)
        } else if size == 2 {
            (32, 32)
        } else {
            (64, 64)
        }
    } else if shape == 1 {
        if size == 0 {
            (16, 8)
        } else if size == 1 {
            (32, 8)
        } else if size == 2 {
            (32, 16)
        } else {
            (64, 32)
        }
    } else if shape == 2 {
        if size == 0 {
            (8, 16)
        } else if size == 1 {
            (8, 32)
        } else if size == 2 {
            (16, 32)
        } else {
            (32, 64)
        }
    } else {
        (0, 0)
    };
    let sprite_x0 = x.wrapping_sub(x_coord);
    let sprite_y0 = y.wrapping_sub(y_coord);
    let (sprite_x, sprite_y): (u16, u16) = if affine {
        let cx: i32 = sprite_x0 as i32 - x_dim as i32;
        let cy: i32 = sprite_y0 as i32 - y_dim as i32;
        let ai = (attr1 >> 9) & 0b11111;
        let pa = mem.read_halfword((OAM_START + 0x20 * (ai as usize) + 0x6) as u32);
        let pb = mem.read_halfword((OAM_START + 0x20 * (ai as usize) + 0xE) as u32);
        let pc = mem.read_halfword((OAM_START + 0x20 * (ai as usize) + 0x16) as u32);
        let pd = mem.read_halfword((OAM_START + 0x20 * (ai as usize) + 0x1E) as u32);
        let tx: i64 = (x_dim / 2) as i64 + affine_term(pa, cx) + affine_term(pb, cy);
        let ty: i64 = (y_dim / 2) as i64 + affine_term(pc, cx) + affine_term(pd, cy);
        (#[verifier::truncate] (tx as i16) as u16, #[verifier::truncate] (ty as i16) as u16)
    } else {
        (sprite_x0, sprite_y0)
    };
    if sprite_x >= 0x8000 || sprite_y >= 0x8000 || sprite_x >= x_dim || sprite_y >= y_dim {
        return ;
    }
    proof {
        assert((sprite_y / 8) * (x_dim / 8) <= 64) by (nonlinear_arith)
            requires
                sprite_y <= 64,
                x_dim <= 64,
        ;
    }
    let cur: u16 = (sprite_y / 8) * (x_dim / 8) + sprite_x / 8;
    let ctm: u16 = if !one_dim {
        if color_mode == 1 {
            base_tile + (sprite_y / 8) * 32 + (sprite_x / 8) * 2
        } else {
            base_tile + (sprite_y / 8) * 32 + sprite_x / 8
        }
    } else {
        if color_mode == 1 {
            base_tile + cur * 2
        } else {
            base_tile + cur
        }
    };
    let pixel_num: u16 = (sprite_y % 8) * 8 + sprite_x % 8;
    let (data, color): (u8, u16) = if color_mode == 1 {
        let d = mem.read_byte(
            (SPRITE_TILE_DATA_ADDR + 0x20 * (ctm as usize) + pixel_num as usize) as u32,
        );
        (d, mem.read_halfword((SPRITE_PRAM_ADDR + 2 * (d as usize)) as u32))
    } else {
        let b = mem.read_byte(
            (SPRITE_TILE_DATA_ADDR + 0x20 * (ctm as usize) + (pixel_num / 2) as usize) as u32,
        );
        let d = if pixel_num % 2 == 0 {
            b & 0b1111
        } else {
            b >> 4
        };
        proof {
            assert(attr2 >> 12 <= 0xF && b >> 4 <= 0xF) by (bit_vector);
        }
        (
            d,
            mem.read_halfword(
                (SPRITE_PRAM_ADDR + ((attr2 >> 12) * 32 + (d as u16) * 2) as usize) as u32,
            ),
        )
    };
    if data != 0 && x < 240 && y % 256 < 160 {
        let red = ((color & 0b11111) as u8) << 3;
        let green = (((color >> 5) & 0b11111) as u8) << 3;
        let blue = (((color >> 10) & 0b11111) as u8) << 3;
        if color & 0b11111 != 0 || (color >> 5) & 0b11111 != 0 || (color >> 10) & 0b11111 != 0 {
            let px = ((y % 256) as usize) * 240 + x as usize;
            screen[px * 3] = red;
            screen[px * 3 + 1] = green;
            screen[px * 3 + 2] = blue;
        }
    }
    proof {
        assert(screen@ =~= spec_sprite_pixel(old(screen)@, mem@, sn as int, x, y));
    }
}

/// Rasters one sprite over the framebuffer: each covered screen column
/// and row samples the sprite's texel (through the affine matrix when the
/// sprite is rotated or scaled), and visible texels paint the wrapped
/// screen position.
#[verifier::rlimit(100)]
#[verifier::loop_isolation(false)]
pub fn drawTiledSprite(spriteNum: usize, screen: &mut Vec<u8>, mem: &mut Mem, control: Register)
    requires
        spriteNum < 128,
        old(screen)@.len() == FRAME_BYTES,
        control.address == REG_DISPCNT_ADDR,
    ensures
        final(mem)@ == old(mem)@,
        final(screen)@.len() == FRAME_BYTES,
        final(screen)@ == spec_sprite_all(
            old(screen)@,
            old(mem)@,
            spriteNum as int,
            spec_sprite_xspan(old(mem)@, spriteNum as int),
        ),
{
    let ghost buf0 = screen@;
    let ghost m0 = mem@;
    let ghost sn = spriteNum as int;
    let attr0 = mem.read_halfword((OAM_START + 8 * spriteNum) as u32);
    let attr1 = mem.read_halfword((OAM_START + 8 * spriteNum + 2) as u32);
    let double_size = (attr0 >> 8) & 0b11 == 3;
    let x_coord = attr1 & 0b11111_1111;
    let y_coord = attr0 & 0b1111_1111;
    let shape = attr0 >> 14;
    let size = attr1 >> 14;
    let (x_dim, y_dim): (u16, u16) = if shape == 0 {
        if size == 0 {
            (8, 8)
        } else if size == 1 {
            (16, 16)
        } else if size == 2 {
            (32, 32)
        } else {
            (64, 64)
        }
    } else if shape == 1 {
        if size == 0 {
            (16, 8)
        } else if size == 1 {
            (32, 8)
        } else if size == 2 {
            (32, 16)
        } else {
            (64, 32)
        }
    } else if shape == 2 {
        if size == 0 {
            (8, 16)
        } else if size == 1 {
            (8, 32)
        } else if size == 2 {
            (16, 32)
        } else {
            (32, 64)
        }
    } else {
        (0, 0)
    };
    let x_span: u16 = if double_size {
        2 * x_dim
    } else {
        x_dim
    };
    let y_span: u16 = if double_size {
        2 * y_dim
    } else {
        y_dim
    };
    proof {
        assert(x_span == spec_sprite_xspan(m0, sn));
        assert(y_span == spec_sprite_yspan(m0, sn));
    }

    let mut i: u16 = 0;
    while i < x_span
        invariant
            i <= x_span,
            mem@ == m0,
            screen@.len() == FRAME_BYTES,
            screen@ == spec_sprite_all(buf0, m0, sn, i as int),
        decreases x_span - i,
    {
        let x: u16 = x_coord + i;
        let ghost col0 = screen@;
        let mut j: u16 = 0;
        while j < y_span
            invariant
                j <= y_span,
                i < x_span,
                mem@ == m0,
                screen@.len() == FRAME_BYTES,
                screen@ == spec_sprite_col(col0, m0, sn, x, j as int),
            decreases y_span - j,
        {
            let y: u16 = y_coord + j;
            sprite_point(screen, mem, spriteNum, x, y);
            j = j + 1;
        }
        i = i + 1;
    }
}


/// The vertical counter derived from the cycle counter: the frame is cut
/// into two hundred twenty-eight equal line spans.
pub open spec fn spec_current_line(cycle: int) -> u16 {
    ((cycle % 280896) * 228 / 280896) as u16
}

/// The I/O state after the timing pass of one compositor call: the
/// vertical counter is written, then the vertical-counter match, the
/// horizontal-blank and the vertical-blank bits of the display-status
/// register are brought up to date, requesting the matching interrupt on
/// each rising edge whose enable bit is set.
pub open spec fn spec_draw_mem(m0: Seq<u8>, cycle: int) -> Seq<u8> {
    let m1 = spec_write_hw(m0, REG_VCOUNT_ADDR as int, spec_current_line(cycle));
    let vc = spec_read_hw(m1, REG_VCOUNT_ADDR as int);
    let st = REG_DISPSTAT_ADDR as int;
    let trig = (spec_read_hw(m1, st) >> 8) % 256;
    let m2 = if vc == trig {
        let ma = if (spec_read_hw(m1, st) >> 5) & 1 == 1 {
            crate::mem::spec_request_irq(m1, crate::mem::Interrupt::VCounter)
        } else {
            m1
        };
        spec_write_hw(ma, st, spec_read_hw(ma, st) | (1u16 << 2))
    } else {
        m1
    };
    let m3 = if cycle % 1232 > 1004 {
        let mb = if (spec_read_hw(m2, st) >> 4) & 1 == 1 && (spec_read_hw(m2, st) >> 1) & 1
            == 0 {
            crate::mem::spec_request_irq(m2, crate::mem::Interrupt::HBlank)
        } else {
            m2
        };
        spec_write_hw(mb, st, spec_read_hw(mb, st) | (1u16 << 1))
    } else {
        spec_write_hw(m2, st, spec_read_hw(m2, st) & !(1u16 << 1))
    };
    if cycle % 280896 > 197120 {
        let mc = if (spec_read_hw(m3, st) >> 3) & 1 == 1 && (spec_read_hw(m3, st) >> 0) & 1
            == 0 {
            crate::mem::spec_request_irq(m3, crate::mem::Interrupt::VBlank)
        } else {
            m3
        };
        spec_write_hw(mc, st, spec_read_hw(mc, st) | (1u16 << 0))
    } else {
        spec_write_hw(m3, st, spec_read_hw(m3, st) & !(1u16 << 0))
    }
}

/// Whether the call falls in the horizontal- or vertical-blank span.
pub open spec fn spec_blanking(cycle: int) -> bool {
    cycle % 1232 > 1004 || cycle % 280896 > 197120
}

/// Whether sprite `k` takes part in composition at priority `p`: its
/// display form is not the hidden one and its priority field matches.
pub open spec fn spec_sprite_at(m: Seq<u8>, k: int, p: int) -> bool {
    let attr0 = spec_read_hw(m, OAM_START + 8 * k);
    let attr2 = spec_read_hw(m, OAM_START + 8 * k + 4);
    (attr0 >> 8) & 0b11 != 2 && ((attr2 >> 10) & 0b11) as int == p
}

/// The framebuffer after drawing the sprites with indexes `k` and above
/// that carry priority `p`, in descending index order.
pub open spec fn spec_sprites_pass(buf: Seq<u8>, m: Seq<u8>, p: int, k: int) -> Seq<u8>
    decreases 128 - k,
{
    if k >= 128 || k < 0 {
        buf
    } else {
        let prev = spec_sprites_pass(buf, m, p, k + 1);
        if spec_sprite_at(m, k, p) {
            spec_sprite_all(prev, m, k, spec_sprite_xspan(m, k))
        } else {
            prev
        }
    }
}

/// The background layer assigned to priority `p` by the first `k` layers:
/// each enabled layer claims the priority in its control register, later
/// layers overriding earlier ones; five means no layer.
pub open spec fn spec_priority_layer(m: Seq<u8>, p: int, k: int) -> int
    decreases k,
{
    if k <= 0 {
        5
    } else {
        let prev = spec_priority_layer(m, p, k - 1);
        let layer = spec_read_hw(m, spec_bg_cnt_addr(k - 1)) % 4;
        if (spec_read_hw(m, REG_DISPCNT_ADDR as int) >> (8 + k - 1)) & 1 == 1 && layer as int
            == p {
            k - 1
        } else {
            prev
        }
    }
}

/// One priority level of the composition: the background layer claiming
/// the priority is painted first — a tile layer in the two plain tiled
/// modes, or, when layer two claims the priority in a bitmap mode, the
/// direct-color or page-selected palette-indexed bitmap — then the
/// sprites carrying the priority, from the highest index down.
pub open spec fn spec_priority_pass(buf: Seq<u8>, m: Seq<u8>, p: int) -> Seq<u8> {
    let bg = spec_priority_layer(m, p, 4);
    let mode = spec_read_hw(m, REG_DISPCNT_ADDR as int) % 8;
    let buf1 = if bg != 5 && (mode == 0 || mode == 1) {
        spec_tile_layer(buf, m, bg, 38400)
    } else if bg == 2 && mode == 3 {
        spec_bitmap_layer(buf, m, 38400)
    } else if bg == 2 && (mode == 4 || mode == 5) {
        spec_indexed_bitmap_layer(
            buf,
            m,
            (spec_read_hw(m, REG_DISPCNT_ADDR as int) >> 4) & 1 == 1,
            38400,
        )
    } else {
        buf
    };
    spec_sprites_pass(buf1, m, p, 0)
}

/// The composed frame: a white canvas painted back to front, priority
/// three first and priority zero last.
pub open spec fn spec_frame(m: Seq<u8>) -> Seq<u8> {
    let white = Seq::<u8>::new(FRAME_BYTES as nat, |i: int| 0xFFu8);
    spec_priority_pass(
        spec_priority_pass(spec_priority_pass(spec_priority_pass(white, m, 3), m, 2), m, 1),
        m,
        0,
    )
}

/// Draws the sprites of one priority level, highest index first.
#[verifier::loop_isolation(false)]
fn sprites_pass(screen: &mut Vec<u8>, mem: &mut Mem, p: u16)
    requires
        old(screen)@.len() == FRAME_BYTES,
        p < 4,
    ensures
        final(mem)@ == old(mem)@,
        final(screen)@.len() == FRAME_BYTES,
        final(screen)@ == spec_sprites_pass(old(screen)@, old(mem)@, p as int, 0),
{
    let ghost buf0 = screen@;
    let ghost m0 = mem@;
    let mut k: usize = 128;
    while k > 0
        invariant
            k <= 128,
            mem@ == m0,
            screen@.len() == FRAME_BYTES,
            screen@ == spec_sprites_pass(buf0, m0, p as int, k as int),
        decreases k,
    {
        k = k - 1;
        let attr0 = mem.read_halfword((OAM_START + 8 * k) as u32);
        let attr2 = mem.read_halfword((OAM_START + 8 * k + 4) as u32);
        if (attr0 >> 8) & 0b11 != 2 && (attr2 >> 10) & 0b11 == p {
            let control = Register {
                value: mem.read_halfword(REG_DISPCNT_ADDR as u32),
                address: REG_DISPCNT_ADDR,
            };
            drawTiledSprite(k, screen, mem, control);
        }
    }
}

/// The compositor. Updates the vertical counter and the display-status
/// bits from the cycle counter, requesting the vertical-counter-match,
/// horizontal-blank and vertical-blank interrupts on rising edges whose
/// enables are set; inside a blank it returns nothing, and on a visible
/// call it composes the background layers — tiled or bitmap, by the
/// display mode — and the sprites back to front over a white canvas and
/// returns the frame.
#[verifier::loop_isolation(false)]
pub fn draw(mem: &mut Mem, cycle: usize) -> (r: Option<Vec<u8>>)
    ensures
        final(mem)@ == spec_draw_mem(old(mem)@, cycle as int),
        r is Some <==> !spec_blanking(cycle as int),
        r is Some ==> r->0@ == spec_frame(final(mem)@),
{
    let current_line: u16 = ((cycle % FRAME_CYCLES) * 228 / FRAME_CYCLES) as u16;
    mem.write_halfword(REG_VCOUNT_ADDR as u32, current_line);
    let vc = mem.read_halfword(REG_VCOUNT_ADDR as u32);
    let trig = (mem.read_halfword(REG_DISPSTAT_ADDR as u32) >> 8) % 256;
    if vc == trig {
        if (mem.read_halfword(REG_DISPSTAT_ADDR as u32) >> 5) & 1 == 1 {
            mem.request_irq(crate::mem::Interrupt::VCounter);
        }
        let st = mem.read_halfword(REG_DISPSTAT_ADDR as u32);
        mem.write_halfword(REG_DISPSTAT_ADDR as u32, st | (1u16 << 2));
    }
    let mut blanking = false;
    if cycle % SCANLINE_CYCLES > H_BLANK_CYCLES {
        blanking = true;
        if (mem.read_halfword(REG_DISPSTAT_ADDR as u32) >> 4) & 1 == 1 && (mem.read_halfword(
            REG_DISPSTAT_ADDR as u32,
        ) >> 1) & 1 == 0 {
            mem.request_irq(crate::mem::Interrupt::HBlank);
        }
        let st = mem.read_halfword(REG_DISPSTAT_ADDR as u32);
        mem.write_halfword(REG_DISPSTAT_ADDR as u32, st | (1u16 << 1));
    } else {
        let st = mem.read_halfword(REG_DISPSTAT_ADDR as u32);
        mem.write_halfword(REG_DISPSTAT_ADDR as u32, st & !(1u16 << 1));
    }
    if cycle % FRAME_CYCLES > V_BLANK_CYCLES {
        blanking = true;
        if (mem.read_halfword(REG_DISPSTAT_ADDR as u32) >> 3) & 1 == 1 && (mem.read_halfword(
            REG_DISPSTAT_ADDR as u32,
        ) >> 0) & 1 == 0 {
            mem.request_irq(crate::mem::Interrupt::VBlank);
        }
        let st = mem.read_halfword(REG_DISPSTAT_ADDR as u32);
        mem.write_halfword(REG_DISPSTAT_ADDR as u32, st | (1u16 << 0));
    } else {
        let st = mem.read_halfword(REG_DISPSTAT_ADDR as u32);
        mem.write_halfword(REG_DISPSTAT_ADDR as u32, st & !(1u16 << 0));
    }
    if blanking {
        return None;
    }

    let mut screen: Vec<u8> = Vec::new();
    let mut n: usize = 0;
    while n < FRAME_BYTES
        invariant
            n <= FRAME_BYTES,
            screen@.len() == n,
            forall|i: int| 0 <= i < n ==> screen@[i] == 0xFFu8,
        decreases FRAME_BYTES - n,
    {
        screen.push(0xFF);
        n = n + 1;
    }
    proof {
        assert(screen@ =~= Seq::<u8>::new(FRAME_BYTES as nat, |i: int| 0xFFu8));
    }

    let mut pi: u16 = 0;
    while pi < 4
        invariant
            pi <= 4,
            mem@ == spec_draw_mem(old(mem)@, cycle as int),
            screen@.len() == FRAME_BYTES,
            pi == 0 ==> screen@ == Seq::<u8>::new(FRAME_BYTES as nat, |i: int| 0xFFu8),
            pi == 1 ==> screen@ == spec_priority_pass(
                Seq::<u8>::new(FRAME_BYTES as nat, |i: int| 0xFFu8),
                mem@,
                3,
            ),
            pi == 2 ==> screen@ == spec_priority_pass(
                spec_priority_pass(Seq::<u8>::new(FRAME_BYTES as nat, |i: int| 0xFFu8), mem@, 3),
                mem@,
                2,
            ),
            pi == 3 ==> screen@ == spec_priority_pass(
                spec_priority_pass(
                    spec_priority_pass(
                        Seq::<u8>::new(FRAME_BYTES as nat, |i: int| 0xFFu8),
                        mem@,
                        3,
                    ),
                    mem@,
                    2,
                ),
                mem@,
                1,
            ),
            pi == 4 ==> screen@ == spec_frame(mem@),
        decreases 4 - pi,
    {
        let p: u16 = 4 - pi - 1;
        let mut bg: usize = 5;
        let mut xbg: usize = 0;
        while xbg < 4
            invariant
                xbg <= 4,
                mem@ == spec_draw_mem(old(mem)@, cycle as int),
                screen@.len() == FRAME_BYTES,
                p < 4,
                bg == 5 || bg < 4,
                bg as int == spec_priority_layer(mem@, p as int, xbg as int),
            decreases 4 - xbg,
        {
            let layer = mem.read_halfword((0x04000008 + 2 * xbg) as u32) % 4;
            let enabled = (mem.read_halfword(REG_DISPCNT_ADDR as u32) >> (8 + xbg as u16)) & 1
                == 1;
            if enabled && layer == p {
                bg = xbg;
            }
            xbg = xbg + 1;
        }
        let dispcnt = mem.read_halfword(REG_DISPCNT_ADDR as u32);
        let mode = dispcnt % 8;
        if bg != 5 && (mode == 0 || mode == 1) {
            addBGTileLayer(bg, &mut screen, mem);
        } else if bg == 2 && mode == 3 {
            addBGBitmapLayer(&mut screen, mem);
        } else if bg == 2 && (mode == 4 || mode == 5) {
            addBGIndexedBitmapLayer(&mut screen, mem, (dispcnt >> 4) & 1 == 1);
        }
        sprites_pass(&mut screen, mem, p);
        pi = pi + 1;
    }
    Some(screen)
}

} // verus!
