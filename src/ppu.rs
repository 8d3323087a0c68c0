use vstd::prelude::*;

verus! {

/// Visible pixels per scanline.
pub const SCREEN_WIDTH: usize = 256;
/// Visible scanlines per frame.
pub const SCREEN_HEIGHT: usize = 224;
/// Dots per scanline.
pub const DOTS_PER_LINE: u16 = 341;
/// Scanlines per frame.
pub const LINES_PER_FRAME: u16 = 262;
/// The first scanline of vertical blank.
pub const VBLANK_LINE: u16 = 224;
/// Bytes of video RAM.
pub const VRAM_SIZE: usize = 0x10000;
/// Bytes of object-attribute memory.
pub const OAM_SIZE: usize = 0x220;
/// Bytes of color RAM.
pub const CGRAM_SIZE: usize = 0x200;
/// Number of sprite entries in OAM.
pub const SPRITE_COUNT: usize = 128;
/// Start of the sprite tile table in VRAM.
pub const SPRITE_TILE_BASE: usize = 0x4000;
/// Size of each background's tile map in VRAM.
pub const TILEMAP_STRIDE: usize = 0x800;

#[derive(Clone, Copy, Debug, PartialEq, Eq, Structural)]
pub enum VideoMode {
    Mode0,
    Mode1,
    Mode2,
    Mode3,
    Mode4,
    Mode5,
    Mode6,
    Mode7,
}

/// The video mode selected by the low three bits of register `0x2105`.
pub open spec fn video_mode_of(bits: u8) -> VideoMode {
    if bits == 0 {
        VideoMode::Mode0
    } else if bits == 1 {
        VideoMode::Mode1
    } else if bits == 2 {
        VideoMode::Mode2
    } else if bits == 3 {
        VideoMode::Mode3
    } else if bits == 4 {
        VideoMode::Mode4
    } else if bits == 5 {
        VideoMode::Mode5
    } else if bits == 6 {
        VideoMode::Mode6
    } else {
        VideoMode::Mode7
    }
}

fn video_mode_from(bits: u8) -> (m: VideoMode)
    ensures
        m == video_mode_of(bits),
{
    match bits {
        0 => VideoMode::Mode0,
        1 => VideoMode::Mode1,
        2 => VideoMode::Mode2,
        3 => VideoMode::Mode3,
        4 => VideoMode::Mode4,
        5 => VideoMode::Mode5,
        6 => VideoMode::Mode6,
        _ => VideoMode::Mode7,
    }
}

pub struct Ppu {
    pub scanline: u16,
    pub cycle: u16,
    pub frame_complete: bool,
    pub vblank: bool,
    pub hblank: bool,
    pub video_mode: VideoMode,
    pub brightness: u8,
    pub forced_blank: bool,
    pub bg_enabled: [bool; 4],
    pub bg_mode: [u8; 4],
    pub bg_priority: [u8; 4],
    pub bg_size: [bool; 4],
    pub sprites_enabled: bool,
    pub sprite_size: u8,
    pub bg_hscroll: [u16; 4],
    pub bg_vscroll: [u16; 4],
    pub vram_addr: u16,
    pub vram_increment: u16,
    pub oam_addr: u16,
    pub cgram_addr: u16,
    pub framebuffer: Vec<u32>,
    pub line_buffer: Vec<u8>,
    pub nmi_enabled: bool,
    pub nmi_flag: bool,
}

/// The state of the PPU as mathematical values.
pub struct PpuView {
    pub scanline: u16,
    pub cycle: u16,
    pub frame_complete: bool,
    pub vblank: bool,
    pub hblank: bool,
    pub video_mode: VideoMode,
    pub brightness: u8,
    pub forced_blank: bool,
    pub bg_enabled: Seq<bool>,
    pub bg_mode: Seq<u8>,
    pub bg_priority: Seq<u8>,
    pub bg_size: Seq<bool>,
    pub sprites_enabled: bool,
    pub sprite_size: u8,
    pub bg_hscroll: Seq<u16>,
    pub bg_vscroll: Seq<u16>,
    pub vram_addr: u16,
    pub vram_increment: u16,
    pub oam_addr: u16,
    pub cgram_addr: u16,
    pub framebuffer: Seq<u32>,
    pub line_buffer: Seq<u8>,
    pub nmi_enabled: bool,
    pub nmi_flag: bool,
}

impl View for Ppu {
    type V = PpuView;

    open spec fn view(&self) -> PpuView {
        PpuView {
            scanline: self.scanline,
            cycle: self.cycle,
            frame_complete: self.frame_complete,
            vblank: self.vblank,
            hblank: self.hblank,
            video_mode: self.video_mode,
            brightness: self.brightness,
            forced_blank: self.forced_blank,
            bg_enabled: self.bg_enabled@,
            bg_mode: self.bg_mode@,
            bg_priority: self.bg_priority@,
            bg_size: self.bg_size@,
            sprites_enabled: self.sprites_enabled,
            sprite_size: self.sprite_size,
            bg_hscroll: self.bg_hscroll@,
            bg_vscroll: self.bg_vscroll@,
            vram_addr: self.vram_addr,
            vram_increment: self.vram_increment,
            oam_addr: self.oam_addr,
            cgram_addr: self.cgram_addr,
            framebuffer: self.framebuffer@,
            line_buffer: self.line_buffer@,
            nmi_enabled: self.nmi_enabled,
            nmi_flag: self.nmi_flag,
        }
    }
}

impl PpuView {
    /// The dot and scanline counters are in range and the buffers have their sizes.
    pub open spec fn wf(self) -> bool {
        &&& self.cycle < DOTS_PER_LINE
        &&& self.scanline < LINES_PER_FRAME
        &&& self.framebuffer.len() == SCREEN_WIDTH * SCREEN_HEIGHT
        &&& self.line_buffer.len() == SCREEN_WIDTH
        &&& self.bg_enabled.len() == 4
        &&& self.bg_hscroll.len() == 4
        &&& self.bg_vscroll.len() == 4
    }

    /// Position within the frame, counted in dots from the top-left.
    pub open spec fn position(self) -> int {
        self.scanline * DOTS_PER_LINE + self.cycle
    }
}

/// The PPU as it comes out of power-on or reset.
pub open spec fn power_on() -> PpuView {
    PpuView {
        scanline: 0,
        cycle: 0,
        frame_complete: false,
        vblank: false,
        hblank: false,
        video_mode: VideoMode::Mode0,
        brightness: 0,
        forced_blank: true,
        bg_enabled: seq![false, false, false, false],
        bg_mode: seq![0u8, 0u8, 0u8, 0u8],
        bg_priority: seq![0u8, 0u8, 0u8, 0u8],
        bg_size: seq![false, false, false, false],
        sprites_enabled: false,
        sprite_size: 0,
        bg_hscroll: seq![0u16, 0u16, 0u16, 0u16],
        bg_vscroll: seq![0u16, 0u16, 0u16, 0u16],
        vram_addr: 0,
        vram_increment: 1,
        oam_addr: 0,
        cgram_addr: 0,
        framebuffer: Seq::new((SCREEN_WIDTH * SCREEN_HEIGHT) as nat, |i: int| 0u32),
        line_buffer: Seq::new(SCREEN_WIDTH as nat, |i: int| 0u8),
        nmi_enabled: false,
        nmi_flag: false,
    }
}

/// Bit `i` of byte `b`.
pub open spec fn bit_of(b: u8, i: u32) -> u8 {
    (b >> i) & 1u8
}

/// The palette index of pixel `bit` of a tile row whose four bit-planes are
/// the bytes at `addr .. addr + 4`.
pub open spec fn plane_pixel(vram: Seq<u8>, addr: int, bit: u32) -> u8 {
    (bit_of(vram[addr], bit) + 2 * bit_of(vram[addr + 1], bit) + 4 * bit_of(vram[addr + 2], bit)
        + 8 * bit_of(vram[addr + 3], bit)) as u8
}

proof fn lemma_bit_of_le_one(b: u8, i: u32)
    ensures
        bit_of(b, i) <= 1,
{
    assert((b >> i) & 1u8 <= 1) by (bit_vector);
}

/// The palette index that background `bg` shows at pixel `px` of scanline `line`.
pub open spec fn bg_pixel(v: PpuView, vram: Seq<u8>, bg: int, line: int, px: int) -> u8 {
    let x = (px + v.bg_hscroll[bg]) % 256;
    let y = (line + v.bg_vscroll[bg]) % 256;
    let entry = bg * TILEMAP_STRIDE + ((y / 8) * 32 + x / 8) * 2;
    let tile = vram[entry] as int + vram[entry + 1] as int * 256;
    let row = (tile * 32 + (y % 8) * 4) % 0x10000;
    if row + 3 < VRAM_SIZE {
        plane_pixel(vram, row, (x % 8) as u32)
    } else {
        0
    }
}

/// The palette index that sprite `s` shows at pixel `px` of scanline `line`
/// (zero where it does not cover that pixel).
pub open spec fn sprite_pixel(vram: Seq<u8>, oam: Seq<u8>, s: int, line: int, px: int) -> u8 {
    let x = oam[4 * s] as int;
    let y = oam[4 * s + 1] as int;
    let tile = oam[4 * s + 2] as int;
    if y <= line < y + 8 && x <= px < x + 8 {
        plane_pixel(vram, SPRITE_TILE_BASE + tile * 32 + (line - y) * 4, (px - x) as u32)
    } else {
        0
    }
}

/// The pixel after composing the first `n` background layers, later layers on top.
pub open spec fn bg_stack(v: PpuView, vram: Seq<u8>, line: int, px: int, n: nat) -> u8
    decreases n,
{
    if n == 0 {
        0
    } else {
        let below = bg_stack(v, vram, line, px, (n - 1) as nat);
        let c = if v.video_mode == VideoMode::Mode0 && v.bg_enabled[n - 1] {
            bg_pixel(v, vram, n - 1, line, px)
        } else {
            0
        };
        if c != 0 {
            c
        } else {
            below
        }
    }
}

/// The pixel after drawing the first `n` sprites over `base`; sprite pixels
/// take palette indices from 16 up.
pub open spec fn sprite_stack(
    vram: Seq<u8>,
    oam: Seq<u8>,
    line: int,
    px: int,
    n: nat,
    base: u8,
) -> u8
    decreases n,
{
    if n == 0 {
        base
    } else {
        let below = sprite_stack(vram, oam, line, px, (n - 1) as nat, base);
        let c = sprite_pixel(vram, oam, n - 1, line, px);
        if c != 0 {
            (c + 16) as u8
        } else {
            below
        }
    }
}

/// The line-buffer entry for pixel `px` of scanline `line`.
pub open spec fn line_pixel(v: PpuView, vram: Seq<u8>, oam: Seq<u8>, line: int, px: int) -> u8 {
    let bgs = bg_stack(v, vram, line, px, 4);
    if v.sprites_enabled {
        sprite_stack(vram, oam, line, px, SPRITE_COUNT as nat, bgs)
    } else {
        bgs
    }
}

/// The 0x00RRGGBB color for a line-buffer entry; entry zero is black.
pub open spec fn cgram_color(cgram: Seq<u8>, index: u8) -> u32 {
    if index == 0 {
        0
    } else {
        let a = (index as int * 2) % 512;
        let c = cgram[a] as int + cgram[a + 1] as int * 256;
        let r = (c % 32) * 8;
        let g = ((c / 32) % 32) * 8;
        let b = ((c / 1024) % 32) * 8;
        (r * 65536 + g * 256 + b) as u32
    }
}

/// The PPU after composing its current scanline into the line buffer and
/// writing it to the framebuffer row of that scanline.
pub open spec fn render_line(v: PpuView, vram: Seq<u8>, oam: Seq<u8>, cgram: Seq<u8>) -> PpuView {
    let line = v.scanline as int;
    let buf = Seq::new(SCREEN_WIDTH as nat, |px: int| line_pixel(v, vram, oam, line, px));
    PpuView {
        line_buffer: buf,
        framebuffer: Seq::new(
            v.framebuffer.len(),
            |i: int|
                if line * 256 <= i < line * 256 + 256 {
                    cgram_color(cgram, buf[i - line * 256])
                } else {
                    v.framebuffer[i]
                },
        ),
        ..v
    }
}

/// One PPU tick: the new state, and whether an NMI edge was raised.
#[verifier::opaque]
pub open spec fn tick(v: PpuView, vram: Seq<u8>, oam: Seq<u8>, cgram: Seq<u8>) -> (PpuView, bool) {
    let c1 = v.cycle + 1;
    if c1 < DOTS_PER_LINE {
        (PpuView { cycle: c1 as u16, hblank: c1 >= 256, ..v }, false)
    } else {
        let wraps = v.scanline + 1 >= LINES_PER_FRAME;
        let s: u16 = if wraps {
            0
        } else {
            (v.scanline + 1) as u16
        };
        let moved = PpuView { cycle: 0, hblank: false, scanline: s, ..v };
        if s < VBLANK_LINE {
            let cleared = if wraps {
                PpuView { frame_complete: false, nmi_flag: false, vblank: false, ..moved }
            } else {
                PpuView { vblank: false, ..moved }
            };
            if v.forced_blank {
                (cleared, false)
            } else {
                (render_line(cleared, vram, oam, cgram), false)
            }
        } else if s == VBLANK_LINE {
            (
                PpuView {
                    vblank: true,
                    frame_complete: true,
                    nmi_flag: v.nmi_flag || v.nmi_enabled,
                    ..moved
                },
                v.nmi_enabled,
            )
        } else {
            (PpuView { vblank: true, ..moved }, false)
        }
    }
}

/// Whether a tick from `v` raises the frame-complete edge (enters scanline 224).
pub open spec fn completes_frame(v: PpuView) -> bool {
    v.cycle + 1 >= DOTS_PER_LINE && v.scanline + 1 == VBLANK_LINE
}

/// The effect of a write to a PPU register.
pub open spec fn write_register_spec(v: PpuView, addr: u16, value: u8) -> PpuView {
    if addr == 0x2100 {
        PpuView { brightness: value % 16, forced_blank: value >= 0x80, ..v }
    } else if addr == 0x2101 {
        PpuView { sprite_size: value % 8, ..v }
    } else if addr == 0x2105 {
        PpuView {
            video_mode: video_mode_of(value % 8),
            bg_size: seq![
                (value / 16) % 2 == 1,
                (value / 32) % 2 == 1,
                (value / 64) % 2 == 1,
                value >= 0x80,
            ],
            ..v
        }
    } else if addr == 0x212C {
        PpuView {
            bg_enabled: seq![
                value % 2 == 1,
                (value / 2) % 2 == 1,
                (value / 4) % 2 == 1,
                (value / 8) % 2 == 1,
            ],
            sprites_enabled: (value / 16) % 2 == 1,
            ..v
        }
    } else if addr == 0x4200 {
        PpuView { nmi_enabled: value >= 0x80, ..v }
    } else {
        v
    }
}

/// The byte a read of a PPU register returns.
pub open spec fn read_register_spec(v: PpuView, addr: u16) -> u8 {
    if addr == 0x213E {
        ((if v.vblank {
            0x80int
        } else {
            0
        }) + (if v.hblank {
            0x40int
        } else {
            0
        })) as u8
    } else if addr == 0x213F {
        if v.nmi_flag {
            0x80
        } else {
            0
        }
    } else {
        0
    }
}

fn tile_pixel(vram: &Vec<u8>, addr: usize, bit: u32) -> (r: u8)
    requires
        vram@.len() == VRAM_SIZE,
        addr + 3 < VRAM_SIZE,
        bit < 8,
    ensures
        r == plane_pixel(vram@, addr as int, bit),
        r < 16,
{
    let b0 = (vram[addr] >> bit) & 1u8;
    let b1 = (vram[addr + 1] >> bit) & 1u8;
    let b2 = (vram[addr + 2] >> bit) & 1u8;
    let b3 = (vram[addr + 3] >> bit) & 1u8;
    proof {
        lemma_bit_of_le_one(vram@[addr as int], bit);
        lemma_bit_of_le_one(vram@[addr + 1], bit);
        lemma_bit_of_le_one(vram@[addr + 2], bit);
        lemma_bit_of_le_one(vram@[addr + 3], bit);
    }
    b0 + 2 * b1 + 4 * b2 + 8 * b3
}

fn color_from_cgram(cgram: &Vec<u8>, color_index: u8) -> (r: u32)
    requires
        cgram@.len() == CGRAM_SIZE,
    ensures
        r == cgram_color(cgram@, color_index),
{
    if color_index == 0 {
        return 0;
    }
    let a: usize = (color_index as usize * 2) % 512;
    let c: u32 = cgram[a] as u32 + cgram[a + 1] as u32 * 256;
    let r: u32 = (c % 32) * 8;
    let g: u32 = ((c / 32) % 32) * 8;
    let b: u32 = ((c / 1024) % 32) * 8;
    r * 65536 + g * 256 + b
}

impl Ppu {
    pub fn new() -> (p: Ppu)
        ensures
            p@ == power_on(),
            p@.wf(),
    {
        let framebuffer: Vec<u32> = vec![0u32; SCREEN_WIDTH * SCREEN_HEIGHT];
        let line_buffer: Vec<u8> = vec![0u8; SCREEN_WIDTH];
        let p = Ppu {
            scanline: 0,
            cycle: 0,
            frame_complete: false,
            vblank: false,
            hblank: false,
            video_mode: VideoMode::Mode0,
            brightness: 0,
            forced_blank: true,
            bg_enabled: [false, false, false, false],
            bg_mode: [0, 0, 0, 0],
            bg_priority: [0, 0, 0, 0],
            bg_size: [false, false, false, false],
            sprites_enabled: false,
            sprite_size: 0,
            bg_hscroll: [0, 0, 0, 0],
            bg_vscroll: [0, 0, 0, 0],
            vram_addr: 0,
            vram_increment: 1,
            oam_addr: 0,
            cgram_addr: 0,
            framebuffer,
            line_buffer,
            nmi_enabled: false,
            nmi_flag: false,
        };
        assert(p.framebuffer@ =~= power_on().framebuffer);
        assert(p.line_buffer@ =~= power_on().line_buffer);
        assert(p.bg_enabled@ =~= power_on().bg_enabled);
        assert(p.bg_mode@ =~= power_on().bg_mode);
        assert(p.bg_priority@ =~= power_on().bg_priority);
        assert(p.bg_size@ =~= power_on().bg_size);
        assert(p.bg_hscroll@ =~= power_on().bg_hscroll);
        assert(p.bg_vscroll@ =~= power_on().bg_vscroll);
        p
    }

    pub fn reset(&mut self)
        ensures
            final(self)@ == power_on(),
    {
        *self = Ppu::new();
    }

    /// Advances the PPU by one dot; returns whether this tick raised the NMI edge.
    pub fn step(&mut self, vram: &Vec<u8>, oam: &Vec<u8>, cgram: &Vec<u8>) -> (nmi: bool)
        requires
            old(self)@.wf(),
            vram@.len() == VRAM_SIZE,
            oam@.len() == OAM_SIZE,
            cgram@.len() == CGRAM_SIZE,
        ensures
            (final(self)@, nmi) == tick(old(self)@, vram@, oam@, cgram@),
            final(self)@.wf(),
    {
        reveal(tick);
        let mut nmi = false;
        self.cycle = self.cycle + 1;
        if self.cycle >= DOTS_PER_LINE {
            self.cycle = 0;
            self.hblank = false;
            if self.scanline + 1 >= LINES_PER_FRAME {
                self.scanline = 0;
                self.frame_complete = false;
                self.nmi_flag = false;
            } else {
                self.scanline = self.scanline + 1;
            }
            if self.scanline < VBLANK_LINE {
                self.vblank = false;
                if !self.forced_blank {
                    self.render_scanline(vram, oam, cgram);
                }
            } else if self.scanline == VBLANK_LINE {
                self.vblank = true;
                self.frame_complete = true;
                if self.nmi_enabled {
                    self.nmi_flag = true;
                    nmi = true;
                }
            } else {
                self.vblank = true;
            }
        } else {
            self.hblank = self.cycle >= 256;
        }
        nmi
    }

    fn bg_pixel_at(&self, vram: &Vec<u8>, bg: usize, px: usize) -> (r: u8)
        requires
            self@.wf(),
            vram@.len() == VRAM_SIZE,
            bg < 4,
            px < SCREEN_WIDTH,
            self.scanline < VBLANK_LINE,
        ensures
            r == bg_pixel(self@, vram@, bg as int, self.scanline as int, px as int),
    {
        let x: usize = (px + self.bg_hscroll[bg] as usize) % 256;
        let y: usize = (self.scanline as usize + self.bg_vscroll[bg] as usize) % 256;
        let entry: usize = bg * TILEMAP_STRIDE + ((y / 8) * 32 + x / 8) * 2;
        let tile: usize = vram[entry] as usize + vram[entry + 1] as usize * 256;
        let row: usize = (tile * 32 + (y % 8) * 4) % 0x10000;
        if row + 3 < VRAM_SIZE {
            tile_pixel(vram, row, (x % 8) as u32)
        } else {
            0
        }
    }

    fn sprite_pixel_at(vram: &Vec<u8>, oam: &Vec<u8>, s: usize, line: u16, px: usize) -> (r: u8)
        requires
            vram@.len() == VRAM_SIZE,
            oam@.len() == OAM_SIZE,
            s < SPRITE_COUNT,
            line < VBLANK_LINE,
            px < SCREEN_WIDTH,
        ensures
            r == sprite_pixel(vram@, oam@, s as int, line as int, px as int),
            r < 16,
    {
        let x: usize = oam[4 * s] as usize;
        let y: usize = oam[4 * s + 1] as usize;
        let tile: usize = oam[4 * s + 2] as usize;
        let l: usize = line as usize;
        if y <= l && l < y + 8 && x <= px && px < x + 8 {
            tile_pixel(vram, SPRITE_TILE_BASE + tile * 32 + (l - y) * 4, (px - x) as u32)
        } else {
            0
        }
    }

    fn compose_pixel(&self, vram: &Vec<u8>, oam: &Vec<u8>, px: usize) -> (r: u8)
        requires
            self@.wf(),
            vram@.len() == VRAM_SIZE,
            oam@.len() == OAM_SIZE,
            px < SCREEN_WIDTH,
            self.scanline < VBLANK_LINE,
        ensures
            r == line_pixel(self@, vram@, oam@, self.scanline as int, px as int),
    {
        let line = self.scanline;
        let mut acc: u8 = 0;
        let mut bg: usize = 0;
        while bg < 4
            invariant
                self@.wf(),
                vram@.len() == VRAM_SIZE,
                px < SCREEN_WIDTH,
                line == self.scanline,
                line < VBLANK_LINE,
                bg <= 4,
                acc == bg_stack(self@, vram@, line as int, px as int, bg as nat),
            decreases 4 - bg,
        {
            let c: u8 = if self.video_mode == VideoMode::Mode0 && self.bg_enabled[bg] {
                self.bg_pixel_at(vram, bg, px)
            } else {
                0
            };
            if c != 0 {
                acc = c;
            }
            bg = bg + 1;
        }
        if self.sprites_enabled {
            let base = acc;
            let mut s: usize = 0;
            while s < SPRITE_COUNT
                invariant
                    vram@.len() == VRAM_SIZE,
                    oam@.len() == OAM_SIZE,
                    px < SCREEN_WIDTH,
                    line < VBLANK_LINE,
                    s <= SPRITE_COUNT,
                    acc == sprite_stack(vram@, oam@, line as int, px as int, s as nat, base),
                decreases SPRITE_COUNT - s,
            {
                let c = Self::sprite_pixel_at(vram, oam, s, line, px);
                if c != 0 {
                    acc = c + 16;
                }
                s = s + 1;
            }
        }
        acc
    }

    fn render_scanline(&mut self, vram: &Vec<u8>, oam: &Vec<u8>, cgram: &Vec<u8>)
        requires
            old(self)@.wf(),
            old(self).scanline < VBLANK_LINE,
            vram@.len() == VRAM_SIZE,
            oam@.len() == OAM_SIZE,
            cgram@.len() == CGRAM_SIZE,
        ensures
            final(self)@ == render_line(old(self)@, vram@, oam@, cgram@),
    {
        let ghost v0 = self@;
        let line = self.scanline;
        let mut buf: Vec<u8> = Vec::new();
        let mut px: usize = 0;
        while px < SCREEN_WIDTH
            invariant
                self@ == v0,
                v0.wf(),
                line == v0.scanline,
                line < VBLANK_LINE,
                vram@.len() == VRAM_SIZE,
                oam@.len() == OAM_SIZE,
                px <= SCREEN_WIDTH,
                buf@.len() == px,
                forall|i: int|
                    0 <= i < px ==> #[trigger] buf@[i] == line_pixel(
                        v0,
                        vram@,
                        oam@,
                        line as int,
                        i,
                    ),
            decreases SCREEN_WIDTH - px,
        {
            let c = self.compose_pixel(vram, oam, px);
            buf.push(c);
            px = px + 1;
        }
        let row: usize = line as usize * SCREEN_WIDTH;
        let mut x: usize = 0;
        while x < SCREEN_WIDTH
            invariant
                v0.wf(),
                line == v0.scanline,
                line < VBLANK_LINE,
                row == line * 256,
                cgram@.len() == CGRAM_SIZE,
                buf@.len() == SCREEN_WIDTH,
                x <= SCREEN_WIDTH,
                self.framebuffer@.len() == v0.framebuffer.len(),
                forall|i: int|
                    0 <= i < self.framebuffer@.len() ==> #[trigger] self.framebuffer@[i] == (
                    if row <= i < row + x {
                        cgram_color(cgram@, buf@[i - row])
                    } else {
                        v0.framebuffer[i]
                    }),
                self.scanline == v0.scanline,
                self.cycle == v0.cycle,
                self.frame_complete == v0.frame_complete,
                self.vblank == v0.vblank,
                self.hblank == v0.hblank,
                self.video_mode == v0.video_mode,
                self.brightness == v0.brightness,
                self.forced_blank == v0.forced_blank,
                self.bg_enabled@ == v0.bg_enabled,
                self.bg_mode@ == v0.bg_mode,
                self.bg_priority@ == v0.bg_priority,
                self.bg_size@ == v0.bg_size,
                self.sprites_enabled == v0.sprites_enabled,
                self.sprite_size == v0.sprite_size,
                self.bg_hscroll@ == v0.bg_hscroll,
                self.bg_vscroll@ == v0.bg_vscroll,
                self.vram_addr == v0.vram_addr,
                self.vram_increment == v0.vram_increment,
                self.oam_addr == v0.oam_addr,
                self.cgram_addr == v0.cgram_addr,
                self.line_buffer@ == v0.line_buffer,
                self.nmi_enabled == v0.nmi_enabled,
                self.nmi_flag == v0.nmi_flag,
            decreases SCREEN_WIDTH - x,
        {
            let color = color_from_cgram(cgram, buf[x]);
            self.framebuffer.set(row + x, color);
            x = x + 1;
        }
        self.line_buffer = buf;
        proof {
            let target = render_line(v0, vram@, oam@, cgram@);
            assert(self.line_buffer@ =~= target.line_buffer);
            assert(self.framebuffer@ =~= target.framebuffer);
        }
    }

    /// Applies a write to one of the PPU's registers.
    pub fn write_register(&mut self, addr: u16, value: u8)
        ensures
            final(self)@ == write_register_spec(old(self)@, addr, value),
    {
        if addr == 0x2100 {
            self.brightness = value % 16;
            self.forced_blank = value >= 0x80;
        } else if addr == 0x2101 {
            self.sprite_size = value % 8;
        } else if addr == 0x2105 {
            self.set_screen_mode(value);
        } else if addr == 0x212C {
            self.set_layer_enables(value);
        } else if addr == 0x4200 {
            self.nmi_enabled = value >= 0x80;
        }
    }

    fn set_screen_mode(&mut self, value: u8)
        ensures
            final(self)@ == write_register_spec(old(self)@, 0x2105, value),
    {
        let sizes = [
            (value / 16) % 2 == 1,
            (value / 32) % 2 == 1,
            (value / 64) % 2 == 1,
            value >= 0x80,
        ];
        assert(sizes@ =~= write_register_spec(old(self)@, 0x2105, value).bg_size);
        self.video_mode = video_mode_from(value % 8);
        self.bg_size = sizes;
    }

    fn set_layer_enables(&mut self, value: u8)
        ensures
            final(self)@ == write_register_spec(old(self)@, 0x212C, value),
    {
        let enables = [
            value % 2 == 1,
            (value / 2) % 2 == 1,
            (value / 4) % 2 == 1,
            (value / 8) % 2 == 1,
        ];
        assert(enables@ =~= write_register_spec(old(self)@, 0x212C, value).bg_enabled);
        self.bg_enabled = enables;
        self.sprites_enabled = (value / 16) % 2 == 1;
    }

    /// Reads a PPU status register; other registers read as zero.
    pub fn read_register(&self, addr: u16) -> (r: u8)
        ensures
            r == read_register_spec(self@, addr),
    {
        if addr == 0x213E {
            let mut status: u8 = 0;
            if self.vblank {
                status = status + 0x80;
            }
            if self.hblank {
                status = status + 0x40;
            }
            status
        } else if addr == 0x213F {
            if self.nmi_flag {
                0x80
            } else {
                0
            }
        } else {
            0
        }
    }

    pub fn get_framebuffer(&self) -> (r: &[u32])
        ensures
            r@ == self.framebuffer@,
    {
        self.framebuffer.as_slice()
    }

    /// Reports a completed frame once: returns the frame-complete edge and clears it.
    pub fn frame_ready(&mut self) -> (r: bool)
        ensures
            r == old(self).frame_complete,
            final(self)@ == (PpuView { frame_complete: false, ..old(self)@ }),
    {
        if self.frame_complete {
            self.frame_complete = false;
            true
        } else {
            false
        }
    }
}

} // verus!
