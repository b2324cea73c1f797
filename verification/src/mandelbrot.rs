//! The render side of the bridge: grid shapes, palettes, and the session that
//! owns one render handle and one graphic-memory handle. The device is
//! modeled by its observable state — what it validates, what it stores, and
//! the frame its kernel leaves in the session's buffer.

use crate::errors::LibError;
use vstd::prelude::*;
use vstd::string::StringExecFns;

verus! {

/// The largest frame buffer, in bytes, that the model device will allocate.
/// A request beyond it is answered with a failed allocation, like any other
/// refusal of the device.
pub const MAX_DEVICE_BUFFER_BYTES: usize = 0x4000_0000;

/// The decomposition of an image into equally sized blocks for parallel
/// computation: the shape handed to the device in place of raw width and
/// height.
pub struct Size {
    pub grid_width: i32,
    pub grid_height: i32,
    pub block_width: i32,
    pub block_height: i32,
}

/// One decimal digit as text.
pub open spec fn dec_digit_str(d: int) -> Seq<char> {
    if d == 0 {
        "0"@
    } else if d == 1 {
        "1"@
    } else if d == 2 {
        "2"@
    } else if d == 3 {
        "3"@
    } else if d == 4 {
        "4"@
    } else if d == 5 {
        "5"@
    } else if d == 6 {
        "6"@
    } else if d == 7 {
        "7"@
    } else if d == 8 {
        "8"@
    } else {
        "9"@
    }
}

/// The decimal digits of `n`, most significant first; empty when `n` is not
/// positive.
pub open spec fn dec_str(n: int) -> Seq<char>
    decreases n,
{
    if n <= 0 {
        Seq::empty()
    } else {
        dec_str(n / 10) + dec_digit_str(n % 10)
    }
}

/// The message recorded when width or height is not divisible by the block
/// shape, naming the block dimensions.
pub open spec fn grid_shape_msg(block_width: int, block_height: int) -> Seq<char> {
    "Width and height must be divisible by block width and height ("@ + dec_str(block_width)
        + ", "@ + dec_str(block_height) + ")"@
}

/// The message recorded when the palette is not exactly 256 triples.
pub open spec fn invalid_palette_msg() -> Seq<char> {
    "Colors must be 256"@
}

/// The message recorded when the device refuses to allocate a render handle.
pub open spec fn render_alloc_msg() -> Seq<char> {
    "Failed to create render"@
}

/// Appends the decimal digits of `n` to `s`.
fn push_dec(s: &mut String, n: u32)
    requires
        0 < n,
    ensures
        final(s)@ == old(s)@ + dec_str(n as int),
    decreases n,
{
    let ghost prefix = old(s)@;
    if n >= 10 {
        push_dec(s, n / 10);
    } else {
        proof {
            assert(dec_str(n as int / 10) == Seq::<char>::empty());
            assert(s@ =~= prefix + dec_str(n as int / 10));
        }
    }
    let ghost with_high_digits = s@;
    let d = n % 10;
    if d == 0 {
        s.append("0");
    } else if d == 1 {
        s.append("1");
    } else if d == 2 {
        s.append("2");
    } else if d == 3 {
        s.append("3");
    } else if d == 4 {
        s.append("4");
    } else if d == 5 {
        s.append("5");
    } else if d == 6 {
        s.append("6");
    } else if d == 7 {
        s.append("7");
    } else if d == 8 {
        s.append("8");
    } else {
        s.append("9");
    }
    proof {
        assert(s@ == with_high_digits + dec_digit_str(n as int % 10));
        assert(with_high_digits == prefix + dec_str(n as int / 10));
        assert(s@ =~= prefix + dec_str(n as int));
    }
}

/// Builds the grid-shape error, naming the block dimensions.
fn grid_error(block_width: i32, block_height: i32) -> (e: LibError)
    requires
        0 < block_width,
        0 < block_height,
    ensures
        e@ == grid_shape_msg(block_width as int, block_height as int),
{
    let mut message = "Width and height must be divisible by block width and height (".to_owned();
    push_dec(&mut message, block_width as u32);
    message.append(", ");
    push_dec(&mut message, block_height as u32);
    message.append(")");
    proof {
        assert(message@ =~= grid_shape_msg(block_width as int, block_height as int));
    }
    LibError::new(message)
}

impl Size {
    pub fn new(width: i32, height: i32, block_width: i32, block_height: i32) -> (r: Result<
        Self,
        LibError,
    >)
        requires
            0 <= width,
            0 <= height,
            0 < block_width,
            0 < block_height,
        ensures
            match r {
                Ok(s) => {
                    &&& width % block_width == 0
                    &&& height % block_height == 0
                    &&& s.grid_width == width / block_width
                    &&& s.grid_height == height / block_height
                    &&& s.block_width == block_width
                    &&& s.block_height == block_height
                },
                Err(e) => {
                    &&& width % block_width != 0 || height % block_height != 0
                    &&& e@ == grid_shape_msg(block_width as int, block_height as int)
                },
            },
    {
        if width % block_width != 0 || height % block_height != 0 {
            return Err(grid_error(block_width, block_height));
        }
        Ok(Self {
            grid_width: width / block_width,
            grid_height: height / block_height,
            block_width,
            block_height,
        })
    }
}

/// One RGB palette entry.
#[derive(Debug, Clone, Copy, PartialEq, Eq, Structural)]
pub struct Color {
    pub r: u8,
    pub g: u8,
    pub b: u8,
}

/// A view window and an iteration budget: the pure input of one rendered
/// frame. The window coordinates and the zoom are carried as raw bit
/// patterns; only the device kernel interprets them.
#[derive(Clone, Copy, PartialEq, Eq, Structural)]
pub struct FrameTemplate {
    pub x_bits: u64,
    pub y_bits: u64,
    pub zoom_bits: u64,
    pub max_iterations: u32,
}

/// The palette laid out as the device stores it: 3 bytes per entry, in entry
/// order.
pub open spec fn palette_flat(colors: Seq<Color>) -> Seq<u8> {
    Seq::new(
        colors.len() * 3,
        |i: int|
            if i % 3 == 0 {
                colors[i / 3].r
            } else if i % 3 == 1 {
                colors[i / 3].g
            } else {
                colors[i / 3].b
            },
    )
}

/// The byte the model device kernel computes for position `i` of a frame:
/// a fixed mix of the frame request, so distinct requests leave
/// distinguishable frames. The real per-pixel computation is the device's
/// own and out of this library's scope.
pub open spec fn pattern_byte(frame: FrameTemplate, i: int) -> u8 {
    (((frame.x_bits ^ frame.y_bits ^ frame.zoom_bits) & 0xff) as u8) ^ ((frame.max_iterations
        & 0xff) as u8) ^ ((i % 256) as u8)
}

/// The whole frame the model device kernel leaves in a buffer of `len` bytes.
pub open spec fn frame_pattern(frame: FrameTemplate, len: nat) -> Seq<u8> {
    Seq::new(len, |i: int| pattern_byte(frame, i))
}

/// Whether the model device grants a render handle for this grid shape: the
/// shape must be non-empty and its frame buffer must fit the device's limit.
/// Anything else comes back as a null handle.
pub open spec fn device_accepts(size: Size) -> bool {
    &&& 0 < size.block_width
    &&& 0 < size.block_height
    &&& 0 < size.grid_width
    &&& 0 < size.grid_height
    &&& size.block_width * size.block_height * size.grid_width * size.grid_height * 3
        <= MAX_DEVICE_BUFFER_BYTES
}

/// The graphic-memory handle: the device-side scratch resource derived from a
/// render handle, sized for that handle's frame buffer and destroyed before
/// it.
#[derive(Debug)]
pub struct GraphicMemoryWrapper {
    capacity: usize,
}

impl GraphicMemoryWrapper {
    pub closed spec fn capacity(&self) -> nat {
        self.capacity as nat
    }

    fn new(capacity: usize) -> (r: Self)
        ensures
            r.capacity() == capacity,
    {
        Self { capacity }
    }

    /// Releases the graphic memory. The handle is consumed: it cannot be
    /// destroyed twice, nor used after.
    pub fn destroy(self) {
    }
}

/// One render session: the device-owned palette copy, the device-owned frame
/// buffer, and the graphic-memory handle derived from the render handle. The
/// session owns its pair of handles exclusively; destroying it releases the
/// graphic memory first and the render state after.
#[derive(Debug)]
pub struct RenderWrapper {
    colors: Vec<u8>,
    buffer: Vec<u8>,
    pub graphic_memory: GraphicMemoryWrapper,
    buffer_size: usize,
}

impl RenderWrapper {
    /// The bytes of the device-owned palette copy.
    pub closed spec fn colors_view(&self) -> Seq<u8> {
        self.colors@
    }

    /// The bytes of the device-owned frame buffer.
    pub closed spec fn buffer_view(&self) -> Seq<u8> {
        self.buffer@
    }

    /// The frame buffer's size in bytes.
    pub closed spec fn size(&self) -> nat {
        self.buffer_size as nat
    }

    pub closed spec fn wf(&self) -> bool {
        &&& self.colors@.len() == 768
        &&& self.buffer@.len() == self.buffer_size
        &&& self.graphic_memory.capacity() == self.buffer_size
    }

    pub fn new(size: Size, colors: Vec<Color>) -> (r: Result<Self, LibError>)
        ensures
            match r {
                Ok(w) => {
                    &&& colors@.len() == 256
                    &&& device_accepts(size)
                    &&& w.wf()
                    &&& w.colors_view() == palette_flat(colors@)
                    &&& w.size() == size.block_width * size.block_height * size.grid_width
                        * size.grid_height * 3
                    &&& w.buffer_view() == Seq::new(w.size(), |i: int| 0u8)
                },
                Err(e) => {
                    &&& colors@.len() != 256 || !device_accepts(size)
                    &&& colors@.len() != 256 ==> e@ == invalid_palette_msg()
                    &&& colors@.len() == 256 && !device_accepts(size) ==> e@ == render_alloc_msg()
                },
            },
    {
        if colors.len() != 256 {
            return Err(LibError::from_str("Colors must be 256"));
        }
        if size.block_width <= 0 || size.block_height <= 0 || size.grid_width <= 0
            || size.grid_height <= 0 {
            return Err(LibError::from_str("Failed to create render"));
        }
        let bw = size.block_width as u128;
        let bh = size.block_height as u128;
        let gw = size.grid_width as u128;
        let gh = size.grid_height as u128;
        proof {
            assert(bw * bh < 0x4000000000000000int && bw * bh * gw
                < 0x200000000000000000000000int && bw * bh * gw * gh
                < 0x10000000000000000000000000000000int && bw * bh * gw * gh * 3
                <= 0x30000000000000000000000000000000int) by (nonlinear_arith)
                requires
                    0 < bw < 0x80000000,
                    0 < bh < 0x80000000,
                    0 < gw < 0x80000000,
                    0 < gh < 0x80000000,
            ;
        }
        let bytes: u128 = bw * bh * gw * gh * 3;
        if bytes > MAX_DEVICE_BUFFER_BYTES as u128 {
            return Err(LibError::from_str("Failed to create render"));
        }
        let buffer_size: usize = bytes as usize;

        let mut flat: Vec<u8> = Vec::new();
        let mut i: usize = 0;
        while i < 256
            invariant
                colors@.len() == 256,
                i <= 256,
                flat@.len() == i * 3,
                forall|j: int|
                    0 <= j < i * 3 ==> flat@[j] == palette_flat(colors@)[j],
            decreases 256 - i,
        {
            flat.push(colors[i].r);
            flat.push(colors[i].g);
            flat.push(colors[i].b);
            i = i + 1;
        }
        proof {
            assert(flat@ =~= palette_flat(colors@));
        }

        let mut buffer: Vec<u8> = Vec::new();
        let mut k: usize = 0;
        while k < buffer_size
            invariant
                k <= buffer_size,
                buffer@.len() == k,
                forall|j: int| 0 <= j < k ==> buffer@[j] == 0u8,
            decreases buffer_size - k,
        {
            buffer.push(0u8);
            k = k + 1;
        }
        proof {
            assert(buffer@ =~= Seq::new(buffer_size as nat, |i: int| 0u8));
        }

        Ok(Self { colors: flat, buffer, graphic_memory: GraphicMemoryWrapper::new(buffer_size), buffer_size })
    }

    /// Issues one synchronous render pass: the session's frame buffer is
    /// overwritten in place with the frame the device kernel computes for
    /// this request; nothing else of the session changes.
    pub fn render_frame(&mut self, frame: &FrameTemplate)
        requires
            old(self).wf(),
        ensures
            final(self).wf(),
            final(self).size() == old(self).size(),
            final(self).colors_view() == old(self).colors_view(),
            final(self).buffer_view() == frame_pattern(*frame, old(self).size()),
    {
        let seed: u8 = ((((frame.x_bits ^ frame.y_bits ^ frame.zoom_bits) & 0xff) as u8) ^ ((
        frame.max_iterations & 0xff) as u8));
        let n = self.buffer.len();
        let mut i: usize = 0;
        while i < n
            invariant
                i <= n,
                self.buffer@.len() == n,
                self.colors@ == old(self).colors@,
                self.buffer_size == old(self).buffer_size,
                self.graphic_memory == old(self).graphic_memory,
                n == self.buffer_size,
                seed == (((frame.x_bits ^ frame.y_bits ^ frame.zoom_bits) & 0xff) as u8) ^ ((
                frame.max_iterations & 0xff) as u8),
                forall|j: int| 0 <= j < i ==> self.buffer@[j] == pattern_byte(*frame, j),
            decreases n - i,
        {
            let b: u8 = seed ^ ((i % 256) as u8);
            self.buffer.set(i, b);
            i = i + 1;
        }
        proof {
            assert(self.buffer@ =~= frame_pattern(*frame, old(self).size()));
        }
    }

    /// A read-only view of the session-owned frame buffer: exactly the bytes
    /// the last render pass left there, aliasing the session's memory.
    pub fn buffer(&self) -> (r: &[u8])
        ensures
            r@ == self.buffer_view(),
            self.wf() ==> r@.len() == self.size(),
    {
        self.buffer.as_slice()
    }

    /// An independently owned copy of the frame buffer, for callers that
    /// outlive the session.
    pub fn copy_buffer(&self) -> (r: Vec<u8>)
        ensures
            r@ == self.buffer_view(),
            self.wf() ==> r@.len() == self.size(),
    {
        vstd::slice::slice_to_vec(self.buffer.as_slice())
    }

    /// The bytes of the device-owned palette copy, read back.
    pub fn colors(&self) -> (r: &[u8])
        ensures
            r@ == self.colors_view(),
    {
        self.colors.as_slice()
    }

    /// The frame buffer's size in bytes.
    pub fn buffer_size(&self) -> (r: usize)
        ensures
            r == self.size(),
    {
        self.buffer_size
    }

    /// Releases the session: the graphic-memory handle first, the render
    /// state after, in that dependency order. The session is consumed: it
    /// cannot be destroyed twice, nor rendered with after.
    pub fn destroy(self) {
        let Self { colors: _, buffer: _, graphic_memory, buffer_size: _ } = self;
        graphic_memory.destroy();
    }
}

/// Whether an image's width and height fit the fixed 32-by-32 block shape
/// that sessions are built with.
pub open spec fn grid_ok(width: u32, height: u32) -> bool {
    width % 32 == 0 && height % 32 == 0
}

/// Whether a flat palette has exactly 256 RGB triples.
pub open spec fn palette_len_ok(len: int) -> bool {
    len == 768
}

/// Whether the model device grants handles for an image of these dimensions:
/// it must be non-empty, fit the device's signed dimension registers, and its
/// frame buffer must fit the device's limit.
pub open spec fn device_ok(width: u32, height: u32) -> bool {
    &&& 0 < width <= i32::MAX
    &&& 0 < height <= i32::MAX
    &&& width * height * 3 <= MAX_DEVICE_BUFFER_BYTES
}

/// Whether building a session from a flat palette of `palette_len` bytes and
/// these dimensions succeeds.
pub open spec fn create_ok(palette_len: int, width: u32, height: u32) -> bool {
    grid_ok(width, height) && palette_len_ok(palette_len) && device_ok(width, height)
}

/// The message a failed session creation records, by the first check that
/// refuses: the grid shape, then the palette, then the device.
pub open spec fn create_error_msg(palette_len: int, width: u32, height: u32) -> Seq<char> {
    if !grid_ok(width, height) {
        grid_shape_msg(32, 32)
    } else if !palette_len_ok(palette_len) {
        invalid_palette_msg()
    } else {
        render_alloc_msg()
    }
}

/// No session creation leaves an empty error message behind.
pub proof fn lemma_error_msgs_nonempty()
    ensures
        forall|bw: int, bh: int| #[trigger] grid_shape_msg(bw, bh).len() > 0,
        invalid_palette_msg().len() > 0,
        render_alloc_msg().len() > 0,
        forall|palette_len: int, width: u32, height: u32|
            #[trigger] create_error_msg(palette_len, width, height).len() > 0,
{
    reveal_strlit("Width and height must be divisible by block width and height (");
    reveal_strlit("Colors must be 256");
    reveal_strlit("Failed to create render");
}

/// Dimensions that do not fit the block shape are refused as an invalid grid
/// shape, before the palette is read and before the device is asked for any
/// resource.
pub proof fn lemma_grid_shape_rejected(palette_len: int, width: u32, height: u32)
    requires
        width % 32 != 0 || height % 32 != 0,
    ensures
        !create_ok(palette_len, width, height),
        create_error_msg(palette_len, width, height) == grid_shape_msg(32, 32),
{
}

/// A palette that is not exactly 256 triples is refused as invalid, for any
/// dimensions the grid accepts.
pub proof fn lemma_bad_palette_rejected(palette_len: int, width: u32, height: u32)
    requires
        grid_ok(width, height),
        palette_len != 768,
    ensures
        !create_ok(palette_len, width, height),
        create_error_msg(palette_len, width, height) == invalid_palette_msg(),
{
}

/// For dimensions that divide into 32-by-32 blocks, the grid's frame buffer
/// is exactly one RGB24 image: width times height times 3 bytes, and the grid
/// is non-empty whenever the image is.
proof fn lemma_session_shape(width: int, height: int)
    requires
        0 < width <= 0x7fffffff,
        0 < height <= 0x7fffffff,
        width % 32 == 0,
        height % 32 == 0,
    ensures
        0 < width / 32,
        0 < height / 32,
        32 * 32 * (width / 32) * (height / 32) * 3 == width * height * 3,
{
    vstd::arithmetic::div_mod::lemma_fundamental_div_mod(width, 32);
    vstd::arithmetic::div_mod::lemma_fundamental_div_mod(height, 32);
    let qw = width / 32;
    let qh = height / 32;
    assert(0 < qw && 0 < qh && 32 * 32 * qw * qh * 3 == width * height * 3) by (nonlinear_arith)
        requires
            width == 32 * qw,
            height == 32 * qh,
            0 < width,
            0 < height,
    ;
}

/// Reads a flat 256-triple palette into entries.
fn parse_palette(colors: &[u8]) -> (r: Vec<Color>)
    requires
        colors@.len() == 768,
    ensures
        r@.len() == 256,
        palette_flat(r@) == colors@,
{
    let mut entries: Vec<Color> = Vec::new();
    let mut i: usize = 0;
    while i < 256
        invariant
            colors@.len() == 768,
            i <= 256,
            entries@.len() == i,
            forall|j: int|
                0 <= j < i ==> entries@[j].r == colors@[3 * j] && entries@[j].g == colors@[3 * j
                    + 1] && entries@[j].b == colors@[3 * j + 2],
        decreases 256 - i,
    {
        let entry = Color { r: colors[3 * i], g: colors[3 * i + 1], b: colors[3 * i + 2] };
        entries.push(entry);
        i = i + 1;
    }
    proof {
        assert forall|k: int| 0 <= k < 768 implies palette_flat(entries@)[k] == colors@[k] by {
            vstd::arithmetic::div_mod::lemma_fundamental_div_mod(k, 3);
        }
        assert(palette_flat(entries@) =~= colors@);
    }
    entries
}

/// Builds one render session for an RGB24 image of the given dimensions with
/// the fixed 32-by-32 block shape: the grid shape is validated, the palette
/// is validated and copied by value into device-owned storage, and the
/// device's pair of handles is obtained. On failure nothing is allocated and
/// the error says which check refused.
pub fn create_session(colors: &[u8], width: u32, height: u32) -> (r: Result<
    RenderWrapper,
    LibError,
>)
    ensures
        match r {
            Ok(w) => {
                &&& create_ok(colors@.len() as int, width, height)
                &&& w.wf()
                &&& w.colors_view() == colors@
                &&& w.size() == width * height * 3
            },
            Err(e) => {
                &&& !create_ok(colors@.len() as int, width, height)
                &&& e@ == create_error_msg(colors@.len() as int, width, height)
            },
        },
{
    if width % 32 != 0 || height % 32 != 0 {
        return Err(grid_error(32, 32));
    }
    if colors.len() != 768 {
        return Err(LibError::from_str("Colors must be 256"));
    }
    if width == 0 || height == 0 || width > 0x7fffffff || height > 0x7fffffff {
        return Err(LibError::from_str("Failed to create render"));
    }
    let wu = width as u64;
    let hu = height as u64;
    proof {
        assert(wu * hu < 0x4000000000000000 && wu * hu * 3 < 0xc000000000000000int)
            by (nonlinear_arith)
            requires
                0 < wu < 0x80000000,
                0 < hu < 0x80000000,
        ;
    }
    let total: u64 = wu * hu * 3;
    if total > MAX_DEVICE_BUFFER_BYTES as u64 {
        return Err(LibError::from_str("Failed to create render"));
    }
    let palette = parse_palette(colors);
    let size = match Size::new(width as i32, height as i32, 32, 32) {
        Ok(s) => s,
        Err(e) => {
            return Err(e);
        },
    };
    proof {
        lemma_session_shape(width as int, height as int);
    }
    match RenderWrapper::new(size, palette) {
        Ok(w) => Ok(w),
        Err(e) => Err(e),
    }
}

/// The model device's self-check: the known probe value, confirming the
/// bridge reaches the device at all.
pub fn assert_42_value() -> (v: i32)
    ensures
        v == 42,
{
    42
}

} // verus!
