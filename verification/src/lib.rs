//! A bridge that drives a fractal render device and streams the rendered
//! frames into a video encoder. The library is the boundary-crossing
//! lifecycle and error-propagation layer: how render sessions are created,
//! fed frame by frame, and destroyed exactly once, and how every failure is
//! turned into a per-caller last-error message and a failure sentinel instead
//! of unwinding into the host. The device's per-pixel kernel and the
//! encoder's codec are opaque collaborators, modeled here by their observable
//! state; the raw-pointer shell and the subprocess live with the callers.

pub mod errors;
pub mod mandelbrot;
pub mod video;

use crate::errors::{clear_last_error, ErrorChannel};
use crate::mandelbrot::{
    create_error_msg, create_ok, create_session, frame_pattern, lemma_error_msgs_nonempty,
    FrameTemplate, RenderWrapper,
};
use crate::video::Encoder;
use vstd::prelude::*;

pub use crate::mandelbrot::Color;

verus! {

/// The boundary's connectivity probe, kept exactly as callers know it: under
/// its historical name it answers with the wrapped difference of its
/// arguments.
pub fn add(left: i32, right: i32) -> (r: i32)
    ensures
        r == vstd::wrapping::i32_specs::wrapping_sub(left, right),
{
    left.wrapping_sub(right)
}

/// The frame request carried across the boundary: raw bit patterns for the
/// window and zoom, and the iteration budget.
pub open spec fn frame_template(x_bits: u64, y_bits: u64, zoom_bits: u64, max_iterations: u32) -> FrameTemplate {
    FrameTemplate { x_bits, y_bits, zoom_bits, max_iterations }
}

/// One export: a render session and the encoder that turns its frames into
/// one output file. Created once per file, fed by frame submissions,
/// destroyed exactly once — destruction consumes it, so no operation can
/// reach an export that was already torn down.
#[derive(Debug)]
pub struct Export {
    width: u32,
    height: u32,
    render: RenderWrapper,
    encoder: Encoder,
}

impl Export {
    pub closed spec fn width_spec(&self) -> u32 {
        self.width
    }

    pub closed spec fn height_spec(&self) -> u32 {
        self.height
    }

    /// The frames handed to the encoder so far, in submission order.
    pub closed spec fn frames(&self) -> Seq<Seq<u8>> {
        self.encoder.frames()
    }

    /// The device-owned copy of the palette the export was created with.
    pub closed spec fn palette(&self) -> Seq<u8> {
        self.render.colors_view()
    }

    /// The output path the export writes to.
    pub closed spec fn path_view(&self) -> Seq<char> {
        self.encoder.path_view()
    }

    /// One frame's size in bytes: width times height, 3 bytes per pixel.
    pub closed spec fn frame_size(&self) -> nat {
        self.render.size()
    }

    /// A live export: its session is well-formed and sized for its
    /// dimensions, and its encoder still accepts frames.
    pub closed spec fn wf(&self) -> bool {
        &&& self.render.wf()
        &&& self.render.size() == self.width * self.height * 3
        &&& self.encoder.stdin_open()
        &&& !self.encoder.finished()
        &&& self.encoder.width() == self.width
        &&& self.encoder.height() == self.height
    }

    pub fn width(&self) -> (r: u32)
        ensures
            r == self.width_spec(),
    {
        self.width
    }

    pub fn height(&self) -> (r: u32)
        ensures
            r == self.height_spec(),
    {
        self.height
    }

    /// How many frames were submitted so far.
    pub fn frame_count(&self) -> (r: usize)
        ensures
            r == self.frames().len(),
    {
        self.encoder.frame_count()
    }

    /// The device-owned palette copy, read back.
    pub fn palette_bytes(&self) -> (r: &[u8])
        ensures
            r@ == self.palette(),
    {
        self.render.colors()
    }

    /// One submitted frame's bytes, by submission position.
    pub fn frame_at(&self, i: usize) -> (r: &Vec<u8>)
        requires
            i < self.frames().len(),
        ensures
            r@ == self.frames()[i as int],
    {
        self.encoder.frame_at(i)
    }
}

/// Creates a new export that renders frames of the given dimensions and
/// encodes them into the file at `name`. On success the caller's channel
/// reports no error and the export holds the validated palette, device-owned;
/// on failure nothing is created, and the channel says which check refused.
/// Resolving `name`'s parent directory on disk is the caller's step before
/// this one.
pub fn create_export(
    channel: &mut ErrorChannel,
    name: &str,
    colors: &[u8],
    width: u32,
    height: u32,
) -> (r: Option<Export>)
    ensures
        match r {
            Some(e) => {
                &&& create_ok(colors@.len() as int, width, height)
                &&& e.wf()
                &&& e.width_spec() == width
                &&& e.height_spec() == height
                &&& e.path_view() == name@
                &&& e.palette() == colors@
                &&& e.frames() == Seq::<Seq<u8>>::empty()
                &&& final(channel)@ is None
            },
            None => {
                &&& !create_ok(colors@.len() as int, width, height)
                &&& final(channel)@ == Some(create_error_msg(colors@.len() as int, width, height))
                &&& create_error_msg(colors@.len() as int, width, height).len() > 0
            },
        },
{
    clear_last_error(channel);
    let render = match create_session(colors, width, height) {
        Ok(w) => w,
        Err(e) => {
            proof {
                lemma_error_msgs_nonempty();
            }
            e.set_last_error(channel);
            return None;
        },
    };
    let encoder = match Encoder::new(name, width, height) {
        Ok(enc) => enc,
        Err(e) => {
            e.set_last_error(channel);
            return None;
        },
    };
    Some(Export { width, height, render, encoder })
}

/// Renders one frame into the export's session buffer and writes that exact
/// buffer to the encoder, appending it to the output in submission order.
pub fn add_frame(
    channel: &mut ErrorChannel,
    export: &mut Export,
    x_bits: u64,
    y_bits: u64,
    zoom_bits: u64,
    max_iterations: u32,
)
    requires
        old(export).wf(),
    ensures
        final(export).wf(),
        final(export).frames() == old(export).frames().push(
            frame_pattern(
                frame_template(x_bits, y_bits, zoom_bits, max_iterations),
                old(export).frame_size(),
            ),
        ),
        final(export).width_spec() == old(export).width_spec(),
        final(export).height_spec() == old(export).height_spec(),
        final(export).frame_size() == old(export).frame_size(),
        final(export).palette() == old(export).palette(),
        final(export).path_view() == old(export).path_view(),
        final(channel)@ is None,
{
    clear_last_error(channel);
    let frame = FrameTemplate { x_bits, y_bits, zoom_bits, max_iterations };
    export.render.render_frame(&frame);
    let buffer = export.render.buffer();
    match export.encoder.write(buffer) {
        Ok(()) => (),
        Err(e) => {
            e.set_last_error(channel);
        },
    }
}

/// Destroys an export: signals end-of-input to the encoder, waits for the
/// encoding to finish, and releases the render session's handles in their
/// dependency order. The export is consumed — this is the single destroy —
/// and the finalized output file comes back: every submitted frame, in
/// submission order.
pub fn destroy_export(channel: &mut ErrorChannel, export: Export) -> (r: Option<Encoder>)
    requires
        export.wf(),
    ensures
        match r {
            Some(enc) => {
                &&& enc.finished()
                &&& !enc.stdin_open()
                &&& enc.frames() == export.frames()
                &&& enc.path_view() == export.path_view()
                &&& enc.width() == export.width_spec()
                &&& enc.height() == export.height_spec()
                &&& final(channel)@ is None
            },
            None => false,
        },
{
    clear_last_error(channel);
    let Export { width: _, height: _, render, encoder } = export;
    let mut encoder = encoder;
    match encoder.finish() {
        Ok(()) => {
            render.destroy();
            Some(encoder)
        },
        Err(e) => {
            render.destroy();
            e.set_last_error(channel);
            None
        },
    }
}

/// Renders exactly one frame through a transient session: the session is
/// created, rendered with once, copied out, and destroyed before returning.
/// The returned buffer is the caller's own — width times height times 3
/// bytes — and nothing persists; this path never touches an encoder.
pub fn preview_frame(
    channel: &mut ErrorChannel,
    colors: &[u8],
    width: u32,
    height: u32,
    x_bits: u64,
    y_bits: u64,
    zoom_bits: u64,
    max_iterations: u32,
) -> (r: Option<Vec<u8>>)
    ensures
        match r {
            Some(buffer) => {
                &&& create_ok(colors@.len() as int, width, height)
                &&& buffer@.len() == width * height * 3
                &&& buffer@ == frame_pattern(
                    frame_template(x_bits, y_bits, zoom_bits, max_iterations),
                    (width * height * 3) as nat,
                )
                &&& final(channel)@ is None
            },
            None => {
                &&& !create_ok(colors@.len() as int, width, height)
                &&& final(channel)@ == Some(create_error_msg(colors@.len() as int, width, height))
                &&& create_error_msg(colors@.len() as int, width, height).len() > 0
            },
        },
{
    clear_last_error(channel);
    let mut render = match create_session(colors, width, height) {
        Ok(w) => w,
        Err(e) => {
            proof {
                lemma_error_msgs_nonempty();
            }
            e.set_last_error(channel);
            return None;
        },
    };
    let frame = FrameTemplate { x_bits, y_bits, zoom_bits, max_iterations };
    render.render_frame(&frame);
    let buffer = render.copy_buffer();
    render.destroy();
    Some(buffer)
}

} // verus!
