//! The encoding side of the bridge: the sink that receives raw frames in
//! submission order and finalizes one output file when its input is closed.

use crate::errors::LibError;
use vstd::prelude::*;

verus! {

/// The message recorded when the encoder's input pipe is gone: a write or a
/// finish after the pipe was already closed.
pub open spec fn stdin_gone_msg() -> Seq<char> {
    "Failed to get stdin"@
}

/// The video encoder: the sink that turns raw RGB24 frames, one pipe write
/// each, into the compressed output file at `path`. This is the encoder's
/// observable state — the file it is building and whether its input pipe is
/// still open; the subprocess that does the compressing is the caller's to
/// run.
#[derive(Debug)]
pub struct Encoder {
    path: String,
    width: u32,
    height: u32,
    frames: Vec<Vec<u8>>,
    stdin_open: bool,
    finished: bool,
}

impl Encoder {
    /// The output path the encoder was spawned for.
    pub closed spec fn path_view(&self) -> Seq<char> {
        self.path@
    }

    /// The input frame width, as configured at spawn time.
    pub closed spec fn width(&self) -> u32 {
        self.width
    }

    /// The input frame height, as configured at spawn time.
    pub closed spec fn height(&self) -> u32 {
        self.height
    }

    /// The frames written so far, in submission order: the content of the
    /// output file.
    pub closed spec fn frames(&self) -> Seq<Seq<u8>> {
        Seq::new(self.frames@.len(), |i: int| self.frames@[i]@)
    }

    /// Whether the input pipe still accepts frames.
    pub closed spec fn stdin_open(&self) -> bool {
        self.stdin_open
    }

    /// Whether end-of-input was signalled and the encoding subprocess joined:
    /// only then is the output file final.
    pub closed spec fn finished(&self) -> bool {
        self.finished
    }

    /// The output file's frame width: the input width rounded down to the
    /// nearest even value. The input frame size itself is unchanged.
    pub open spec fn output_width(&self) -> int {
        self.width() - self.width() % 2
    }

    /// The output file's frame height, rounded down to even like the width.
    pub open spec fn output_height(&self) -> int {
        self.height() - self.height() % 2
    }

    /// Spawns an encoder for RGB24 frames of the given dimensions, writing to
    /// `output`. The model encoder always comes up; a spawn refused by the
    /// host system is its caller's event, reported as `EncoderSpawnFailed`
    /// there.
    pub fn new(output: &str, width: u32, height: u32) -> (r: Result<Self, LibError>)
        ensures
            match r {
                Ok(e) => {
                    &&& e.path_view() == output@
                    &&& e.width() == width
                    &&& e.height() == height
                    &&& e.frames() == Seq::<Seq<u8>>::empty()
                    &&& e.stdin_open()
                    &&& !e.finished()
                },
                Err(_) => false,
            },
    {
        let enc = Self {
            path: output.to_owned(),
            width,
            height,
            frames: Vec::new(),
            stdin_open: true,
            finished: false,
        };
        proof {
            assert(enc.frames() =~= Seq::<Seq<u8>>::empty());
        }
        Ok(enc)
    }

    /// Writes one frame's raw bytes to the encoder's input pipe: appended to
    /// the output in submission order, or refused whole if the pipe is gone.
    pub fn write(&mut self, data: &[u8]) -> (r: Result<(), LibError>)
        ensures
            match r {
                Ok(()) => {
                    &&& old(self).stdin_open()
                    &&& final(self).frames() == old(self).frames().push(data@)
                    &&& final(self).stdin_open()
                    &&& final(self).finished() == old(self).finished()
                    &&& final(self).path_view() == old(self).path_view()
                    &&& final(self).width() == old(self).width()
                    &&& final(self).height() == old(self).height()
                },
                Err(e) => {
                    &&& !old(self).stdin_open()
                    &&& e@ == stdin_gone_msg()
                    &&& stdin_gone_msg().len() > 0
                    &&& *final(self) == *old(self)
                },
            },
    {
        if !self.stdin_open {
            proof {
                reveal_strlit("Failed to get stdin");
            }
            return Err(LibError::from_str("Failed to get stdin"));
        }
        let owned = vstd::slice::slice_to_vec(data);
        self.frames.push(owned);
        proof {
            assert(self.frames() =~= old(self).frames().push(data@));
        }
        Ok(())
    }

    /// Closes the input pipe — end-of-stream — and waits for the encoding
    /// subprocess to exit, finalizing the output file. Fails if the pipe was
    /// already closed; after success the encoder holds no further resources.
    pub fn finish(&mut self) -> (r: Result<(), LibError>)
        ensures
            match r {
                Ok(()) => {
                    &&& old(self).stdin_open()
                    &&& !final(self).stdin_open()
                    &&& final(self).finished()
                    &&& final(self).frames() == old(self).frames()
                    &&& final(self).path_view() == old(self).path_view()
                    &&& final(self).width() == old(self).width()
                    &&& final(self).height() == old(self).height()
                },
                Err(e) => {
                    &&& !old(self).stdin_open()
                    &&& e@ == stdin_gone_msg()
                    &&& stdin_gone_msg().len() > 0
                    &&& *final(self) == *old(self)
                },
            },
    {
        if !self.stdin_open {
            proof {
                reveal_strlit("Failed to get stdin");
            }
            return Err(LibError::from_str("Failed to get stdin"));
        }
        self.stdin_open = false;
        self.finished = true;
        Ok(())
    }

    /// How many frames the output file holds.
    pub fn frame_count(&self) -> (r: usize)
        ensures
            r == self.frames().len(),
    {
        self.frames.len()
    }

    /// One frame of the output file, by submission position.
    pub fn frame_at(&self, i: usize) -> (r: &Vec<u8>)
        requires
            i < self.frames().len(),
        ensures
            r@ == self.frames()[i as int],
    {
        &self.frames[i]
    }

    /// The output file's dimensions: the input dimensions each rounded down
    /// to the nearest even value. The input frame size is unchanged.
    pub fn output_size(&self) -> (r: (u32, u32))
        ensures
            r.0 == self.output_width(),
            r.1 == self.output_height(),
    {
        (self.width - self.width % 2, self.height - self.height % 2)
    }

    /// Whether the output file was finalized.
    pub fn is_finished(&self) -> (r: bool)
        ensures
            r == self.finished(),
    {
        self.finished
    }

    /// The output path, read back.
    pub fn path(&self) -> (r: &str)
        ensures
            r@ == self.path_view(),
    {
        self.path.as_str()
    }
}

} // verus!
