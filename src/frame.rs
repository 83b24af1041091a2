//! Frames, and the cutting of the decoder's raw output into frames.
use vstd::prelude::*;
use crate::error::{Error, ErrorKind};
use crate::image::RgbImage;

verus! {

/// Bytes per pixel of the decoder's packed RGB output.
pub const CHANNELS: u32 = 3;

/// One sampled frame: its pixels, its index among the sampled frames of the
/// run (from 0), and the sampling rate, so that its time in seconds is
/// `frame_num / fps`.
#[derive(Clone, Debug)]
pub struct Frame {
    pub image: RgbImage,
    pub frame_num: u64,
    pub fps: u64,
}

impl Frame {
    /// The byte count matches width × height × 3.
    pub open spec fn wf(&self) -> bool {
        self.image.wf()
    }

    /// Whether the byte count matches width × height × 3.
    pub fn has_valid_geometry(&self) -> (r: bool)
        ensures
            r == self.wf(),
    {
        proof {
            crate::image::lemma_u32_product_bound(self.image.width, self.image.height);
        }
        self.image.pixels.len() as u128 == self.image.width as u128 * self.image.height as u128 * 3
    }
}

/// The error for a frame whose byte count does not match its size.
pub fn geometry_mismatch() -> (r: Error)
    ensures
        r.kind == ErrorKind::FrameGeometry,
{
    Error::from_display(
        ErrorKind::FrameGeometry,
        String::from_str("frame byte count does not match its size"),
    )
}

/// Cuts the decoder's raw output into frames of exactly `width × height × 3`
/// bytes, numbering them from 0. Bytes of an unfinished frame wait in
/// `pending`; at the end of the stream they are dropped.
pub struct FrameAssembler {
    pub width: u32,
    pub height: u32,
    pub fps: u64,
    pub frame_len: usize,
    pub pending: Vec<u8>,
    pub next_frame_num: u64,
    /// The frame numbers handed out so far, in order.
    pub delivered: Ghost<Seq<u64>>,
}

/// Frame `i` of the bytes `all`, cut in frames of `n` bytes.
pub open spec fn frame_bytes(all: Seq<u8>, n: nat, i: int) -> Seq<u8> {
    all.subrange(i * n, i * n + n)
}

impl FrameAssembler {
    pub open spec fn wf(&self) -> bool {
        &&& self.frame_len == self.width * self.height * 3
        &&& self.frame_len > 0
        &&& self.pending@.len() < self.frame_len
        &&& self.delivered@.len() == self.next_frame_num
        &&& forall|i: int| 0 <= i < self.delivered@.len() ==> #[trigger] self.delivered@[i] == i
    }

    /// Prepares to read frames of the size that the decoder published. With
    /// no size the decoder exited before publishing one: the input is
    /// invalid.
    pub fn new(size: Option<(u32, u32)>, fps: u64) -> (r: Result<FrameAssembler, Error>)
        ensures
            size is None ==> (r matches Err(e) && e.kind == ErrorKind::InvalidInput && e.message@
                == crate::error::DECODER_EXITED_EARLY@),
            size matches Some((w, h)) ==> (r is Ok <==> w > 0 && h > 0 && w * h * 3 <= usize::MAX),
            size matches Some((w, h)) && r is Err ==> r->Err_0.kind == ErrorKind::FrameGeometry,
            r matches Ok(a) ==> a.wf() && size == Some((a.width, a.height)) && a.fps == fps
                && a.pending@.len() == 0 && a.next_frame_num == 0,
    {
        match size {
            None => Err(Error::invalid_input()),
            Some((width, height)) => {
                proof {
                    crate::image::lemma_u32_product_bound(width, height);
                }
                let len: u128 = width as u128 * height as u128 * 3;
                assert(len == width * height * 3);
                if width == 0 || height == 0 || len > usize::MAX as u128 {
                    Err(
                        Error::from_display(
                            ErrorKind::FrameGeometry,
                            String::from_str("unusable output frame size"),
                        ),
                    )
                } else {
                    proof {
                        assert(width * height * 3 > 0) by (nonlinear_arith)
                            requires
                                width > 0,
                                height > 0,
                        ;
                    }
                    Ok(
                        FrameAssembler {
                            width,
                            height,
                            fps,
                            frame_len: len as usize,
                            pending: Vec::new(),
                            next_frame_num: 0,
                            delivered: Ghost(Seq::empty()),
                        },
                    )
                }
            },
        }
    }

    /// The number of bytes of one frame.
    pub fn buffer_len(&self) -> (r: usize)
        ensures
            r == self.frame_len,
    {
        self.frame_len
    }

    /// The number of frames handed out so far.
    pub fn frames_delivered(&self) -> (r: u64)
        ensures
            r == self.next_frame_num,
    {
        self.next_frame_num
    }

    /// Takes the next bytes of the decoder's output, however they were cut
    /// by the pipe, and returns every frame they complete, in order.
    pub fn push_bytes(&mut self, chunk: &[u8]) -> (r: Vec<Frame>)
        requires
            old(self).wf(),
            old(self).next_frame_num + chunk@.len() + 1 <= u64::MAX,
        ensures
            final(self).wf(),
            final(self).width == old(self).width,
            final(self).height == old(self).height,
            final(self).fps == old(self).fps,
            ({
                let all = old(self).pending@ + chunk@;
                let n = old(self).frame_len as nat;
                let k = all.len() / n;
                &&& r@.len() == k
                &&& forall|i: int|
                    #![trigger r@[i]]
                    0 <= i < k ==> r@[i].wf() && r@[i].image.pixels@ == frame_bytes(all, n, i)
                        && r@[i].image.width == old(self).width && r@[i].image.height == old(
                        self,
                    ).height && r@[i].frame_num == old(self).next_frame_num + i && r@[i].fps
                        == old(self).fps
                &&& final(self).pending@ == all.subrange((k * n) as int, all.len() as int)
                &&& final(self).next_frame_num == old(self).next_frame_num + k
                &&& final(self).delivered@ == old(self).delivered@ + r@.map_values(
                    |f: Frame| f.frame_num,
                )
            }),
    {
        let ghost all = self.pending@ + chunk@;
        let ghost start = self.pending@.len();
        let ghost first = self.next_frame_num;
        let ghost n = self.frame_len as nat;
        let ghost delivered0 = self.delivered@;
        let mut frames: Vec<Frame> = Vec::new();
        let mut i: usize = 0;
        while i < chunk.len()
            invariant
                self.wf(),
                self.width == old(self).width,
                self.height == old(self).height,
                self.fps == old(self).fps,
                self.frame_len == n,
                all == old(self).pending@ + chunk@,
                start == old(self).pending@.len(),
                start < n,
                first == old(self).next_frame_num,
                first + chunk@.len() + 1 <= u64::MAX,
                delivered0 == old(self).delivered@,
                i <= chunk@.len(),
                self.next_frame_num == first + frames@.len(),
                frames@.len() * n + self.pending@.len() == start + i,
                self.pending@ == all.subrange((frames@.len() * n) as int, (start + i) as int),
                forall|f: int|
                    #![trigger frames@[f]]
                    0 <= f < frames@.len() ==> frames@[f].wf() && frames@[f].image.pixels@
                        == frame_bytes(all, n, f) && frames@[f].image.width == self.width
                        && frames@[f].image.height == self.height && frames@[f].frame_num == first
                        + f && frames@[f].fps == self.fps,
                self.delivered@ == delivered0 + frames@.map_values(|f: Frame| f.frame_num),
            decreases chunk@.len() - i,
        {
            self.pending.push(chunk[i]);
            i = i + 1;
            assert(self.pending@ =~= all.subrange((frames@.len() * n) as int, (start + i) as int));
            if self.pending.len() == self.frame_len {
                proof {
                    assert(frames@.len() * n + n == (frames@.len() + 1) * n) by (nonlinear_arith);
                    assert(frames@.len() <= frames@.len() * n) by (nonlinear_arith)
                        requires
                            n > 0,
                    ;
                    assert(frames@.len() * n < i);
                    assert(frames@.len() < i);
                }
                let mut full: Vec<u8> = Vec::new();
                core::mem::swap(&mut full, &mut self.pending);
                let image = RgbImage { pixels: full, width: self.width, height: self.height };
                let frame = Frame { image, frame_num: self.next_frame_num, fps: self.fps };
                let ghost before = frames@;
                frames.push(frame);
                self.next_frame_num = self.next_frame_num + 1;
                proof {
                    self.delivered@ = self.delivered@.push((self.next_frame_num - 1) as u64);
                    assert(frames@.map_values(|f: Frame| f.frame_num) =~= before.map_values(
                        |f: Frame| f.frame_num,
                    ).push((first + before.len()) as u64));
                    assert(self.pending@ =~= all.subrange((frames@.len() * n) as int, (start + i) as int));
                }
            }
        }
        proof {
            let k = frames@.len();
            let rem = self.pending@.len();
            assert(all.len() == start + chunk@.len());
            assert(all.len() == k * n + rem);
            vstd::arithmetic::div_mod::lemma_fundamental_div_mod_converse(
                all.len() as int,
                n as int,
                k as int,
                rem as int,
            );
        }
        frames
    }
}

/// The frames of a run are numbered 0, 1, 2, ... in the order they are handed
/// out: the number of each equals the count of frames handed out before it.
pub proof fn lemma_frame_numbers_count_deliveries(a: &FrameAssembler)
    requires
        a.wf(),
    ensures
        forall|i: int| 0 <= i < a.delivered@.len() ==> #[trigger] a.delivered@[i] == i,
        a.delivered@.len() == a.next_frame_num,
{
}

} // verus!
