//! Frame accumulation: consuming decoded events and keeping a stable
//! two-dimensional intensity buffer, the instantaneous frame.

use crate::event::{event_intensity, spec_event_intensity, EventRecord};
use vstd::prelude::*;

verus! {

/// The instantaneous frame buffer: one byte per pixel channel, row
/// major, `channels` bytes per pixel. It is overwritten in place as
/// events arrive and snapshotted (copied) when handed to the display
/// boundary.
pub struct FrameAccumulator {
    /// Raster width in pixels.
    pub width: u16,
    /// Raster height in pixels.
    pub height: u16,
    /// Bytes per pixel: 1 (mono) or 3 (color).
    pub channels: u8,
    /// The pixel bytes, `height * width * channels` of them.
    pub data: Vec<u8>,
}

/// Row-major index arithmetic: a coordinate inside a
/// `h x w x ch` raster addresses a byte before the end of the buffer,
/// and the partial products stay within the buffer size.
proof fn lemma_row_major_index(y: int, x: int, c: int, w: int, h: int, ch: int)
    by (nonlinear_arith)
    requires
        0 <= y < h,
        0 <= x < w,
        0 <= c < ch,
        1 <= w,
        1 <= h,
        1 <= ch,
    ensures
        1 <= w * ch,
        w * ch <= h * w * ch,
        y * (w * ch) == y * w * ch,
        0 <= y * w * ch,
        y * w * ch <= h * w * ch,
        0 <= x * ch,
        x * ch <= w * ch,
        y * w * ch + x * ch + c < h * w * ch,
{
}

impl FrameAccumulator {
    /// Total number of bytes the raster holds.
    pub open spec fn spec_len(self) -> int {
        (self.height as int) * (self.width as int) * (self.channels as int)
    }

    /// Structural soundness: non-degenerate dimensions, a mono or
    /// color layout, and a buffer of exactly the raster's size.
    pub open spec fn well_formed(self) -> bool {
        &&& self.width >= 1
        &&& self.height >= 1
        &&& (self.channels == 1 || self.channels == 3)
        &&& self.data@.len() == self.spec_len()
    }

    /// The byte position a coordinate addresses.
    pub open spec fn spec_index_of(self, y: int, x: int, c: int) -> int {
        y * (self.width as int) * (self.channels as int) + x * (self.channels as int) + c
    }

    /// Whether an event's coordinate lies inside this raster.
    pub open spec fn spec_in_bounds(self, ev: EventRecord) -> bool {
        &&& (ev.y as int) < (self.height as int)
        &&& (ev.x as int) < (self.width as int)
        &&& (ev.spec_channel() as int) < (self.channels as int)
    }

    /// A fresh all-zero raster.
    pub fn new(width: u16, height: u16, channels: u8) -> (r: FrameAccumulator)
        requires
            width >= 1,
            height >= 1,
            channels == 1 || channels == 3,
            (height as int) * (width as int) * (channels as int) <= usize::MAX,
        ensures
            r.well_formed(),
            r.width == width,
            r.height == height,
            r.channels == channels,
            r.data@ == Seq::new(((height as int) * (width as int) * (channels as int)) as nat,
                |i: int| 0u8,
            ),
    {
        proof {
            assert(1 <= (height as int) * (width as int) <= 0xFFFF * 0xFFFF)
                by (nonlinear_arith)
                requires
                    1 <= width <= 0xFFFFu16,
                    1 <= height <= 0xFFFFu16,
            ;
            assert((height as int) * (width as int) * (channels as int) >= 1)
                by (nonlinear_arith)
                requires
                    (height as int) * (width as int) >= 1,
                    channels >= 1,
            ;
        }
        let pixels: usize = (height as usize) * (width as usize);
        let len: usize = pixels * (channels as usize);
        let mut data: Vec<u8> = Vec::new();
        let mut i: usize = 0;
        while i < len
            invariant
                i <= len,
                data@.len() == i,
                forall|j: int| 0 <= j < i ==> data@[j] == 0u8,
            decreases len - i,
        {
            data.push(0);
            i = i + 1;
        }
        let r = FrameAccumulator { width, height, channels, data };
        proof {
            assert(r.data@ =~= Seq::new(
                ((height as int) * (width as int) * (channels as int)) as nat,
                |i: int| 0u8,
            ));
        }
        r
    }

    /// Consumes one decoded event: derives its intensity and writes it
    /// at the event's coordinate. An event whose decimation code is a
    /// control marker, or whose coordinate lies outside the raster, is
    /// ignored and leaves the buffer unchanged.
    pub fn ingest(&mut self, ev: &EventRecord, ref_time: u32) -> (wrote: bool)
        requires
            old(self).well_formed(),
            ref_time >= 1,
        ensures
            final(self).well_formed(),
            final(self).width == old(self).width,
            final(self).height == old(self).height,
            final(self).channels == old(self).channels,
            wrote == (ev.spec_carries_intensity() && old(self).spec_in_bounds(*ev)),
            wrote ==> final(self).data@ == old(self).data@.update(
                old(self).spec_index_of(ev.y as int, ev.x as int, ev.spec_channel() as int),
                spec_event_intensity(ev.d, ev.delta_t, ref_time) as u8,
            ),
            !wrote ==> final(self).data@ == old(self).data@,
    {
        if !ev.carries_intensity() {
            return false;
        }
        let c = ev.channel();
        if !(ev.y < self.height && ev.x < self.width && c < self.channels) {
            return false;
        }
        proof {
            vstd::std_specs::vec::axiom_spec_len(&self.data);
            lemma_row_major_index(
                ev.y as int,
                ev.x as int,
                c as int,
                self.width as int,
                self.height as int,
                self.channels as int,
            );
        }
        let stride: usize = (self.width as usize) * (self.channels as usize);
        let idx: usize = (ev.y as usize) * stride + (ev.x as usize) * (self.channels as usize) + (
        c as usize);
        let value = event_intensity(ev.d, ev.delta_t, ref_time);
        self.data[idx] = value;
        true
    }

    /// Applies one popped frame of positional updates: position `i`
    /// of `updates` holds either a new byte for position `i` of the
    /// raster, or `None`, meaning no update yet, keep the previous
    /// value.
    pub fn apply_frame_updates(&mut self, updates: &Vec<Option<u8>>)
        requires
            old(self).well_formed(),
            updates@.len() == old(self).data@.len(),
        ensures
            final(self).well_formed(),
            final(self).width == old(self).width,
            final(self).height == old(self).height,
            final(self).channels == old(self).channels,
            final(self).data@.len() == old(self).data@.len(),
            forall|i: int|
                0 <= i < final(self).data@.len() ==> final(self).data@[i] == (match updates@[i] {
                    Some(v) => v,
                    None => old(self).data@[i],
                }),
    {
        let mut i: usize = 0;
        let len = self.data.len();
        while i < len
            invariant
                i <= len,
                len == self.data@.len(),
                self.data@.len() == old(self).data@.len(),
                updates@.len() == old(self).data@.len(),
                self.width == old(self).width,
                self.height == old(self).height,
                self.channels == old(self).channels,
                forall|j: int|
                    0 <= j < i ==> self.data@[j] == (match updates@[j] {
                        Some(v) => v,
                        None => old(self).data@[j],
                    }),
                forall|j: int| i <= j < len ==> self.data@[j] == old(self).data@[j],
            decreases len - i,
        {
            match updates[i] {
                Some(v) => {
                    self.data[i] = v;
                },
                None => {},
            }
            i = i + 1;
        }
    }

    /// The byte at a raster position; lets callers inspect the
    /// reconstruction.
    pub fn byte_at(&self, idx: usize) -> (v: u8)
        requires
            self.well_formed(),
            idx < self.data@.len(),
        ensures
            v == self.data@[idx as int],
    {
        self.data[idx]
    }

    /// The byte a pixel coordinate addresses.
    pub fn pixel_at(&self, y: u16, x: u16, c: u8) -> (v: u8)
        requires
            self.well_formed(),
            (y as int) < (self.height as int),
            (x as int) < (self.width as int),
            (c as int) < (self.channels as int),
        ensures
            v == self.data@[self.spec_index_of(y as int, x as int, c as int)],
    {
        proof {
            vstd::std_specs::vec::axiom_spec_len(&self.data);
            lemma_row_major_index(
                y as int,
                x as int,
                c as int,
                self.width as int,
                self.height as int,
                self.channels as int,
            );
        }
        let stride: usize = (self.width as usize) * (self.channels as usize);
        let idx: usize = (y as usize) * stride + (x as usize) * (self.channels as usize) + (
        c as usize);
        self.data[idx]
    }

    /// Snapshots the raster as an alpha-bearing image for the display
    /// boundary.
    pub fn snapshot_bgra(&self) -> (r: Vec<u8>)
        requires
            self.well_formed(),
            (self.height as int) * (self.width as int) * 4 <= usize::MAX,
        ensures
            r@ == spec_bgra(
                self.data@,
                self.channels as int,
                (self.height as int) * (self.width as int),
            ),
    {
        plane_to_bgra(&self.data, self.width, self.height, self.channels)
    }
}


/// The alpha-bearing snapshot of a raster plane: every pixel expands
/// to four bytes, blue, green, red and alpha, with alpha always 255.
/// A mono plane replicates its single intensity into all three color
/// bytes.
pub open spec fn spec_bgra(data: Seq<u8>, channels: int, pixels: int) -> Seq<u8> {
    Seq::new((pixels * 4) as nat,
        |i: int|
            {
                let p = i / 4;
                let k = i % 4;
                if k == 3 {
                    255u8
                } else if channels == 1 {
                    data[p]
                } else {
                    data[3 * p + k]
                }
            },
    )
}

/// Converts a raster plane to its alpha-bearing snapshot for the
/// display boundary.
pub fn plane_to_bgra(data: &Vec<u8>, width: u16, height: u16, channels: u8) -> (r: Vec<u8>)
    requires
        channels == 1 || channels == 3,
        width >= 1,
        height >= 1,
        data@.len() == (height as int) * (width as int) * (channels as int),
        (height as int) * (width as int) * 4 <= usize::MAX,
    ensures
        r@ == spec_bgra(data@, channels as int, (height as int) * (width as int)),
{
    proof {
        assert(1 <= (height as int) * (width as int)) by (nonlinear_arith)
            requires
                1 <= width,
                1 <= height,
        ;
        assert((height as int) * (width as int) * (channels as int) == ((height as int) * (
        width as int)) * (channels as int)) by (nonlinear_arith);
    }
    let pixels: usize = (height as usize) * (width as usize);
    let mut r: Vec<u8> = Vec::new();
    let mut p: usize = 0;
    while p < pixels
        invariant
            p <= pixels,
            pixels == (height as int) * (width as int),
            pixels * 4 <= usize::MAX,
            channels == 1 || channels == 3,
            data@.len() == pixels * (channels as int),
            r@.len() == 4 * p,
            forall|i: int|
                0 <= i < 4 * p ==> r@[i] == spec_bgra(data@, channels as int, pixels as int)[i],
        decreases pixels - p,
    {
        if channels == 1 {
            let v = data[p];
            r.push(v);
            r.push(v);
            r.push(v);
            r.push(255);
        } else {
            r.push(data[3 * p]);
            r.push(data[3 * p + 1]);
            r.push(data[3 * p + 2]);
            r.push(255);
        }
        proof {
            let s = spec_bgra(data@, channels as int, pixels as int);
            let q = p as int;
            assert((4 * q) / 4 == q && (4 * q) % 4 == 0);
            assert((4 * q + 1) / 4 == q && (4 * q + 1) % 4 == 1);
            assert((4 * q + 2) / 4 == q && (4 * q + 2) % 4 == 2);
            assert((4 * q + 3) / 4 == q && (4 * q + 3) % 4 == 3);
            assert(r@[4 * q] == s[4 * q]);
            assert(r@[4 * q + 1] == s[4 * q + 1]);
            assert(r@[4 * q + 2] == s[4 * q + 2]);
            assert(r@[4 * q + 3] == s[4 * q + 3]);
        }
        p = p + 1;
    }
    proof {
        assert(r@ =~= spec_bgra(data@, channels as int, (height as int) * (width as int)));
    }
    r
}

} // verus!
