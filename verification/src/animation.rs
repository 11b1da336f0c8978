//! The looping animation on the kiosk's start screen: decoding its GIF
//! frames and stepping through them.

use vstd::prelude::*;

verus! {

/// The frame shown after frame `index` in a loop of `count` frames.
pub open spec fn next_frame_spec(index: int, count: int) -> int {
    (index + 1) % count
}

/// The frame to show on the next tick: the following one, wrapping to the
/// first after the last.
pub fn next_frame(index: usize, count: usize) -> (r: usize)
    requires
        index < count,
    ensures
        r == next_frame_spec(index as int, count as int),
        r < count,
{
    (index + 1) % count
}

/// The animation visits every frame: from any frame, `k` ticks later it
/// shows frame `(index + k) % count`, so within `count` ticks each frame
/// has been shown.
pub proof fn animation_cycles(index: int, count: int, k: nat)
    requires
        0 <= index < count,
    ensures
        ticks(index, count, k) == (index + k) % count,
    decreases k,
{
    if k == 0 {
        vstd::arithmetic::div_mod::lemma_small_mod(index as nat, count as nat);
    } else {
        animation_cycles(index, count, (k - 1) as nat);
        let p = ticks(index, count, (k - 1) as nat);
        assert(p == (index + k - 1) % count);
        assert(((index + k - 1) % count + 1) % count == (index + k) % count) by (nonlinear_arith)
            requires
                count > 0,
                index + k - 1 >= 0,
        {
            let a = index + k - 1;
            let q = a / count;
            let r = a % count;
            assert(a == q * count + r);
            if r + 1 < count {
                assert((r + 1) % count == r + 1);
                assert((a + 1) == q * count + (r + 1));
            } else {
                assert(r + 1 == count);
                assert((a + 1) == (q + 1) * count);
            }
        }
    }
}

/// The frame shown after `k` ticks, starting at `index`.
pub open spec fn ticks(index: int, count: int, k: nat) -> int
    decreases k,
{
    if k == 0 {
        index
    } else {
        next_frame_spec(ticks(index, count, (k - 1) as nat), count)
    }
}


/// A `gif` crate decoder reading from a byte slice. It is held opaque: the
/// `gif::Decoder` type carries a `std::io::Read` bound, which Verus does not
/// take in a type declaration.
#[verifier::external_body]
pub struct GifDecoder<'a> {
    decoder: gif::Decoder<&'a [u8]>,
}

/// The frames, as RGBA pixel bytes, that the `gif` crate decodes from a
/// GIF file's bytes, in order; `None` when the header or any frame fails to
/// decode.
pub uninterp spec fn gif_rgba_frames(bytes: Seq<u8>) -> Option<Seq<Seq<u8>>>;

/// The logical screen width and height that a GIF file's header declares.
pub uninterp spec fn gif_screen_size(bytes: Seq<u8>) -> (u16, u16);

/// The frames (RGBA pixel bytes) that a decoder's successive
/// `read_next_frame` calls still yield before they stop.
pub uninterp spec fn gif_frames_ahead(decoder: GifDecoder) -> Seq<Seq<u8>>;

/// Whether a decoder's frames end cleanly (`read_next_frame` then gives
/// `Ok(None)`) rather than with a decoding error.
pub uninterp spec fn gif_ends_cleanly(decoder: GifDecoder) -> bool;

/// Opens a GIF with `gif::DecodeOptions` set to RGBA output and
/// `DecodeOptions::read_info`, and reads the screen size with
/// `Decoder::width` and `Decoder::height`. The contract claims that a
/// failed `read_info` means the file does not decode, that an opened
/// decoder will yield exactly the file's frames (ending cleanly exactly when
/// the whole file decodes), and that the size is the header's.
#[verifier::external_body]
fn open_gif<'a>(bytes: &'a [u8]) -> (r: Option<(GifDecoder<'a>, u16, u16)>)
    ensures
        r is None ==> gif_rgba_frames(bytes@) is None,
        r matches Some(t) ==> gif_rgba_frames(bytes@) == (if gif_ends_cleanly(t.0) {
            Some(gif_frames_ahead(t.0))
        } else {
            None
        }),
        r matches Some(t) ==> (t.1, t.2) == gif_screen_size(bytes@),
{
    let mut options = gif::DecodeOptions::new();
    options.set_color_output(gif::ColorOutput::RGBA);
    match options.read_info(bytes) {
        Ok(decoder) => {
            let (width, height) = (decoder.width(), decoder.height());
            Some((GifDecoder { decoder }, width, height))
        },
        Err(_) => None,
    }
}

/// Reads the next frame with `Decoder::read_next_frame`, copying its pixel
/// buffer. The contract claims that the call yields the first frame still
/// ahead and leaves the rest; with no frame ahead it gives `Ok(None)` when
/// the frames end cleanly and an error otherwise.
#[verifier::external_body]
fn next_gif_frame(decoder: &mut GifDecoder) -> (r: Result<Option<Vec<u8>>, ()>)
    ensures
        gif_frames_ahead(*old(decoder)).len() > 0 ==> (r matches Ok(Some(f)) && f@
            == gif_frames_ahead(*old(decoder))[0]),
        gif_frames_ahead(*old(decoder)).len() > 0 ==> gif_frames_ahead(*final(decoder))
            == gif_frames_ahead(*old(decoder)).drop_first(),
        gif_frames_ahead(*old(decoder)).len() > 0 ==> gif_ends_cleanly(*final(decoder))
            == gif_ends_cleanly(*old(decoder)),
        gif_frames_ahead(*old(decoder)).len() == 0 ==> (r is Ok <==> gif_ends_cleanly(
            *old(decoder),
        )),
        gif_frames_ahead(*old(decoder)).len() == 0 ==> (r matches Ok(x) ==> x is None),
{
    match decoder.decoder.read_next_frame() {
        Ok(Some(frame)) => Ok(Some(frame.buffer.to_vec())),
        Ok(None) => Ok(None),
        Err(_) => Err(()),
    }
}

/// A decoded animation: the screen size and each frame's RGBA pixel bytes.
#[derive(Debug, PartialEq, Eq)]
pub struct GifFrames {
    pub width: u16,
    pub height: u16,
    pub frames: Vec<Vec<u8>>,
}

/// Decodes a GIF file's bytes into its RGBA frames and screen size; `None`
/// when the file does not decode.
pub fn decode_gif_frames(bytes: &[u8]) -> (r: Option<GifFrames>)
    ensures
        r is None <==> gif_rgba_frames(bytes@) is None,
        r matches Some(g) ==> (g.width, g.height) == gif_screen_size(bytes@)
            && g.frames@.len() == gif_rgba_frames(bytes@)->0.len() && forall|i: int|
            0 <= i < g.frames@.len() ==> #[trigger] g.frames@[i]@ == gif_rgba_frames(bytes@)->0[i],
{
    let (mut decoder, width, height) = match open_gif(bytes) {
        None => return None,
        Some(t) => t,
    };
    let ghost all = gif_frames_ahead(decoder);
    let ghost clean = gif_ends_cleanly(decoder);
    let mut frames: Vec<Vec<u8>> = Vec::new();
    loop
        invariant
            gif_rgba_frames(bytes@) == (if clean { Some(all) } else { None }),
            (width, height) == gif_screen_size(bytes@),
            gif_ends_cleanly(decoder) == clean,
            frames@.len() + gif_frames_ahead(decoder).len() == all.len(),
            gif_frames_ahead(decoder) == all.skip(frames@.len() as int),
            forall|i: int| 0 <= i < frames@.len() ==> #[trigger] frames@[i]@ == all[i],
        decreases gif_frames_ahead(decoder).len(),
    {
        let ghost ahead = gif_frames_ahead(decoder);
        match next_gif_frame(&mut decoder) {
            Ok(Some(frame)) => {
                proof {
                    assert(ahead[0] == all[frames@.len() as int]);
                    assert(all.skip(frames@.len() as int + 1) =~= ahead.drop_first());
                }
                frames.push(frame);
            },
            Ok(None) => {
                return Some(GifFrames { width, height, frames });
            },
            Err(()) => {
                return None;
            },
        }
    }
}

} // verus!
