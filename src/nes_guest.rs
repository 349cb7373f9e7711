use vstd::prelude::*;
use vstd::arithmetic::div_mod::lemma_add_mod_noop;

verus! {

/// The checksum that the emulator guest must reach after its frames and its
/// scan of the console's work RAM.
pub const EXPECTED_CHECKSUM: u32 = 0xc2de0000;

/// The amount by which the pixel at `index` of frame `frame` is shifted.
pub open spec fn pixel_shift(frame: nat, index: nat) -> u32 {
    ((frame + index) % 16) as u32
}

/// `acc` with the color indices `pixels` of frame `frame` folded in, each
/// shifted by its position and the frame number and combined by xor.
pub open spec fn frame_checksum_spec(acc: u32, frame: nat, pixels: Seq<u16>) -> u32
    decreases pixels.len(),
{
    if pixels.len() == 0 {
        acc
    } else {
        frame_checksum_spec(acc, frame, pixels.drop_last()) ^ ((pixels.last() as u32) << pixel_shift(
            frame,
            (pixels.len() - 1) as nat,
        ))
    }
}

/// `acc` with the bytes `ram` folded in, the byte at address `a` shifted by
/// `8 * (a % 4)` and combined by xor.
pub open spec fn memory_checksum_spec(acc: u32, ram: Seq<u8>) -> u32
    decreases ram.len(),
{
    if ram.len() == 0 {
        acc
    } else {
        memory_checksum_spec(acc, ram.drop_last()) ^ ((ram.last() as u32) << ((((ram.len() - 1) as nat)
            % 4) * 8) as u32)
    }
}

/// Folds the color indices of one frame's pixels into `acc`.
pub fn frame_checksum(acc: u32, frame: u32, pixels: &[u16]) -> (r: u32)
    ensures
        r == frame_checksum_spec(acc, frame as nat, pixels@),
{
    let mut c = acc;
    let mut i: usize = 0;
    while i < pixels.len()
        invariant
            i <= pixels@.len(),
            c == frame_checksum_spec(acc, frame as nat, pixels@.take(i as int)),
        decreases pixels@.len() - i,
    {
        proof {
            assert(pixels@.take(i + 1).drop_last() =~= pixels@.take(i as int));
            lemma_add_mod_noop(frame as int, i as int, 16);
        }
        let shift = ((frame % 16) as usize + i % 16) % 16;
        c = c ^ ((pixels[i] as u32) << (shift as u32));
        i = i + 1;
    }
    assert(pixels@.take(pixels@.len() as int) =~= pixels@);
    c
}

/// Folds the bytes of work RAM, from address zero on, into `acc`.
pub fn memory_checksum(acc: u32, ram: &[u8]) -> (r: u32)
    ensures
        r == memory_checksum_spec(acc, ram@),
{
    let mut c = acc;
    let mut i: usize = 0;
    while i < ram.len()
        invariant
            i <= ram@.len(),
            c == memory_checksum_spec(acc, ram@.take(i as int)),
        decreases ram@.len() - i,
    {
        proof {
            assert(ram@.take(i + 1).drop_last() =~= ram@.take(i as int));
        }
        c = c ^ ((ram[i] as u32) << (((i % 4) * 8) as u32));
        i = i + 1;
    }
    assert(ram@.take(ram@.len() as int) =~= ram@);
    c
}

/// The checksum over frames `0..frames.len()`, in order, then over work RAM.
pub open spec fn guest_checksum_spec(frames: Seq<Seq<u16>>, ram: Seq<u8>) -> u32 {
    memory_checksum_spec(frames_checksum_spec(frames), ram)
}

/// The checksum over frames `0..frames.len()`, in order, from zero.
pub open spec fn frames_checksum_spec(frames: Seq<Seq<u16>>) -> u32
    decreases frames.len(),
{
    if frames.len() == 0 {
        0
    } else {
        frame_checksum_spec(
            frames_checksum_spec(frames.drop_last()),
            (frames.len() - 1) as nat,
            frames.last(),
        )
    }
}

/// The emulator guest's checksum: the color indices of each frame's
/// pixels, frame by frame, then the bytes of work RAM, starting from zero.
pub fn guest_checksum(frames: &Vec<Vec<u16>>, ram: &[u8]) -> (r: u32)
    requires
        frames@.len() <= u32::MAX,
    ensures
        r == guest_checksum_spec(frames@.map_values(|f: Vec<u16>| f@), ram@),
{
    let ghost fv = frames@.map_values(|f: Vec<u16>| f@);
    let mut c: u32 = 0;
    let mut f: usize = 0;
    while f < frames.len()
        invariant
            fv == frames@.map_values(|f: Vec<u16>| f@),
            frames@.len() <= u32::MAX,
            f <= frames@.len(),
            c == frames_checksum_spec(fv.take(f as int)),
        decreases frames@.len() - f,
    {
        proof {
            assert(fv.take(f + 1).drop_last() =~= fv.take(f as int));
        }
        c = frame_checksum(c, f as u32, frames[f].as_slice());
        f = f + 1;
    }
    assert(fv.take(frames@.len() as int) =~= fv);
    memory_checksum(c, ram)
}

} // verus!
