use vstd::prelude::*;

verus! {

/// Position `back` steps behind `pos` on a ring of `len` positions:
/// `(pos - back) mod len`. This is where a delay line of `back` samples reads
/// when it writes at `pos`, and where the stutter's captured chunk of `back`
/// frames starts when the write head is at `pos`.
pub fn ring_back(pos: usize, back: usize, len: usize) -> (r: usize)
    requires
        pos < len,
        back <= len,
    ensures
        r < len,
        r as int == (pos as int - back as int) % (len as int),
{
    if pos >= back {
        proof {
            vstd::arithmetic::div_mod::lemma_small_mod((pos - back) as nat, len as nat);
        }
        pos - back
    } else {
        proof {
            vstd::arithmetic::div_mod::lemma_mod_add_multiples_vanish(pos as int - back as int, len as int);
            vstd::arithmetic::div_mod::lemma_small_mod((len - (back - pos)) as nat, len as nat);
        }
        len - (back - pos)
    }
}

/// The next position on a ring of `len` positions.
pub fn ring_advance(pos: usize, len: usize) -> (r: usize)
    requires
        pos < len,
    ensures
        r < len,
        r == (pos + 1) % (len as int),
        r == if pos + 1 == len { 0 } else { pos + 1 },
{
    if pos + 1 == len {
        proof {
            vstd::arithmetic::div_mod::lemma_mod_self_0(len as int);
        }
        0
    } else {
        proof {
            vstd::arithmetic::div_mod::lemma_small_mod((pos + 1) as nat, len as nat);
        }
        pos + 1
    }
}

/// The frame a stutter plays at read step `step` of a chunk of `chunk` frames
/// starting at frame `start` of a ring of `frames` frames: forward it walks the
/// chunk from its first frame, in reverse from its last, wrapping at the chunk's
/// end.
pub open spec fn spec_chunk_frame(start: int, chunk: int, frames: int, step: int, reverse: bool) -> int {
    let offset = if reverse { chunk - 1 - step % chunk } else { step % chunk };
    (start + offset) % frames
}

/// The frame a stutter plays at read step `step` of its captured chunk.
pub fn chunk_frame(start: usize, chunk: usize, frames: usize, step: usize, reverse: bool) -> (f: usize)
    requires
        start < frames,
        0 < chunk <= frames,
    ensures
        f < frames,
        f as int == spec_chunk_frame(start as int, chunk as int, frames as int, step as int, reverse),
{
    let within = step % chunk;
    let offset = if reverse { chunk - 1 - within } else { within };
    let room = frames - start;
    if offset >= room {
        proof {
            vstd::arithmetic::div_mod::lemma_mod_add_multiples_vanish(
                (offset - room) as int,
                frames as int,
            );
            vstd::arithmetic::div_mod::lemma_small_mod((offset - room) as nat, frames as nat);
        }
        offset - room
    } else {
        proof {
            vstd::arithmetic::div_mod::lemma_small_mod((start + offset) as nat, frames as nat);
        }
        start + offset
    }
}

/// The captured chunk ends where the write head stands: its first frame is
/// `chunk` frames behind the head, so its frame after the last is the head.
pub proof fn lemma_chunk_ends_at_write_head(pos: int, chunk: int, frames: int, start: int)
    requires
        0 <= pos < frames,
        0 <= chunk <= frames,
        start == (pos - chunk) % frames,
    ensures
        (start + chunk) % frames == pos,
{
    if pos >= chunk {
        vstd::arithmetic::div_mod::lemma_small_mod((pos - chunk) as nat, frames as nat);
        vstd::arithmetic::div_mod::lemma_small_mod(pos as nat, frames as nat);
    } else {
        vstd::arithmetic::div_mod::lemma_mod_add_multiples_vanish(pos - chunk, frames);
        vstd::arithmetic::div_mod::lemma_small_mod((pos - chunk + frames) as nat, frames as nat);
        vstd::arithmetic::div_mod::lemma_mod_add_multiples_vanish(pos, frames);
        vstd::arithmetic::div_mod::lemma_small_mod(pos as nat, frames as nat);
    }
}

/// Reverse playback is forward playback mirrored in the chunk: reverse step
/// `s` plays the frame forward step `chunk - 1 - s mod chunk` plays.
pub proof fn lemma_reverse_mirrors_forward(start: int, chunk: int, frames: int, step: int)
    requires
        0 < chunk,
        0 < frames,
    ensures
        spec_chunk_frame(start, chunk, frames, step, true) == spec_chunk_frame(
            start,
            chunk,
            frames,
            chunk - 1 - step % chunk,
            false,
        ),
{
    let o = chunk - 1 - step % chunk;
    vstd::arithmetic::div_mod::lemma_mod_bound(step, chunk);
    vstd::arithmetic::div_mod::lemma_small_mod(o as nat, chunk as nat);
}

} // verus!
