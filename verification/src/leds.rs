//! The indicator strip. Plugins write into a buffer; the strip itself
//! changes only when the buffer is flushed, and then as a whole. Plugins that
//! own different pixels therefore never disturb each other, and a flush
//! never shows a half-written state.

use vstd::prelude::*;

verus! {

/// The pixels of the strip: red, green and blue of each.
pub type LedBuffer = [(u8, u8, u8); 11];

/// A strip with every pixel set to `colour`.
pub open spec fn uniform(colour: (u8, u8, u8)) -> Seq<(u8, u8, u8)> {
    Seq::new(11, |i: int| colour)
}

/// A buffer with every pixel off.
pub fn get_led_buffer() -> (buffer: LedBuffer)
    ensures
        buffer@ == uniform((0u8, 0u8, 0u8)),
{
    let buffer: LedBuffer = [(0u8, 0u8, 0u8); 11];
    assert(buffer@ =~= uniform((0u8, 0u8, 0u8)));
    buffer
}

/// Sets one pixel. An index beyond the strip changes nothing.
pub fn set_led_buffer(buffer: &mut LedBuffer, index: u8, r: u8, g: u8, b: u8)
    ensures
        final(buffer)@ == if index < 11 {
            old(buffer)@.update(index as int, (r, g, b))
        } else {
            old(buffer)@
        },
        forall|i: int| 0 <= i < 11 && i != index ==> final(buffer)@[i] == old(buffer)@[i],
{
    if index < 11 {
        buffer[index as usize] = (r, g, b);
    }
}

/// Sets the first two pixels and leaves the others alone.
pub fn set_two_buffer(buffer: &mut LedBuffer, r0: u8, g0: u8, b0: u8, r1: u8, g1: u8, b1: u8)
    ensures
        final(buffer)@ == old(buffer)@.update(0, (r0, g0, b0)).update(1, (r1, g1, b1)),
        forall|i: int| 2 <= i < 11 ==> final(buffer)@[i] == old(buffer)@[i],
{
    buffer[0] = (r0, g0, b0);
    buffer[1] = (r1, g1, b1);
}

/// Sets every pixel to one colour.
fn fill(buffer: &mut LedBuffer, colour: (u8, u8, u8))
    ensures
        final(buffer)@ == uniform(colour),
{
    let mut i: usize = 0;
    while i < 11
        invariant
            i <= 11,
            forall|j: int| 0 <= j < i ==> buffer@[j] == colour,
        decreases 11 - i,
    {
        buffer[i] = colour;
        i += 1;
    }
    assert(buffer@ =~= uniform(colour));
}

/// Turns every pixel off.
pub fn clear_led_buffer(buffer: &mut LedBuffer)
    ensures
        final(buffer)@ == uniform((0u8, 0u8, 0u8)),
{
    fill(buffer, (0, 0, 0));
}

/// What a flush pushes to the strip: the whole buffer as it stands. The
/// buffer is not changed, so that a second flush pushes the same.
pub fn sync_leds(buffer: &LedBuffer) -> (frame: LedBuffer)
    ensures
        frame@ == buffer@,
{
    *buffer
}

/// Sets one pixel. An index beyond the strip changes nothing.
pub fn set_led(buffer: &mut LedBuffer, index: u8, r: u8, g: u8, b: u8)
    ensures
        final(buffer)@ == if index < 11 {
            old(buffer)@.update(index as int, (r, g, b))
        } else {
            old(buffer)@
        },
{
    set_led_buffer(buffer, index, r, g, b);
}

/// Sets every pixel to one colour.
pub fn set_all_leds(buffer: &mut LedBuffer, r: u8, g: u8, b: u8)
    ensures
        final(buffer)@ == uniform((r, g, b)),
{
    fill(buffer, (r, g, b));
}

/// Sets the first two pixels and leaves the others alone.
pub fn set_two_leds(buffer: &mut LedBuffer, r0: u8, g0: u8, b0: u8, r1: u8, g1: u8, b1: u8)
    ensures
        final(buffer)@ == old(buffer)@.update(0, (r0, g0, b0)).update(1, (r1, g1, b1)),
{
    set_two_buffer(buffer, r0, g0, b0, r1, g1, b1);
}

/// Turns every pixel off.
pub fn clear_leds(buffer: &mut LedBuffer)
    ensures
        final(buffer)@ == uniform((0u8, 0u8, 0u8)),
{
    clear_led_buffer(buffer);
}

/// Writes to different pixels may come in either order.
pub proof fn lemma_pixels_are_independent(
    strip: Seq<(u8, u8, u8)>,
    i: int,
    a: (u8, u8, u8),
    j: int,
    b: (u8, u8, u8),
)
    requires
        0 <= i < strip.len(),
        0 <= j < strip.len(),
        i != j,
    ensures
        strip.update(i, a).update(j, b) == strip.update(j, b).update(i, a),
{
    assert(strip.update(i, a).update(j, b) =~= strip.update(j, b).update(i, a));
}

} // verus!
