use vstd::prelude::*;

verus! {

/// The control code of a character: the lowest five bits of its code, as a byte.
pub open spec fn ctrl_code(c: char) -> u8 {
    (c as u8) & 0x1F
}

/// Maps a character to the byte that the keyboard sends for Ctrl held with it.
pub fn to_ctrl_byte(c: char) -> (r: u8)
    ensures
        r == ctrl_code(c),
{
    let byte = c as u8;
    byte & 0x1F
}

/// The key that, held with Ctrl, ends the input loop.
pub const QUIT_KEY: char = 'c';

/// The byte that ends the input loop: Ctrl-C.
pub open spec fn sentinel() -> u8 {
    ctrl_code(QUIT_KEY)
}

/// The byte that ends the input loop, computed from its key.
pub fn quit_byte() -> (r: u8)
    ensures
        r == sentinel(),
        r == 0x03,
{
    proof {
        lemma_sentinel_is_ctrl_c();
    }
    to_ctrl_byte(QUIT_KEY)
}

/// The sentinel is the byte 0x03.
pub proof fn lemma_sentinel_is_ctrl_c()
    ensures
        sentinel() == 0x03,
{
    let x: u8 = QUIT_KEY as u8;
    assert(x == 0x63);
    assert(x == 0x63 ==> x & 0x1F == 0x03) by (bit_vector);
}

/// The control code of a lower-case ASCII letter is its place in the alphabet
/// (`a` is 1, `z` is 26), and the upper-case letter maps to the same code.
pub proof fn lemma_ctrl_code_of_letter(c: char)
    requires
        'a' <= c <= 'z',
    ensures
        ctrl_code(c) == (c as u32 & 0x1F) as u8,
        ctrl_code(c) as int == c as int - 0x60,
        ctrl_code(((c as u32) - 0x20) as char) == ctrl_code(c),
{
    let x = c as u32;
    let u = ((c as u32) - 0x20) as char;
    assert(c as u8 == x as u8);
    assert(u as u8 == (x - 0x20) as u8);
    assert(0x61 <= x <= 0x7A ==> (x as u8) & 0x1F == (x & 0x1F) as u8 && (x & 0x1F) == x - 0x60
        && ((x - 0x20) as u8) & 0x1F == (x as u8) & 0x1F) by (bit_vector);
}

} // verus!
