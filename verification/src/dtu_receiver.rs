use vstd::prelude::*;

verus! {

/// Characters with the Unicode `White_Space` property (what `str::trim`
/// strips from either end).
pub open spec fn is_unicode_white_space(c: char) -> bool {
    let u = c as u32;
    (0x09 <= u <= 0x0d) || u == 0x20 || u == 0x85 || u == 0xa0 || u == 0x1680 || (0x2000 <= u
        <= 0x200a) || u == 0x2028 || u == 0x2029 || u == 0x202f || u == 0x205f || u == 0x3000
}

/// Whether `c` has the Unicode `White_Space` property.
pub fn white_space(c: char) -> (r: bool)
    ensures
        r == is_unicode_white_space(c),
{
    let u = c as u32;
    (0x09 <= u && u <= 0x0d) || u == 0x20 || u == 0x85 || u == 0xa0 || u == 0x1680 || (0x2000 <= u
        && u <= 0x200a) || u == 0x2028 || u == 0x2029 || u == 0x202f || u == 0x205f || u == 0x3000
}

/// A text that trims to nothing: every character is white space.
pub open spec fn is_blank(s: Seq<char>) -> bool {
    forall|i: int| 0 <= i < s.len() ==> is_unicode_white_space(#[trigger] s[i])
}

/// Whether a measurement's station identifier is empty once trimmed; such a
/// measurement is refused first, before any range check.
pub fn station_id_is_blank(station_id: &str) -> (r: bool)
    ensures
        r == is_blank(station_id@),
{
    let mut blank = true;
    for c in it: station_id.chars()
        invariant
            blank == (forall|i: int| 0 <= i < it.index() ==> is_unicode_white_space(#[trigger] it.seq()[i])),
    {
        if !white_space(c) {
            blank = false;
        }
    }
    blank
}

/// White space is confined to a few code points up to U+3000: nothing
/// above U+3000 (so no CJK ideograph) is white space, nor any visible ASCII
/// character, nor a control character outside tab..carriage return; tab,
/// line feed, vertical tab, form feed, carriage return, space, no-break
/// space and the ideographic space U+3000 are.
pub proof fn law_white_space_code_points(c: char)
    ensures
        c as u32 > 0x3000 ==> !is_unicode_white_space(c),
        0x21 <= c as u32 <= 0x7e ==> !is_unicode_white_space(c),
        (c as u32) < 0x09 ==> !is_unicode_white_space(c),
        0x0e <= c as u32 <= 0x1f ==> !is_unicode_white_space(c),
        (0x09 <= c as u32 <= 0x0d || c as u32 == 0x20 || c as u32 == 0xa0 || c as u32 == 0x3000)
            ==> is_unicode_white_space(c),
{
}

/// A text holding any character that is not white space, in particular any
/// character above U+3000 such as a Chinese station name, is not blank; the
/// empty text is blank.
pub proof fn law_text_with_content_not_blank(s: Seq<char>, i: int)
    requires
        0 <= i < s.len(),
        !is_unicode_white_space(s[i]) || s[i] as u32 > 0x3000,
    ensures
        !is_blank(s),
        is_blank(Seq::<char>::empty()),
{
    law_white_space_code_points(s[i]);
}

} // verus!
