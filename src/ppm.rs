use vstd::prelude::*;

verus! {

/// `val` forced into the closed range `[min, max]`.
pub open spec fn clamped(min: int, val: int, max: int) -> int {
    if val < min {
        min
    } else if val > max {
        max
    } else {
        val
    }
}

/// Clamps `val` into `[min, max]`; the range must not be empty.
pub fn clamp(min: i32, val: i32, max: i32) -> (r: i32)
    requires
        min <= max,
    ensures
        r == clamped(min as int, val as int, max as int),
        min <= r <= max,
{
    if val < min {
        min
    } else if val > max {
        max
    } else {
        val
    }
}

/// The character of a decimal digit `d`, for `0 <= d < 10`.
pub open spec fn digit_char(d: int) -> char {
    seq!['0', '1', '2', '3', '4', '5', '6', '7', '8', '9'][d]
}

/// The decimal digits of `n`, most significant first, without leading zeros.
pub open spec fn decimal(n: nat) -> Seq<char>
    decreases n,
{
    if n < 10 {
        seq![digit_char(n as int)]
    } else {
        decimal(n / 10).push(digit_char((n % 10) as int))
    }
}

/// One channel of a pixel line: the value clamped into `[0, 255]`, in decimal.
pub open spec fn channel_text(v: int) -> Seq<char> {
    decimal(clamped(0, v, 255) as nat)
}

/// A pixel line: the three clamped channels separated by single spaces.
pub open spec fn pixel_text(r: int, g: int, b: int) -> Seq<char> {
    channel_text(r) + seq![' '] + channel_text(g) + seq![' '] + channel_text(b)
}

/// The line giving an image's dimensions: width, a space, height.
pub open spec fn size_text(width: nat, height: nat) -> Seq<char> {
    decimal(width) + seq![' '] + decimal(height)
}

/// The lines of a plain-text PPM image: the magic `P3`, the dimensions, the
/// largest channel value `255`, then one line per pixel in storage order.
pub open spec fn ppm_text(width: nat, height: nat, pixels: Seq<(i32, i32, i32)>) -> Seq<Seq<char>> {
    seq![seq!['P', '3'], size_text(width, height), seq!['2', '5', '5']] + pixels.map_values(
        |p: (i32, i32, i32)| pixel_text(p.0 as int, p.1 as int, p.2 as int),
    )
}

fn digit_str(d: u32) -> (s: &'static str)
    requires
        d < 10,
    ensures
        s@ == seq![digit_char(d as int)],
{
    proof {
        reveal_strlit("0");
        reveal_strlit("1");
        reveal_strlit("2");
        reveal_strlit("3");
        reveal_strlit("4");
        reveal_strlit("5");
        reveal_strlit("6");
        reveal_strlit("7");
        reveal_strlit("8");
        reveal_strlit("9");
    }
    match d {
        0 => "0",
        1 => "1",
        2 => "2",
        3 => "3",
        4 => "4",
        5 => "5",
        6 => "6",
        7 => "7",
        8 => "8",
        _ => "9",
    }
}

/// Renders `n` in decimal.
pub fn decimal_string(n: u32) -> (s: String)
    ensures
        s@ == decimal(n as nat),
    decreases n,
{
    if n < 10 {
        String::from_str(digit_str(n))
    } else {
        let mut s = decimal_string(n / 10);
        s.append(digit_str(n % 10));
        s
    }
}

/// Renders one pixel from its integer channels (already scaled to the
/// `0..=255` range, possibly outside it): each channel is clamped into
/// `[0, 255]` and the three are joined by single spaces.
pub fn channels_as_ppm(r: i32, g: i32, b: i32) -> (s: String)
    ensures
        s@ == pixel_text(r as int, g as int, b as int),
{
    let mut s = decimal_string(clamp(0, r, 255) as u32);
    s.append(" ");
    s.append(decimal_string(clamp(0, g, 255) as u32).as_str());
    s.append(" ");
    s.append(decimal_string(clamp(0, b, 255) as u32).as_str());
    proof {
        reveal_strlit(" ");
    }
    s
}

/// The text of each line of a string sequence.
pub open spec fn texts(lines: Seq<String>) -> Seq<Seq<char>> {
    lines.map_values(|l: String| l@)
}

/// The lines of the plain-text PPM image of `width` by `height` pixels whose
/// channels, in storage order, are `pixels`.
pub fn ppm_lines(width: i32, height: i32, pixels: &Vec<(i32, i32, i32)>) -> (lines: Vec<String>)
    requires
        width >= 0,
        height >= 0,
    ensures
        texts(lines@) == ppm_text(width as nat, height as nat, pixels@),
{
    let mut size = decimal_string(width as u32);
    size.append(" ");
    size.append(decimal_string(height as u32).as_str());
    let mut lines: Vec<String> = Vec::new();
    lines.push(String::from_str("P3"));
    lines.push(size);
    lines.push(String::from_str("255"));
    proof {
        reveal_strlit("P3");
        reveal_strlit(" ");
        reveal_strlit("255");
        assert(lines@[0]@ =~= seq!['P', '3']);
        assert(lines@[1]@ =~= size_text(width as nat, height as nat));
        assert(lines@[2]@ =~= seq!['2', '5', '5']);
        assert(texts(lines@) =~= ppm_text(width as nat, height as nat, pixels@.take(0)));
    }
    let mut i: usize = 0;
    while i < pixels.len()
        invariant
            width >= 0,
            height >= 0,
            i <= pixels@.len(),
            texts(lines@) =~= ppm_text(width as nat, height as nat, pixels@.take(i as int)),
        decreases pixels@.len() - i,
    {
        let p = pixels[i];
        let line = channels_as_ppm(p.0, p.1, p.2);
        let ghost before = lines@;
        lines.push(line);
        proof {
            assert(pixels@.take(i + 1) =~= pixels@.take(i as int).push(p));
            assert(texts(lines@) =~= texts(before).push(line@));
        }
        i = i + 1;
    }
    assert(pixels@.take(i as int) =~= pixels@);
    lines
}

/// A channel value at or above 255 renders as `255`, one at or below zero as
/// `0`, and one in between as its own decimal digits.
pub proof fn lemma_channel_saturates(v: int)
    ensures
        v >= 255 ==> channel_text(v) == seq!['2', '5', '5'],
        v <= 0 ==> channel_text(v) == seq!['0'],
        0 <= v <= 255 ==> channel_text(v) == decimal(v as nat),
{
    reveal_with_fuel(decimal, 3);
}

} // verus!
