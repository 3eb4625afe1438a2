use vstd::prelude::*;
use crate::model::Corner;
use crate::text::{chars_to_string, push_chars, spec_digit_char, str_chars};

verus! {

/// The hexadecimal digit `d` as a character, for `d < 16`.
pub open spec fn spec_hex_digit(d: nat) -> char {
    if d < 10 { spec_digit_char(d) }
    else if d == 10 { 'a' }
    else if d == 11 { 'b' }
    else if d == 12 { 'c' }
    else if d == 13 { 'd' }
    else if d == 14 { 'e' }
    else { 'f' }
}

/// One character as it stands inside a JSON string literal: quote,
/// backslash and the common control characters get their two-character
/// escapes, the other control characters a `\u00..` escape, and
/// everything else stands as itself.
pub open spec fn spec_escaped_char(c: char) -> Seq<char> {
    if c == '"' { seq!['\\', '"'] }
    else if c == '\\' { seq!['\\', '\\'] }
    else if c == '\n' { seq!['\\', 'n'] }
    else if c == '\r' { seq!['\\', 'r'] }
    else if c == '\t' { seq!['\\', 't'] }
    else if (c as u32) < 32 {
        seq!['\\', 'u', '0', '0',
            spec_hex_digit(((c as u32) / 16) as nat),
            spec_hex_digit(((c as u32) % 16) as nat)]
    }
    else { seq![c] }
}

/// `s` rendered as the inside of a JSON string literal, character by
/// character.
pub open spec fn spec_escaped(s: Seq<char>) -> Seq<char>
    decreases s.len(),
{
    if s.len() == 0 {
        Seq::<char>::empty()
    } else {
        spec_escaped_char(s[0]) + spec_escaped(s.skip(1))
    }
}

fn hex_digit(d: u32) -> (r: char)
    requires
        d < 16,
    ensures
        r == spec_hex_digit(d as nat),
{
    if d == 0 { '0' }
    else if d == 1 { '1' }
    else if d == 2 { '2' }
    else if d == 3 { '3' }
    else if d == 4 { '4' }
    else if d == 5 { '5' }
    else if d == 6 { '6' }
    else if d == 7 { '7' }
    else if d == 8 { '8' }
    else if d == 9 { '9' }
    else if d == 10 { 'a' }
    else if d == 11 { 'b' }
    else if d == 12 { 'c' }
    else if d == 13 { 'd' }
    else if d == 14 { 'e' }
    else { 'f' }
}

/// Appends the JSON string escape of one character.
fn push_escaped_char(out: &mut Vec<char>, c: char)
    ensures
        final(out)@ == old(out)@ + spec_escaped_char(c),
{
    if c == '"' {
        out.push('\\');
        out.push('"');
    } else if c == '\\' {
        out.push('\\');
        out.push('\\');
    } else if c == '\n' {
        out.push('\\');
        out.push('n');
    } else if c == '\r' {
        out.push('\\');
        out.push('r');
    } else if c == '\t' {
        out.push('\\');
        out.push('t');
    } else if (c as u32) < 32 {
        out.push('\\');
        out.push('u');
        out.push('0');
        out.push('0');
        out.push(hex_digit((c as u32) / 16));
        out.push(hex_digit((c as u32) % 16));
    } else {
        out.push(c);
    }
    assert(out@ =~= old(out)@ + spec_escaped_char(c));
}

proof fn lemma_escaped_step(s: Seq<char>, i: int)
    requires
        0 <= i < s.len(),
    ensures
        spec_escaped(s.skip(i)) == spec_escaped_char(s[i]) + spec_escaped(s.skip(i + 1)),
{
    assert(s.skip(i)[0] == s[i]);
    assert(s.skip(i).skip(1) =~= s.skip(i + 1));
}

/// Appends every character of `s`, JSON-escaped.
fn push_escaped(out: &mut Vec<char>, s: &Vec<char>)
    ensures
        final(out)@ == old(out)@ + spec_escaped(s@),
{
    let mut i: usize = 0;
    assert(s@.skip(0) =~= s@);
    assert(old(out)@ + spec_escaped(s@) =~= out@ + spec_escaped(s@));
    while i < s.len()
        invariant
            i <= s.len(),
            old(out)@ + spec_escaped(s@) == out@ + spec_escaped(s@.skip(i as int)),
        decreases s.len() - i,
    {
        proof {
            lemma_escaped_step(s@, i as int);
        }
        let ghost pre = out@;
        push_escaped_char(out, s[i]);
        assert(out@ + spec_escaped(s@.skip(i + 1))
            =~= pre + (spec_escaped_char(s@[i as int]) + spec_escaped(s@.skip(i + 1))));
        i = i + 1;
    }
    assert(s@.skip(i as int) =~= Seq::<char>::empty());
    assert(out@ + spec_escaped(s@.skip(i as int)) =~= out@);
}

/// One corner as a JSON object with exactly the four fields, in this
/// fixed key order, each value rendered as a JSON string literal, so
/// the listing stays valid JSON whatever the values hold.
pub open spec fn spec_corner_json(c: Corner) -> Seq<char> {
    "{\"title\": \""@ + spec_escaped(c.title@)
        + "\",\"corner_name\": \""@ + spec_escaped(c.corner_name@)
        + "\",\"series_site_id\": \""@ + spec_escaped(c.series_site_id@)
        + "\",\"corner_site_id\": \""@ + spec_escaped(c.corner_site_id@)
        + "\"}"@
}

/// The corner objects one per line, separated by commas, the last line
/// without one; empty when there is no corner.
pub open spec fn spec_listing_body(cs: Seq<Corner>) -> Seq<char>
    decreases cs.len(),
{
    if cs.len() == 0 {
        Seq::<char>::empty()
    } else {
        spec_corner_json(cs[0])
            + (if cs.len() == 1 { "\n"@ } else { ",\n"@ })
            + spec_listing_body(cs.skip(1))
    }
}

/// The whole listing: a JSON array with one corner object per line,
/// opened and closed by bracket lines, ending in a newline.
pub open spec fn spec_listing(cs: Seq<Corner>) -> Seq<char> {
    "[\n"@ + spec_listing_body(cs) + "]\n"@
}

/// Builds the JSON object line for one corner.
fn corner_json(c: &Corner) -> (r: Vec<char>)
    ensures
        r@ == spec_corner_json(*c),
{
    let mut out: Vec<char> = Vec::new();
    let p1 = str_chars("{\"title\": \"");
    let p2 = str_chars("\",\"corner_name\": \"");
    let p3 = str_chars("\",\"series_site_id\": \"");
    let p4 = str_chars("\",\"corner_site_id\": \"");
    let p5 = str_chars("\"}");
    let title = str_chars(c.title.as_str());
    let corner_name = str_chars(c.corner_name.as_str());
    let series_site_id = str_chars(c.series_site_id.as_str());
    let corner_site_id = str_chars(c.corner_site_id.as_str());
    push_chars(&mut out, &p1);
    push_escaped(&mut out, &title);
    push_chars(&mut out, &p2);
    push_escaped(&mut out, &corner_name);
    push_chars(&mut out, &p3);
    push_escaped(&mut out, &series_site_id);
    push_chars(&mut out, &p4);
    push_escaped(&mut out, &corner_site_id);
    push_chars(&mut out, &p5);
    assert(out@ =~= spec_corner_json(*c));
    out
}

proof fn lemma_listing_body_step(cs: Seq<Corner>, i: int)
    requires
        0 <= i < cs.len(),
    ensures
        spec_listing_body(cs.skip(i)) == spec_corner_json(cs[i])
            + (if i == cs.len() - 1 { "\n"@ } else { ",\n"@ })
            + spec_listing_body(cs.skip(i + 1)),
{
    let t = cs.skip(i);
    assert(t[0] == cs[i]);
    assert(t.skip(1) =~= cs.skip(i + 1));
}

/// Serializes the corners as the listing text: a JSON array of objects
/// with exactly the four corner fields, one object per line, in the
/// given order.
pub fn format_listing(corners: &Vec<Corner>) -> (r: String)
    ensures
        r@ == spec_listing(corners@),
{
    let mut out: Vec<char> = Vec::new();
    let open = str_chars("[\n");
    let close = str_chars("]\n");
    let comma_nl = str_chars(",\n");
    let nl = str_chars("\n");
    push_chars(&mut out, &open);
    let mut i: usize = 0;
    assert(corners@.skip(0) =~= corners@);
    while i < corners.len()
        invariant
            i <= corners.len(),
            nl@ == "\n"@,
            comma_nl@ == ",\n"@,
            out@ + spec_listing_body(corners@.skip(i as int)) == "[\n"@ + spec_listing_body(corners@),
        decreases corners.len() - i,
    {
        proof {
            lemma_listing_body_step(corners@, i as int);
        }
        let ghost pre = out@;
        let ghost cj = spec_corner_json(corners@[i as int]);
        let ghost sep: Seq<char> = if i + 1 == corners.len() { "\n"@ } else { ",\n"@ };
        let line = corner_json(&corners[i]);
        push_chars(&mut out, &line);
        if i + 1 == corners.len() {
            push_chars(&mut out, &nl);
        } else {
            push_chars(&mut out, &comma_nl);
        }
        proof {
            assert(out@ == pre + cj + sep);
            assert(cj + sep + spec_listing_body(corners@.skip(i + 1))
                == spec_listing_body(corners@.skip(i as int)));
            assert(out@ + spec_listing_body(corners@.skip(i + 1))
                =~= pre + (cj + sep + spec_listing_body(corners@.skip(i + 1))));
        }
        i = i + 1;
    }
    assert(corners@.skip(i as int) =~= Seq::<Corner>::empty());
    push_chars(&mut out, &close);
    assert(out@ =~= spec_listing(corners@));
    chars_to_string(&out)
}

} // verus!
