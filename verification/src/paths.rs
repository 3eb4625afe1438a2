use vstd::prelude::*;
use crate::text::{chars_to_string, push_chars, push_decimal, spec_decimal, str_chars};

verus! {

/// `s` with every space replaced by an underscore.
pub open spec fn spec_underscored(s: Seq<char>) -> Seq<char> {
    s.map_values(|c: char| if c == ' ' { '_' } else { c })
}

/// `s` with every doubled path separator collapsed to a single one,
/// scanning left to right over non-overlapping pairs (so `"///"`
/// becomes `"//"`, as one pair is collapsed and the third separator
/// stands alone).
pub open spec fn spec_collapsed(s: Seq<char>) -> Seq<char>
    decreases s.len(),
{
    if s.len() == 0 {
        s
    } else if s.len() >= 2 && s[0] == '/' && s[1] == '/' {
        seq!['/'] + spec_collapsed(s.skip(2))
    } else {
        seq![s[0]] + spec_collapsed(s.skip(1))
    }
}

/// The output path for an episode: the directory, a separator, the
/// episode id in decimal, an underscore, the title with spaces turned
/// into underscores, and the `.m4a` suffix, with doubled separators
/// collapsed afterwards.
pub open spec fn spec_episode_filename(dir: Seq<char>, id: nat, title: Seq<char>) -> Seq<char> {
    spec_collapsed(dir + seq!['/'] + spec_decimal(id) + seq!['_'] + spec_underscored(title) + ".m4a"@)
}

/// Replaces every space in `s` by an underscore.
pub fn underscored(s: &Vec<char>) -> (r: Vec<char>)
    ensures
        r@ == spec_underscored(s@),
{
    let mut out: Vec<char> = Vec::new();
    let mut i: usize = 0;
    while i < s.len()
        invariant
            i <= s.len(),
            out@ == spec_underscored(s@.take(i as int)),
        decreases s.len() - i,
    {
        if s[i] == ' ' {
            out.push('_');
        } else {
            out.push(s[i]);
        }
        assert(out@ =~= spec_underscored(s@.take(i + 1)));
        i = i + 1;
    }
    assert(s@.take(s@.len() as int) =~= s@);
    out
}

proof fn lemma_collapsed_step(s: Seq<char>, i: int)
    requires
        0 <= i < s.len(),
    ensures
        (i + 1 < s.len() && s[i] == '/' && s[i + 1] == '/') ==>
            spec_collapsed(s.skip(i)) == seq!['/'] + spec_collapsed(s.skip(i + 2)),
        !(i + 1 < s.len() && s[i] == '/' && s[i + 1] == '/') ==>
            spec_collapsed(s.skip(i)) == seq![s[i]] + spec_collapsed(s.skip(i + 1)),
{
    let t = s.skip(i);
    assert(t.len() == s.len() - i);
    assert(t[0] == s[i]);
    if i + 1 < s.len() {
        assert(t[1] == s[i + 1]);
    }
    assert(t.skip(1) =~= s.skip(i + 1));
    if i + 2 <= s.len() {
        assert(t.skip(2) =~= s.skip(i + 2));
    }
}

/// Collapses every doubled separator in `s`, scanning left to right.
pub fn collapsed(s: &Vec<char>) -> (r: Vec<char>)
    ensures
        r@ == spec_collapsed(s@),
{
    let mut out: Vec<char> = Vec::new();
    let mut i: usize = 0;
    assert(s@.skip(0) =~= s@);
    assert(Seq::<char>::empty() + spec_collapsed(s@) =~= spec_collapsed(s@));
    while i < s.len()
        invariant
            i <= s.len(),
            spec_collapsed(s@) == out@ + spec_collapsed(s@.skip(i as int)),
        decreases s.len() - i,
    {
        proof {
            lemma_collapsed_step(s@, i as int);
        }
        if s[i] == '/' && i + 1 < s.len() && s[i + 1] == '/' {
            out.push('/');
            assert(spec_collapsed(s@) =~= out@ + spec_collapsed(s@.skip(i + 2)));
            i = i + 2;
        } else {
            out.push(s[i]);
            assert(spec_collapsed(s@) =~= out@ + spec_collapsed(s@.skip(i + 1)));
            i = i + 1;
        }
    }
    assert(s@.skip(i as int) =~= Seq::<char>::empty());
    assert(spec_collapsed(s@) =~= out@);
    out
}

/// Computes the output path for the episode with the given id and
/// title, inside `output_dir`.
pub fn episode_filename(output_dir: &str, id: u32, program_title: &str) -> (r: String)
    ensures
        r@ == spec_episode_filename(output_dir@, id as nat, program_title@),
{
    let dir = str_chars(output_dir);
    let title = str_chars(program_title);
    let suffix = str_chars(".m4a");
    let mut raw: Vec<char> = Vec::new();
    push_chars(&mut raw, &dir);
    raw.push('/');
    push_decimal(&mut raw, id);
    raw.push('_');
    let under = underscored(&title);
    push_chars(&mut raw, &under);
    push_chars(&mut raw, &suffix);
    assert(raw@ =~= output_dir@ + seq!['/'] + spec_decimal(id as nat) + seq!['_']
        + spec_underscored(program_title@) + ".m4a"@);
    let out = collapsed(&raw);
    chars_to_string(&out)
}

} // verus!
