use vstd::prelude::*;
use vstd::string::*;

verus! {

/// The three dots that mark a clamped name.
pub open spec fn ellipsis() -> Seq<char> {
    seq!['.', '.', '.']
}

/// A name of at most `max_len` characters stays as it is; a longer one keeps
/// its first `max_len - 3` characters followed by three dots, or, where the
/// limit leaves no room for three dots, is `max_len` dots.
pub open spec fn clamped(name: Seq<char>, max_len: nat) -> Seq<char> {
    if name.len() <= max_len {
        name
    } else if max_len >= 3 {
        name.take(max_len - 3) + ellipsis()
    } else {
        Seq::new(max_len, |i: int| '.')
    }
}

/// Clamps a name to a maximum length in characters, truncating it with an
/// ellipsis when it is longer.
pub fn clamp_name(name: &str, max_len: usize) -> (r: String)
    ensures
        r@ == clamped(name@, max_len as nat),
{
    let char_count = name.unicode_len();
    if char_count <= max_len {
        name.to_owned()
    } else if max_len < 3 {
        let mut out = String::new();
        let mut i: usize = 0;
        while i < max_len
            invariant
                i <= max_len,
                max_len < 3,
                out@ == Seq::new(i as nat, |k: int| '.'),
            decreases max_len - i,
        {
            proof {
                reveal_strlit(".");
            }
            out.append(".");
            assert(out@ =~= Seq::new((i + 1) as nat, |k: int| '.'));
            i = i + 1;
        }
        out
    } else {
        let truncate_at = max_len - 3;
        let head = name.substring_char(0, truncate_at);
        let mut out = head.to_owned();
        let dots = "...";
        proof {
            reveal_strlit("...");
        }
        out.append(dots);
        assert(out@ =~= clamped(name@, max_len as nat));
        out
    }
}

/// A name that fits is kept as it is; a clamped name is never longer than
/// the limit, and where the limit leaves room for the three dots it starts
/// with the name's first characters.
pub proof fn lemma_clamped_fits(name: Seq<char>, max_len: nat)
    ensures
        name.len() <= max_len ==> clamped(name, max_len) == name,
        clamped(name, max_len).len() <= max_len,
        name.len() > max_len && max_len >= 3 ==> clamped(name, max_len).subrange(0, max_len - 3)
            == name.take(max_len - 3),
{
    if name.len() > max_len && max_len >= 3 {
        assert((name.take(max_len - 3) + ellipsis()).subrange(0, max_len - 3) =~= name.take(max_len - 3));
    }
}

} // verus!
