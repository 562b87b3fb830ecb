//! Token text: how runs of tokens are put together into source text.

use vstd::prelude::*;

verus! {

/// The views of a list of strings, in order.
pub open spec fn string_views(parts: Seq<String>) -> Seq<Seq<char>> {
    parts.map_values(|s: String| s@)
}

/// The parts in order with `sep` between each two neighbours.
pub open spec fn join(parts: Seq<Seq<char>>, sep: Seq<char>) -> Seq<char>
    decreases parts.len(),
{
    if parts.len() == 0 {
        Seq::empty()
    } else if parts.len() == 1 {
        parts[0]
    } else {
        join(parts.drop_last(), sep) + sep + parts.last()
    }
}

/// `piece` followed by a space where there is a piece, nothing otherwise.
pub open spec fn leading(piece: Seq<char>) -> Seq<char> {
    if piece.len() == 0 {
        Seq::empty()
    } else {
        piece + " "@
    }
}

/// A space followed by `piece` where there is a piece, nothing otherwise.
pub open spec fn trailing(piece: Seq<char>) -> Seq<char> {
    if piece.len() == 0 {
        Seq::empty()
    } else {
        " "@ + piece
    }
}

pub(crate) fn push_leading(out: &mut String, piece: &str)
    ensures
        final(out)@ == old(out)@ + leading(piece@),
{
    if !piece.is_empty() {
        out.append(piece);
        out.append(" ");
        assert(out@ =~= old(out)@ + (piece@ + " "@));
    } else {
        assert(out@ =~= old(out)@ + Seq::<char>::empty());
    }
}

pub(crate) fn push_trailing(out: &mut String, piece: &str)
    ensures
        final(out)@ == old(out)@ + trailing(piece@),
{
    if !piece.is_empty() {
        out.append(" ");
        out.append(piece);
        assert(out@ =~= old(out)@ + (" "@ + piece@));
    } else {
        assert(out@ =~= old(out)@ + Seq::<char>::empty());
    }
}

/// Appends the parts to `out`, with `sep` between each two neighbours.
pub(crate) fn push_joined(out: &mut String, parts: &Vec<String>, sep: &str)
    ensures
        final(out)@ == old(out)@ + join(string_views(parts@), sep@),
{
    let ghost views = string_views(parts@);
    let n = parts.len();
    let mut i: usize = 0;
    assert(views.take(0) =~= Seq::<Seq<char>>::empty());
    assert(out@ =~= old(out)@ + join(views.take(0), sep@));
    while i < n
        invariant
            i <= n,
            n == parts.len(),
            views == string_views(parts@),
            out@ == old(out)@ + join(views.take(i as int), sep@),
        decreases n - i,
    {
        let ghost before = out@;
        if i > 0 {
            out.append(sep);
        }
        out.append(parts[i].as_str());
        proof {
            let next = views.take(i + 1);
            assert(next.drop_last() =~= views.take(i as int));
            assert(next.last() == parts[i as int]@);
            if i == 0 {
                assert(join(views.take(0), sep@) =~= Seq::<char>::empty());
                assert(out@ =~= old(out)@ + join(next, sep@));
            } else {
                let joined = join(views.take(i as int), sep@);
                assert(out@ =~= old(out)@ + (joined + sep@ + next.last()));
            }
        }
        i = i + 1;
    }
    assert(views.take(n as int) =~= views);
}

} // verus!
