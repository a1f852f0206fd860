//! Joining words into one line of text.

use vstd::prelude::*;

verus! {

/// The texts of a list of strings, in order.
pub open spec fn texts(words: Seq<String>) -> Seq<Seq<char>> {
    Seq::new(words.len(), |i: int| words[i]@)
}

/// The words joined into one text, with a single space between neighbours
/// and none at either end. No words give the empty text.
pub open spec fn join_spaced(words: Seq<Seq<char>>) -> Seq<char>
    decreases words.len(),
{
    if words.len() == 0 {
        Seq::empty()
    } else if words.len() == 1 {
        words[0]
    } else {
        join_spaced(words.drop_last()).push(' ') + words.last()
    }
}

/// Whether no word holds a space.
pub open spec fn space_free(words: Seq<Seq<char>>) -> bool {
    forall|i: int, j: int|
        0 <= i < words.len() && 0 <= j < words[i].len() ==> #[trigger] words[i][j] != ' '
}

/// Joining loses nothing as long as no word holds a space: two lists of at
/// least one such word each, with the same joined text, are the same list.
pub proof fn join_spaced_injective(a: Seq<Seq<char>>, b: Seq<Seq<char>>)
    requires
        a.len() >= 1,
        b.len() >= 1,
        space_free(a),
        space_free(b),
        join_spaced(a) == join_spaced(b),
    ensures
        a == b,
    decreases a.len() + b.len(),
{
    let ja = join_spaced(a);
    let jb = join_spaced(b);
    let la = a.last();
    let lb = b.last();
    if a.len() == 1 && b.len() == 1 {
        assert(a[0] == b[0]);
        assert(a =~= b);
    } else if a.len() == 1 {
        let pb = join_spaced(b.drop_last());
        assert(jb == pb.push(' ') + lb);
        assert(jb[pb.len() as int] == ' ');
        assert(ja[pb.len() as int] == a[0][pb.len() as int]);
        assert(false);
    } else if b.len() == 1 {
        let pa = join_spaced(a.drop_last());
        assert(ja == pa.push(' ') + la);
        assert(ja[pa.len() as int] == ' ');
        assert(jb[pa.len() as int] == b[0][pa.len() as int]);
        assert(false);
    } else {
        let pa = join_spaced(a.drop_last());
        let pb = join_spaced(b.drop_last());
        assert(ja == pa.push(' ') + la);
        assert(jb == pb.push(' ') + lb);
        assert(ja.len() == pa.len() + 1 + la.len());
        assert(jb.len() == pb.len() + 1 + lb.len());
        assert(ja[pa.len() as int] == ' ');
        assert(jb[pb.len() as int] == ' ');
        if la.len() < lb.len() {
            assert(jb[pa.len() as int] == lb[pa.len() - pb.len() - 1]);
            assert(b[b.len() - 1][pa.len() - pb.len() - 1] != ' ');
            assert(false);
        } else if lb.len() < la.len() {
            assert(ja[pb.len() as int] == la[pb.len() - pa.len() - 1]);
            assert(a[a.len() - 1][pb.len() - pa.len() - 1] != ' ');
            assert(false);
        } else {
            assert forall|k: int| 0 <= k < la.len() implies la[k] == lb[k] by {
                assert(ja[pa.len() + 1 + k] == la[k]);
                assert(jb[pb.len() + 1 + k] == lb[k]);
            }
            assert(la =~= lb);
            assert forall|k: int| 0 <= k < pa.len() implies pa[k] == pb[k] by {
                assert(ja[k] == pa[k]);
                assert(jb[k] == pb[k]);
            }
            assert(pa =~= pb);
            assert forall|i: int, j: int|
                0 <= i < a.drop_last().len() && 0 <= j < a.drop_last()[i].len() implies 
                #[trigger] a.drop_last()[i][j] != ' ' by {
                assert(a[i][j] != ' ');
            }
            assert forall|i: int, j: int|
                0 <= i < b.drop_last().len() && 0 <= j < b.drop_last()[i].len() implies 
                #[trigger] b.drop_last()[i][j] != ' ' by {
                assert(b[i][j] != ' ');
            }
            join_spaced_injective(a.drop_last(), b.drop_last());
            assert(a =~= a.drop_last().push(la));
            assert(b =~= b.drop_last().push(lb));
        }
    }
}

/// Joins the words of `words` from position `start` on with single spaces.
pub fn join_from(words: &Vec<String>, start: usize) -> (out: String)
    requires
        start <= words.len(),
    ensures
        out@ == join_spaced(texts(words@).skip(start as int)),
{
    let mut out = String::new();
    let mut i: usize = start;
    while i < words.len()
        invariant
            start <= i <= words.len(),
            out@ == join_spaced(texts(words@).subrange(start as int, i as int)),
        decreases words.len() - i,
    {
        proof {
            reveal_strlit(" ");
            let before = texts(words@).subrange(start as int, i as int);
            let after = texts(words@).subrange(start as int, i + 1);
            assert(after.drop_last() =~= before);
            assert(after.last() == words@[i as int]@);
            assert(" "@ =~= seq![' ']);
            if i > start {
                assert(join_spaced(after) == join_spaced(before).push(' ') + words@[i as int]@);
                assert(join_spaced(before).push(' ') =~= join_spaced(before) + " "@);
            } else {
                assert(join_spaced(before) =~= Seq::<char>::empty());
                assert(join_spaced(after) == words@[i as int]@);
                assert(Seq::<char>::empty() + words@[i as int]@ =~= words@[i as int]@);
            }
        }
        if i > start {
            out.append(" ");
        }
        out.append(words[i].as_str());
        i += 1;
    }
    proof {
        assert(texts(words@).subrange(start as int, i as int) =~= texts(words@).skip(
            start as int,
        ));
    }
    out
}

} // verus!
