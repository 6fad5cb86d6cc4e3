//! Splitting a keyword search string into its words.
use vstd::prelude::*;

verus! {

/// `s` cut at each of its spaces, read from left to right: every space
/// ends the current word and starts a new one, so two neighbouring spaces
/// leave an empty word between them, and the empty string is one empty word.
pub open spec fn split_on_space_spec(s: Seq<char>) -> Seq<Seq<char>>
    decreases s.len(),
{
    if s.len() == 0 {
        seq![Seq::empty()]
    } else {
        let init = split_on_space_spec(s.drop_last());
        if s.last() == ' ' {
            init.push(Seq::empty())
        } else {
            init.update(init.len() - 1, init.last().push(s.last()))
        }
    }
}

/// The words of `pieces` put back together, one space between neighbours.
pub open spec fn join_with_space(pieces: Seq<Seq<char>>) -> Seq<char>
    decreases pieces.len(),
{
    if pieces.len() == 0 {
        Seq::empty()
    } else if pieces.len() == 1 {
        pieces[0]
    } else {
        join_with_space(pieces.drop_last()) + seq![' '] + pieces.last()
    }
}

/// No word holds a space.
pub open spec fn space_free(pieces: Seq<Seq<char>>) -> bool {
    forall|i: int, j: int| 0 <= i < pieces.len() && 0 <= j < pieces[i].len() ==> pieces[i][j] != ' '
}

/// `pieces` is a decomposition of `s` into space-free words separated by
/// single spaces.
pub open spec fn is_split_of(pieces: Seq<Seq<char>>, s: Seq<char>) -> bool {
    &&& pieces.len() >= 1
    &&& join_with_space(pieces) == s
    &&& space_free(pieces)
}

proof fn lemma_split_len(s: Seq<char>)
    ensures
        split_on_space_spec(s).len() >= 1,
    decreases s.len(),
{
    if s.len() > 0 {
        lemma_split_len(s.drop_last());
    }
}

proof fn lemma_join_push(done: Seq<Seq<char>>, x: Seq<char>)
    ensures
        join_with_space(done.push(x)) == if done.len() == 0 {
            x
        } else {
            join_with_space(done) + seq![' '] + x
        },
{
    assert(done.push(x).drop_last() =~= done);
    if done.len() == 0 {
        assert(done.push(x)[0] == x);
    }
}

/// The words of a split, joined back with single spaces, give the string
/// again, and no word holds a space.
pub proof fn lemma_split_rejoins(s: Seq<char>)
    ensures
        is_split_of(split_on_space_spec(s), s),
    decreases s.len(),
{
    if s.len() == 0 {
        let p = split_on_space_spec(s);
        assert(p =~= seq![Seq::<char>::empty()]);
        assert(join_with_space(p) == p[0]);
        assert(s =~= Seq::<char>::empty());
    } else {
        let t = s.drop_last();
        lemma_split_rejoins(t);
        let init = split_on_space_spec(t);
        let c = s.last();
        assert(s =~= t.push(c));
        if c == ' ' {
            lemma_join_push(init, Seq::empty());
            assert(join_with_space(init) + seq![' '] + Seq::<char>::empty() =~= t.push(c));
        } else {
            let d = init.drop_last();
            let w = init.last();
            assert(init =~= d.push(w));
            assert(init.update(init.len() - 1, w.push(c)) =~= d.push(w.push(c)));
            lemma_join_push(d, w);
            lemma_join_push(d, w.push(c));
            if d.len() == 0 {
                assert(join_with_space(init) == w);
            } else {
                assert(join_with_space(d) + seq![' '] + w.push(c) =~= (join_with_space(d)
                    + seq![' '] + w).push(c));
            }
            let p = split_on_space_spec(s);
            assert forall|i: int, j: int| 0 <= i < p.len() && 0 <= j < p[i].len() implies p[i][j]
                != ' ' by {
                if i < p.len() - 1 {
                    assert(p[i] == init[i]);
                } else if j < w.len() {
                    assert(p[i][j] == w[j]);
                    assert(w == init[init.len() - 1]);
                }
            }
        }
    }
}

/// Law: the split is the only decomposition of `s` into space-free words
/// separated by single spaces.
pub proof fn lemma_split_unique(pieces: Seq<Seq<char>>, s: Seq<char>)
    requires
        is_split_of(pieces, s),
    ensures
        pieces == split_on_space_spec(s),
    decreases s.len(),
{
    let k = pieces.len();
    let d = pieces.drop_last();
    let w = pieces.last();
    assert(pieces =~= d.push(w));
    lemma_join_push(d, w);
    if s.len() == 0 {
        if k >= 2 {
            assert(join_with_space(pieces).len() >= 1);
        }
        assert(join_with_space(pieces) == pieces[0]);
        assert(pieces[0] =~= Seq::<char>::empty());
        assert(pieces =~= seq![Seq::<char>::empty()]);
    } else {
        let c = s.last();
        let t = s.drop_last();
        if k == 1 {
            assert(w == s);
            if c == ' ' {
                assert(pieces[0][s.len() - 1] == ' ');
            }
            let p1 = seq![t];
            assert(join_with_space(p1) == p1[0]);
            assert forall|i: int, j: int| 0 <= i < p1.len() && 0 <= j < p1[i].len() implies p1[i][j]
                != ' ' by {
                assert(p1[i][j] == pieces[0][j]);
            }
            lemma_split_unique(p1, t);
            assert(t.push(c) =~= s);
            assert(pieces =~= seq![s]);
            assert(split_on_space_spec(t).update(0, t.push(c)) =~= pieces);
        } else if w.len() == 0 {
            assert(join_with_space(pieces) =~= join_with_space(d) + seq![' ']);
            assert(t =~= join_with_space(d));
            assert forall|i: int, j: int| 0 <= i < d.len() && 0 <= j < d[i].len() implies d[i][j]
                != ' ' by {
                assert(d[i] == pieces[i]);
            }
            lemma_split_unique(d, t);
            assert(w =~= Seq::<char>::empty());
            assert(d.push(Seq::<char>::empty()) =~= pieces);
        } else {
            let w1 = w.drop_last();
            let p1 = d.push(w1);
            assert(w =~= w1.push(w.last()));
            assert(c == w.last());
            assert(pieces[k - 1][w.len() - 1] != ' ');
            lemma_join_push(d, w1);
            assert(join_with_space(d) + seq![' '] + w =~= (join_with_space(d) + seq![' '] + w1).push(
                c,
            ));
            assert(t =~= join_with_space(p1));
            assert forall|i: int, j: int| 0 <= i < p1.len() && 0 <= j < p1[i].len() implies p1[i][j]
                != ' ' by {
                if i < k - 1 {
                    assert(p1[i] == pieces[i]);
                } else {
                    assert(p1[i][j] == pieces[k - 1][j]);
                }
            }
            lemma_split_unique(p1, t);
            assert(p1.update(p1.len() - 1, p1.last().push(c)) =~= pieces);
        }
    }
}

/// Splits `s` at every space, as `str::split(' ')` does.
pub fn split_on_space(s: &str) -> (pieces: Vec<String>)
    ensures
        pieces@.map_values(|p: String| p@) == split_on_space_spec(s@),
{
    let n = s.unicode_len();
    let mut pieces: Vec<String> = Vec::new();
    let mut start: usize = 0;
    let mut i: usize = 0;
    proof {
        assert(s@.subrange(0, 0) =~= Seq::<char>::empty());
        assert(pieces@.map_values(|p: String| p@).push(s@.subrange(0, 0)) =~= seq![
            Seq::<char>::empty(),
        ]);
    }
    while i < n
        invariant
            n == s@.len(),
            start <= i <= n,
            split_on_space_spec(s@.subrange(0, i as int)) == pieces@.map_values(|p: String| p@).push(
                s@.subrange(start as int, i as int),
            ),
        decreases n - i,
    {
        let c = s.get_char(i);
        let ghost done = pieces@.map_values(|p: String| p@);
        let ghost cur = s@.subrange(start as int, i as int);
        assert(s@.subrange(0, i as int + 1).drop_last() =~= s@.subrange(0, i as int));
        if c == ' ' {
            let word = String::from_str(s.substring_char(start, i));
            pieces.push(word);
            proof {
                assert(pieces@.map_values(|p: String| p@) =~= done.push(cur));
                assert(s@.subrange(i as int + 1, i as int + 1) =~= Seq::<char>::empty());
            }
            start = i + 1;
        } else {
            proof {
                assert(s@.subrange(start as int, i as int + 1) =~= cur.push(c));
                assert(done.push(cur).update(done.len() as int, cur.push(c)) =~= done.push(
                    cur.push(c),
                ));
            }
        }
        i = i + 1;
    }
    let last = String::from_str(s.substring_char(start, n));
    let ghost done = pieces@.map_values(|p: String| p@);
    pieces.push(last);
    proof {
        assert(pieces@.map_values(|p: String| p@) =~= done.push(s@.subrange(start as int, n as int)));
        assert(s@.subrange(0, n as int) =~= s@);
    }
    pieces
}

} // verus!
