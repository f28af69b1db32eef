use vstd::prelude::*;

verus! {

/// Why a class path could not be taken.
#[derive(Debug, PartialEq, Clone)]
pub enum ClassPathParseError {
    /// The entry is neither a directory nor a jar file.
    InvalidEntry(String),
}

/// The pieces of `s` between the occurrences of `sep`, in order; a string without `sep`
/// is one piece, and the empty string is one empty piece.
pub open spec fn split_on(s: Seq<char>, sep: char) -> Seq<Seq<char>>
    decreases s.len(),
{
    if s.len() == 0 {
        seq![Seq::empty()]
    } else {
        let rest = split_on(s.drop_last(), sep);
        if s.last() == sep {
            rest.push(Seq::empty())
        } else {
            rest.update(rest.len() - 1, rest.last().push(s.last()))
        }
    }
}

proof fn lemma_split_on_nonempty(s: Seq<char>, sep: char)
    ensures
        split_on(s, sep).len() >= 1,
    decreases s.len(),
{
    if s.len() > 0 {
        lemma_split_on_nonempty(s.drop_last(), sep);
    }
}

/// The entries of a class path, which are separated by `;`.
pub fn split_class_path(string: &str) -> (r: Vec<String>)
    ensures
        r@.len() == split_on(string@, ';').len(),
        forall|i: int| 0 <= i < r@.len() ==> #[trigger] r@[i]@ == split_on(string@, ';')[i],
{
    let n = string.unicode_len();
    let mut pieces: Vec<String> = Vec::new();
    let mut start: usize = 0;
    let mut j: usize = 0;
    while j < n
        invariant
            n == string@.len(),
            start <= j <= n,
            split_on(string@.take(j as int), ';').len() == pieces@.len() + 1,
            forall|i: int|
                0 <= i < pieces@.len() ==> #[trigger] pieces@[i]@ == split_on(
                    string@.take(j as int),
                    ';',
                )[i],
            split_on(string@.take(j as int), ';').last() == string@.subrange(start as int, j as int),
        decreases n - j,
    {
        let c = string.get_char(j);
        proof {
            assert(string@.take(j + 1).drop_last() =~= string@.take(j as int));
            assert(string@.take(j + 1).last() == c);
            lemma_split_on_nonempty(string@.take(j as int), ';');
        }
        if c == ';' {
            let piece = string.substring_char(start, j).to_owned();
            pieces.push(piece);
            start = j + 1;
            proof {
                assert(string@.subrange(start as int, j + 1) =~= Seq::<char>::empty());
            }
        } else {
            proof {
                assert(string@.subrange(start as int, j + 1) =~= string@.subrange(
                    start as int,
                    j as int,
                ).push(c));
            }
        }
        j = j + 1;
    }
    proof {
        assert(string@.take(n as int) =~= string@);
    }
    let last = string.substring_char(start, n).to_owned();
    pieces.push(last);
    pieces
}

} // verus!
