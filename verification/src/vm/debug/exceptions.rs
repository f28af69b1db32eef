use vstd::prelude::*;

verus! {

/// The lines recorded while an exception unwinds, kept for a report.
pub struct ExceptionHelper {
    history: Vec<String>,
}

impl ExceptionHelper {
    /// The recorded lines, oldest first.
    pub closed spec fn history(&self) -> Seq<Seq<char>> {
        self.history@.map_values(|s: String| s@)
    }

    /// A helper with nothing recorded.
    pub fn new() -> (r: Self)
        ensures
            r.history() == Seq::<Seq<char>>::empty(),
    {
        let r = ExceptionHelper { history: Vec::new() };
        assert(r.history() =~= Seq::<Seq<char>>::empty());
        r
    }

    /// Records `line` after the lines recorded so far.
    pub fn push(&mut self, line: String)
        ensures
            final(self).history() == old(self).history().push(line@),
    {
        self.history.push(line);
        assert(self.history() =~= old(self).history().push(line@));
    }

    /// The lines to report, oldest first.
    pub fn print(&self) -> (r: Vec<String>)
        ensures
            r@.len() == self.history().len(),
            forall|j: int| 0 <= j < r@.len() ==> #[trigger] r@[j]@ == self.history()[j],
    {
        let mut r: Vec<String> = Vec::new();
        let mut i: usize = 0;
        while i < self.history.len()
            invariant
                i <= self.history@.len(),
                r@.len() == i,
                forall|j: int| 0 <= j < i ==> #[trigger] r@[j]@ == self.history()[j],
            decreases self.history@.len() - i,
        {
            let line = self.history[i].clone();
            r.push(line);
            i = i + 1;
        }
        r
    }
}

} // verus!
