use rand::Rng;
use vstd::prelude::*;

use crate::error::TypingError;

verus! {

broadcast use vstd::string::group_string_axioms;

/// The pieces of `s` between line breaks, in order. Every `'\n'` ends one
/// piece and starts the next, so empty lines give empty pieces and there is
/// always at least one piece.
pub open spec fn split_lines(s: Seq<char>) -> Seq<Seq<char>>
    decreases s.len(),
{
    if s.len() == 0 {
        seq![Seq::empty()]
    } else {
        let init = split_lines(s.drop_last());
        if s.last() == '\n' {
            init.push(Seq::empty())
        } else {
            init.update(init.len() - 1, init.last().push(s.last()))
        }
    }
}

/// The words of `ws` joined by single spaces.
pub open spec fn join_words(ws: Seq<Seq<char>>) -> Seq<char>
    decreases ws.len(),
{
    if ws.len() == 0 {
        Seq::empty()
    } else if ws.len() == 1 {
        ws[0]
    } else {
        join_words(ws.drop_last()) + seq![' '] + ws.last()
    }
}

/// A text always splits into at least one line.
pub proof fn lemma_split_lines_nonempty(s: Seq<char>)
    ensures
        split_lines(s).len() >= 1,
    decreases s.len(),
{
    if s.len() > 0 {
        lemma_split_lines_nonempty(s.drop_last());
    }
}

/// Relies on `String::push`: appends one character at the end.
#[verifier::external_body]
pub(crate) fn push_char(s: &mut String, c: char)
    ensures
        final(s)@ == old(s)@.push(c),
{
    s.push(c)
}

/// Relies on rand's `Rng::gen_range` on the thread-local generator: the value
/// lies in `[0, n)`; it panics when the range is empty.
#[verifier::external_body]
fn random_index(n: usize) -> (r: usize)
    requires
        n > 0,
    ensures
        r < n,
{
    rand::thread_rng().gen_range(0, n)
}

/// A list of candidate words, from which practice texts are drawn.
pub struct TextGenerator {
    words: Vec<String>,
}

impl TextGenerator {
    /// The candidate words, as character sequences.
    pub closed spec fn words_view(&self) -> Seq<Seq<char>> {
        self.words@.map_values(|w: String| w@)
    }

    pub open spec fn wf(&self) -> bool {
        self.words_view().len() > 0
    }

    /// Reads a word list with one word per line. The lines are kept as they
    /// are: no trimming, no deduplication, and empty lines become empty
    /// words. An empty text is rejected.
    pub fn new(contents: &str) -> (r: Result<TextGenerator, TypingError>)
        ensures
            r is Ok <==> contents@.len() > 0,
            r matches Err(e) ==> e == TypingError::InvalidInput,
            r matches Ok(g) ==> g.wf() && g.words_view() == split_lines(contents@),
    {
        if contents.is_empty() {
            return Err(TypingError::InvalidInput);
        }
        let mut words: Vec<String> = Vec::new();
        let mut current = String::new();
        let ghost mut read: Seq<char> = Seq::empty();
        for c in it: contents.chars()
            invariant
                it.seq() == contents@,
                read == it.seq().take(it.index() as int),
                words@.map_values(|w: String| w@).push(current@) == split_lines(read),
        {
            let ghost prefix = it.seq().take(it.index() as int);
            let ghost next = it.seq().take(it.index() + 1);
            assert(prefix == read);
            assert(next =~= read.push(c));
            assert(next.drop_last() =~= read);
            if c == '\n' {
                let line = current;
                current = String::new();
                words.push(line);
                assert(words@.map_values(|w: String| w@).push(current@) =~= split_lines(next));
            } else {
                push_char(&mut current, c);
                assert(words@.map_values(|w: String| w@).push(current@) =~= split_lines(next));
            }
            proof {
                read = read.push(c);
            }
        }
        words.push(current);
        proof {
            assert(read == contents@);
            assert(words@.map_values(|w: String| w@) =~= split_lines(contents@));
            lemma_split_lines_nonempty(contents@);
        }
        Ok(TextGenerator { words })
    }

    /// The words at `indices`, in that order.
    pub fn pick_words(&self, indices: &Vec<usize>) -> (r: Vec<String>)
        requires
            forall|i: int| 0 <= i < indices.len() ==> indices[i] < self.words_view().len(),
        ensures
            r@.map_values(|w: String| w@) == indices@.map_values(
                |j: usize| self.words_view()[j as int],
            ),
    {
        let mut r: Vec<String> = Vec::new();
        for k in 0..indices.len()
            invariant
                forall|i: int| 0 <= i < indices.len() ==> indices[i] < self.words_view().len(),
                r@.map_values(|w: String| w@) == indices@.take(k as int).map_values(
                    |j: usize| self.words_view()[j as int],
                ),
        {
            let word = self.words[indices[k]].clone();
            assert(word@ == self.words_view()[indices[k as int] as int]);
            let ghost before = r@;
            r.push(word);
            assert(indices@.take(k + 1) =~= indices@.take(k as int).push(indices[k as int]));
            assert(r@.map_values(|w: String| w@) =~= before.map_values(|w: String| w@).push(word@));
            assert(r@.map_values(|w: String| w@) =~= indices@.take(k + 1).map_values(
                |j: usize| self.words_view()[j as int],
            ));
        }
        assert(indices@.take(indices.len() as int) =~= indices@);
        r
    }

    /// Draws `len` words independently and uniformly, with replacement.
    /// `_chars` is reserved for restricting the alphabet and is not consulted.
    /// Asking for no words is rejected.
    pub fn generate(&self, _chars: &Vec<char>, len: usize) -> (r: Result<Vec<String>, TypingError>)
        requires
            self.wf(),
        ensures
            r is Ok <==> len > 0,
            r matches Err(e) ==> e == TypingError::InvalidInput,
            r matches Ok(ws) ==> self.drawn_from(ws@.map_values(|w: String| w@), len as nat),
    {
        if len == 0 {
            return Err(TypingError::InvalidInput);
        }
        let mut indices: Vec<usize> = Vec::new();
        for k in 0..len
            invariant
                self.wf(),
                indices.len() == k,
                forall|i: int| 0 <= i < indices.len() ==> indices[i] < self.words_view().len(),
        {
            indices.push(random_index(self.words.len()));
        }
        let ws = self.pick_words(&indices);
        assert(self.drawn_from(ws@.map_values(|w: String| w@), len as nat));
        Ok(ws)
    }

    /// `ws` holds `count` words, each one of the candidates.
    pub open spec fn drawn_from(&self, ws: Seq<Seq<char>>, count: nat) -> bool {
        &&& ws.len() == count
        &&& forall|i: int| 0 <= i < ws.len() ==> self.words_view().contains(#[trigger] ws[i])
    }
}

} // verus!
