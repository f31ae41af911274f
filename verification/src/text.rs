//! Words and command lines as sequences of characters.

use vstd::prelude::*;

verus! {

/// The texts of `words`, in order.
pub open spec fn texts(words: Seq<String>) -> Seq<Seq<char>> {
    Seq::new(words.len(), |i: int| words[i]@)
}

/// The text of `word`, where there is one.
pub open spec fn opt_text(word: Option<String>) -> Option<Seq<char>> {
    match word {
        Some(w) => Some(w@),
        None => None,
    }
}

/// The texts of `words`, where there are any.
pub open spec fn opt_texts(words: Option<Vec<String>>) -> Seq<Seq<char>> {
    match words {
        Some(w) => texts(w@),
        None => Seq::empty(),
    }
}

/// `texts` goes through `push`.
pub proof fn lemma_texts_push(words: Seq<String>, word: String)
    ensures
        texts(words.push(word)) == texts(words).push(word@),
{
    assert(texts(words.push(word)) =~= texts(words).push(word@));
}

/// Appends a copy of each of `words` to `line`.
pub fn extend_with(line: &mut Vec<String>, words: &Vec<String>)
    ensures
        texts(final(line)@) == texts(old(line)@) + texts(words@),
{
    let mut i: usize = 0;
    while i < words.len()
        invariant
            i <= words.len(),
            texts(line@) == texts(old(line)@) + texts(words@).take(i as int),
        decreases words.len() - i,
    {
        let word = words[i].clone();
        proof {
            lemma_texts_push(line@, word);
            assert(texts(words@).take(i as int).push(word@) =~= texts(words@).take(i as int + 1));
            assert((texts(old(line)@) + texts(words@).take(i as int)).push(word@) =~= texts(old(
                line,
            )@) + texts(words@).take(i as int + 1));
        }
        line.push(word);
        i += 1;
    }
    proof {
        assert(texts(words@).take(words.len() as int) =~= texts(words@));
    }
}

/// A line made of the one word `word`.
pub fn single(word: String) -> (line: Vec<String>)
    ensures
        texts(line@) == seq![word@],
{
    let mut line: Vec<String> = Vec::new();
    line.push(word);
    proof {
        assert(texts(line@) =~= seq![word@]);
    }
    line
}

} // verus!
