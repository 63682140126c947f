//! The `init` command: the `.prtgn` text file to create, view or edit.

pub mod text_editor;
pub mod wav_converter;

use vstd::prelude::*;
use crate::text::{with_suffix, with_suffix_string, words, is_white_space, words_from};

verus! {

/// The text extension, `.prtgn`.
pub open spec fn prtgn_ext() -> Seq<char> {
    seq!['.', 'p', 'r', 't', 'g', 'n']
}

/// The text extension.
pub fn prtgn_extension() -> (r: &'static str)
    ensures
        r@ == prtgn_ext(),
{
    proof {
        reveal_strlit(".prtgn");
    }
    ".prtgn"
}

/// The file that `init` opens in the editor: `filename` with `.prtgn`
/// appended unless it already ends so.
pub fn init(filename: String) -> (r: String)
    ensures
        r@ == with_suffix(filename@, prtgn_ext()),
{
    with_suffix_string(filename.as_str(), prtgn_extension())
}

/// A text holding a character that is not white space has a word.
pub proof fn lemma_words_nonempty(s: Seq<char>, cur: Seq<char>, i: int)
    requires
        0 <= i < s.len(),
        !is_white_space(s[i]),
    ensures
        words_from(s, cur).len() > 0,
    decreases s.len(),
{
    if i > 0 {
        assert(s.drop_first()[i - 1] == s[i]);
        if is_white_space(s[0]) {
            lemma_words_nonempty(s.drop_first(), Seq::empty(), i - 1);
        } else {
            lemma_words_nonempty(s.drop_first(), cur.push(s[0]), i - 1);
        }
    } else {
        lemma_words_from_nonempty(s.drop_first(), cur.push(s[0]));
    }
}

/// Words are kept while a word is being read.
pub proof fn lemma_words_from_nonempty(s: Seq<char>, cur: Seq<char>)
    requires
        cur.len() > 0,
    ensures
        words_from(s, cur).len() > 0,
    decreases s.len(),
{
    if s.len() > 0 && !is_white_space(s[0]) {
        lemma_words_from_nonempty(s.drop_first(), cur.push(s[0]));
    }
}

/// The file that `init` names always opens: the editor never answers it
/// with its usage error, since the name holds at least one word.
pub proof fn lemma_init_name_opens(filename: Seq<char>)
    ensures
        words(with_suffix(filename, prtgn_ext())).len() > 0,
{
    let s = with_suffix(filename, prtgn_ext());
    if !crate::text::ends_with(filename, prtgn_ext()) {
        assert(s[s.len() - 1] == 'n');
    } else {
        assert(s.skip(s.len() - 6) == prtgn_ext());
        assert(s[s.len() - 1] == s.skip(s.len() - 6)[5]);
    }
    assert(!is_white_space(s[s.len() - 1]));
    lemma_words_nonempty(s, Seq::empty(), s.len() - 1);
}

} // verus!
