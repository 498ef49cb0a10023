use vstd::prelude::*;

verus! {

/// The characters with Unicode's `White_Space` property.
pub open spec fn is_white_space(c: char) -> bool {
    let u = c as u32;
    ||| 0x9 <= u <= 0xd
    ||| u == 0x20
    ||| u == 0x85
    ||| u == 0xa0
    ||| u == 0x1680
    ||| 0x2000 <= u <= 0x200a
    ||| u == 0x2028
    ||| u == 0x2029
    ||| u == 0x202f
    ||| u == 0x205f
    ||| u == 0x3000
}

/// Whether `c` has the `White_Space` property, as `char::is_whitespace` tests.
fn char_is_white_space(c: char) -> (r: bool)
    ensures
        r == is_white_space(c),
{
    let u = c as u32;
    (0x9 <= u && u <= 0xd) || u == 0x20 || u == 0x85 || u == 0xa0 || u == 0x1680 || (0x2000 <= u
        && u <= 0x200a) || u == 0x2028 || u == 0x2029 || u == 0x202f || u == 0x205f || u == 0x3000
}

/// Position `i` of `s` holds the first character of a word: a character that
/// is not white space, at the start or right after white space.
pub open spec fn starts_word(s: Seq<char>, i: int) -> bool {
    &&& !is_white_space(s[i])
    &&& (i == 0 || is_white_space(s[i - 1]))
}

/// The number of whitespace-delimited tokens in `s`.
pub open spec fn word_count_of(s: Seq<char>) -> nat
    decreases s.len(),
{
    if s.len() == 0 {
        0
    } else {
        word_count_of(s.drop_last()) + if starts_word(s, s.len() - 1) {
            1nat
        } else {
            0nat
        }
    }
}

proof fn lemma_word_count_bound(s: Seq<char>)
    ensures
        word_count_of(s) <= s.len(),
    decreases s.len(),
{
    if s.len() > 0 {
        lemma_word_count_bound(s.drop_last());
    }
}

/// Counts the whitespace-delimited tokens of `s`.
pub fn word_count(s: &str) -> (n: usize)
    ensures
        n == word_count_of(s@),
{
    let len = s.unicode_len();
    let mut count: usize = 0;
    let mut after_space = true;
    let mut i: usize = 0;
    for c in it: s.chars()
        invariant
            len == s@.len(),
            it.seq() == s@,
            i == it.index(),
            count == word_count_of(s@.take(i as int)),
            after_space == (i == 0 || is_white_space(s@[i - 1])),
    {
        proof {
            lemma_word_count_bound(s@.take(i as int));
            assert(s@.take(i + 1).drop_last() == s@.take(i as int));
        }
        let space = char_is_white_space(c);
        if !space && after_space {
            count = count + 1;
        }
        after_space = space;
        i = i + 1;
    }
    proof {
        assert(s@.take(i as int) == s@);
    }
    count
}

/// The texts of `pages`, in order, each separated from the next by one space.
pub open spec fn joined_pages(pages: Seq<Seq<char>>) -> Seq<char>
    decreases pages.len(),
{
    if pages.len() == 0 {
        Seq::empty()
    } else if pages.len() == 1 {
        pages[0]
    } else {
        joined_pages(pages.drop_last()) + seq![' '] + pages.last()
    }
}

/// Joins the texts of `pages` with one space between neighbours.
pub fn join_pages(pages: &Vec<String>) -> (r: String)
    ensures
        r@ == joined_pages(pages@.map_values(|p: String| p@)),
{
    let ghost views = pages@.map_values(|p: String| p@);
    let mut r = String::new();
    let mut i: usize = 0;
    while i < pages.len()
        invariant
            i <= pages.len(),
            views == pages@.map_values(|p: String| p@),
            r@ == joined_pages(views.take(i as int)),
        decreases pages.len() - i,
    {
        proof {
            assert(views.take(i + 1).drop_last() == views.take(i as int));
        }
        if i > 0 {
            r.append(" ");
        }
        r.append(pages[i].as_str());
        proof {
            reveal_strlit(" ");
        }
        i = i + 1;
    }
    proof {
        assert(views.take(i as int) == views);
    }
    r
}

} // verus!
