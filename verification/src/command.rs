//! The Command System
//! This system is for parsing commands and preparing them for execution,
//! not for executing them.
use vstd::prelude::*;
use crate::types::is_white;
use crate::types::is_white_space;
use crate::types::push_char;
use crate::types::to_string;
use crate::world::World;

verus! {

/// A parsed command.
pub struct Command {
    // The original text of the command, as entered by the user, trimmed
    pub input: String,
    // The simplified command tokens.
    pub words: Vec<String>,
    // If true, this is a debugging command.
    pub is_debug: bool,
}

/// The index of the first character that is not white space, at or after `i`.
pub open spec fn first_non_white(s: Seq<char>, i: int) -> int
    decreases s.len() - i,
{
    if i >= s.len() {
        s.len() as int
    } else if !is_white_space(s[i]) {
        i
    } else {
        first_non_white(s, i + 1)
    }
}

/// One past the index of the last character that is not white space, at or before `j - 1`.
pub open spec fn last_non_white(s: Seq<char>, j: int) -> int
    decreases j,
{
    if j <= 0 {
        0
    } else if !is_white_space(s[j - 1]) {
        j
    } else {
        last_non_white(s, j - 1)
    }
}

/// The text without leading and trailing white space.
pub open spec fn trimmed(s: Seq<char>) -> Seq<char> {
    let a = first_non_white(s, 0);
    let b = last_non_white(s, s.len() as int);
    if a >= b {
        Seq::empty()
    } else {
        s.subrange(a, b)
    }
}

/// The text without commas and exclamation marks.
pub open spec fn stripped(s: Seq<char>) -> Seq<char> {
    s.filter(|c: char| c != ',' && c != '!')
}

/// The words of the text: the maximal runs of characters that are not white space.
pub open spec fn words_of(s: Seq<char>) -> Seq<Seq<char>>
    decreases s.len(),
{
    if s.len() == 0 {
        Seq::empty()
    } else {
        let w = words_of(s.drop_last());
        let c = s.last();
        if is_white_space(c) {
            w
        } else if s.len() > 1 && !is_white_space(s[s.len() - 2]) {
            w.update(w.len() - 1, w.last().push(c))
        } else {
            w.push(seq![c])
        }
    }
}

/// The error for input holding a period.
pub open spec fn period_error() -> Seq<char> {
    "Input contains '.'; multiple commands not yet support."@
}

proof fn lemma_words_nonempty(s: Seq<char>)
    requires
        s.len() > 0,
        !is_white_space(s.last()),
    ensures
        words_of(s).len() > 0,
    decreases s.len(),
{
    if s.len() > 1 && !is_white_space(s[s.len() - 2]) {
        lemma_words_nonempty(s.drop_last());
    }
}

proof fn lemma_first_non_white(s: Seq<char>, i: int)
    requires
        0 <= i <= s.len(),
    ensures
        i <= first_non_white(s, i) <= s.len(),
        forall|k: int| i <= k < first_non_white(s, i) ==> is_white_space(s[k]),
        first_non_white(s, i) < s.len() ==> !is_white_space(s[first_non_white(s, i)]),
    decreases s.len() - i,
{
    if i < s.len() && is_white_space(s[i]) {
        lemma_first_non_white(s, i + 1);
    }
}

proof fn lemma_last_non_white(s: Seq<char>, j: int)
    requires
        0 <= j <= s.len(),
    ensures
        0 <= last_non_white(s, j) <= j,
        forall|k: int| last_non_white(s, j) <= k < j ==> is_white_space(s[k]),
        last_non_white(s, j) > 0 ==> !is_white_space(s[last_non_white(s, j) - 1]),
    decreases j,
{
    if j > 0 && is_white_space(s[j - 1]) {
        lemma_last_non_white(s, j - 1);
    }
}

/// Removes leading and trailing white space.
pub fn trim(s: &str) -> (res: String)
    ensures
        res@ == trimmed(s@),
{
    let n = s.unicode_len();
    let mut a: usize = 0;
    while a < n && is_white(s.get_char(a))
        invariant
            n == s@.len(),
            a <= n,
            first_non_white(s@, 0) == first_non_white(s@, a as int),
        decreases n - a,
    {
        a = a + 1;
    }
    let mut b: usize = n;
    while b > 0 && is_white(s.get_char(b - 1))
        invariant
            n == s@.len(),
            b <= n,
            last_non_white(s@, n as int) == last_non_white(s@, b as int),
        decreases b,
    {
        b = b - 1;
    }
    if a >= b {
        String::new()
    } else {
        to_string(s.substring_char(a, b))
    }
}

impl Command {
    fn new(input: String, words: Vec<String>) -> (res: Command)
        ensures
            res.input@ == input@,
            res.words@ == words@,
            res.is_debug == (input@.len() > 0 && input@[0] == '!'),
    {
        let is_debug = input.as_str().unicode_len() > 0 && input.as_str().get_char(0) == '!';
        Command { input, words, is_debug }
    }
}

/// The texts of a list of strings.
pub open spec fn word_texts(v: Seq<String>) -> Seq<Seq<char>> {
    v.map_values(|s: String| s@)
}

/// Parses the input into a command: the input is trimmed, commas and exclamation marks
/// are removed, and the rest is split into words.  Input holding a period is refused.
pub fn parse(_world: &World, input: &str) -> (res: Result<Command, String>)
    ensures
        res is Ok <==> !trimmed(input@).contains('.'),
        res matches Ok(cmd) ==> cmd.input@ == trimmed(input@) && word_texts(cmd.words@)
            == words_of(stripped(trimmed(input@))) && cmd.is_debug == (trimmed(input@).len() > 0
            && trimmed(input@)[0] == '!'),
        res matches Err(e) ==> e@ == period_error(),
{
    // FIRST, remove extraneous characters.
    let ghost orig = input@;
    let line = trim(input);
    let ghost t = line@;
    let ghost pred = |c: char| c != ',' && c != '!';
    let n = line.as_str().unicode_len();
    let mut words: Vec<String> = Vec::new();
    let mut word = String::new();
    let mut in_word = false;
    let mut i: usize = 0;
    while i < n
        invariant
            n == t.len(),
            t == line@,
            t == trimmed(orig),
            orig == input@,
            pred == (|c: char| c != ',' && c != '!'),
            i <= n,
            forall|k: int| 0 <= k < i ==> t[k] != '.',
            in_word == (t.take(i as int).filter(pred).len() > 0 && !is_white_space(
                t.take(i as int).filter(pred).last(),
            )),
            ({
                let w = words_of(t.take(i as int).filter(pred));
                if in_word {
                    word_texts(words@).push(word@) == w
                } else {
                    word_texts(words@) == w && word@.len() == 0
                }
            }),
        decreases n - i,
    {
        let c = line.as_str().get_char(i);
        let ghost f0 = t.take(i as int).filter(pred);
        proof {
            reveal_with_fuel(Seq::<_>::filter, 1);
            assert(t.take(i + 1).drop_last() =~= t.take(i as int));
            assert(t.take(i + 1).last() == c);
        }
        if c == '.' {
            proof {
                assert(t.contains('.')) by {
                    assert(t[i as int] == '.');
                }
            }
            let msg = to_string("Input contains '.'; multiple commands not yet support.");
            assert(msg@ == period_error());
            assert(trimmed(orig).contains('.'));
            return Err(msg);
        }
        if c == ',' || c == '!' {
            assert(t.take(i + 1).filter(pred) == f0);
        } else {
            let ghost f1 = t.take(i + 1).filter(pred);
            assert(f1 == f0.push(c));
            assert(f1.drop_last() =~= f0);
            if is_white(c) {
                if in_word {
                    let ghost ws0 = word_texts(words@);
                    words.push(word);
                    word = String::new();
                    assert(word_texts(words@) =~= ws0.push(word_texts(words@).last()));
                }
                in_word = false;
            } else {
                if in_word {
                    proof {
                        lemma_words_nonempty(f0);
                    }
                    push_char(&mut word, c);
                    assert(f1[f1.len() - 2] == f0.last());
                } else {
                    push_char(&mut word, c);
                    assert(word@ =~= seq![c]);
                    proof {
                        if f1.len() > 1 {
                            assert(f1[f1.len() - 2] == f0.last());
                        }
                    }
                }
                in_word = true;
            }
        }
        i = i + 1;
    }
    if in_word {
        words.push(word);
    }
    proof {
        assert(t.take(n as int) =~= t);
        assert(word_texts(words@) =~= words_of(stripped(t)));
        assert(!t.contains('.')) by {
            if t.contains('.') {
                let k = choose|k: int| 0 <= k < t.len() && t[k] == '.';
            }
        }
    }
    // NEXT, return the result.
    Ok(Command::new(line, words))
}

/// Each word of a text is a non-empty run of its characters, none of them white space.
proof fn lemma_words_chars(s: Seq<char>)
    ensures
        forall|k: int|
            0 <= k < words_of(s).len() ==> #[trigger] words_of(s)[k].len() > 0 && forall|j: int|
                0 <= j < words_of(s)[k].len() ==> !is_white_space(#[trigger] words_of(s)[k][j])
                    && s.contains(words_of(s)[k][j]),
    decreases s.len(),
{
    if s.len() > 0 {
        let t = s.drop_last();
        lemma_words_chars(t);
        let w = words_of(t);
        let c = s.last();
        assert(s[s.len() - 1] == c);
        assert forall|x: char| t.contains(x) implies s.contains(x) by {
            let i = choose|i: int| 0 <= i < t.len() && t[i] == x;
            assert(s[i] == x);
        }
        if !is_white_space(c) && s.len() > 1 && !is_white_space(s[s.len() - 2]) {
            lemma_words_nonempty(t);
        }
    }
}

/// Parsing splits the input into non-empty words, without white space, commas or
/// exclamation marks.
pub proof fn law_words_are_plain(input: Seq<char>)
    ensures
        forall|k: int|
            0 <= k < words_of(stripped(trimmed(input))).len() ==> {
                let w = #[trigger] words_of(stripped(trimmed(input)))[k];
                &&& w.len() > 0
                &&& forall|j: int|
                    0 <= j < w.len() ==> !is_white_space(#[trigger] w[j]) && w[j] != ','
                        && w[j] != '!'
            },
{
    let s = stripped(trimmed(input));
    lemma_words_chars(s);
    let pred = |c: char| c != ',' && c != '!';
    assert forall|x: char| s.contains(x) implies x != ',' && x != '!' by {
        let i = choose|i: int| 0 <= i < s.len() && s[i] == x;
        trimmed(input).lemma_filter_pred(pred, i);
    }
}

} // verus!
