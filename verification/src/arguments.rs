//! Decomposing raw message text.
//!
//! A dispatch input is split into a command token (the characters up to the
//! first space) and an argument remainder (everything after that space, or
//! the empty string when no space exists). A separate helper breaks an
//! argument remainder into whitespace-separated words.

use vstd::prelude::*;

verus! {

/// Index of the first space in `s`, or `s.len()` when `s` has none.
pub open spec fn first_space_index(s: Seq<char>) -> int
    decreases s.len(),
{
    if s.len() == 0 {
        0
    } else if s[0] == ' ' {
        0
    } else {
        1 + first_space_index(s.drop_first())
    }
}

/// The command token of a dispatch input: the characters before the first
/// space, or the whole input when it has no space.
pub open spec fn command_of(s: Seq<char>) -> Seq<char> {
    s.take(first_space_index(s))
}

/// The argument remainder of a dispatch input: everything after the first
/// space, or the empty sequence when the input has no space.
pub open spec fn args_of(s: Seq<char>) -> Seq<char> {
    if first_space_index(s) == s.len() {
        Seq::<char>::empty()
    } else {
        s.skip(first_space_index(s) + 1)
    }
}

/// Any index that is preceded only by non-spaces and either holds a space or
/// is the end of the sequence is the first space index.
pub proof fn lemma_first_space_index_is(s: Seq<char>, i: int)
    requires
        0 <= i <= s.len(),
        forall|k: int| 0 <= k < i ==> s[k] != ' ',
        i < s.len() ==> s[i] == ' ',
    ensures
        first_space_index(s) == i,
    decreases s.len(),
{
    if s.len() == 0 {
    } else if s[0] == ' ' {
        assert(i == 0);
    } else {
        assert(i >= 1);
        lemma_first_space_index_is(s.drop_first(), i - 1);
    }
}

/// Splits raw input text into the command token and the argument remainder.
///
/// The split is made at the first space only: the remainder keeps any later
/// spaces untouched. When the input has no space, the command token is the
/// whole input and the remainder is empty.
pub fn split_command(content: &str) -> (r: (String, String))
    ensures
        r.0@ == command_of(content@),
        r.1@ == args_of(content@),
{
    let n = content.unicode_len();
    let mut i: usize = 0;
    while i < n && content.get_char(i) != ' '
        invariant
            n == content@.len(),
            0 <= i <= n,
            forall|k: int| 0 <= k < i ==> content@[k] != ' ',
        decreases n - i,
    {
        i += 1;
    }
    proof {
        lemma_first_space_index_is(content@, i as int);
    }
    let name = content.substring_char(0, i).to_owned();
    let args = if i == n {
        String::new()
    } else {
        content.substring_char(i + 1, n).to_owned()
    };
    proof {
        assert(name@ =~= command_of(content@));
        assert(args@ =~= args_of(content@));
    }
    (name, args)
}

/// Law: for a command name `n` without spaces, input built as `n`, a single
/// space, then `a` splits back into command `n` and arguments exactly `a`;
/// input that is exactly `n` splits into command `n` and empty arguments.
pub proof fn lemma_split_round_trip(n: Seq<char>, a: Seq<char>)
    requires
        forall|k: int| 0 <= k < n.len() ==> n[k] != ' ',
    ensures
        command_of(n + seq![' '] + a) == n,
        args_of(n + seq![' '] + a) == a,
        command_of(n) == n,
        args_of(n) == Seq::<char>::empty(),
{
    let s = n + seq![' '] + a;
    assert(forall|k: int| 0 <= k < n.len() ==> s[k] == n[k]);
    assert(s[n.len() as int] == ' ');
    lemma_first_space_index_is(s, n.len() as int);
    assert(command_of(s) =~= n);
    assert(args_of(s) =~= a);
    lemma_first_space_index_is(n, n.len() as int);
    assert(command_of(n) =~= n);
}

/// True for the characters that separate words in an argument string: the
/// space, tab, line feed and carriage return.
pub open spec fn is_arg_space(c: char) -> bool {
    c == ' ' || c == '\t' || c == '\n' || c == '\r'
}

/// Length of the longest whitespace-free prefix of `s`.
pub open spec fn word_prefix_len(s: Seq<char>) -> int
    decreases s.len(),
{
    if s.len() == 0 || is_arg_space(s[0]) {
        0
    } else {
        1 + word_prefix_len(s.drop_first())
    }
}

pub proof fn lemma_word_prefix_len(s: Seq<char>)
    ensures
        0 <= word_prefix_len(s) <= s.len(),
        s.len() > 0 && !is_arg_space(s[0]) ==> word_prefix_len(s) >= 1,
    decreases s.len(),
{
    if s.len() == 0 || is_arg_space(s[0]) {
    } else {
        lemma_word_prefix_len(s.drop_first());
    }
}

/// Any index that is preceded only by non-whitespace and either holds a
/// whitespace character or is the end of the sequence bounds the first word.
pub proof fn lemma_word_prefix_len_is(s: Seq<char>, i: int)
    requires
        0 <= i <= s.len(),
        forall|k: int| 0 <= k < i ==> !is_arg_space(s[k]),
        i < s.len() ==> is_arg_space(s[i]),
    ensures
        word_prefix_len(s) == i,
    decreases s.len(),
{
    if s.len() == 0 || is_arg_space(s[0]) {
        assert(i == 0);
    } else {
        assert(i >= 1);
        lemma_word_prefix_len_is(s.drop_first(), i - 1);
    }
}

/// The whitespace-separated words of `s`, in order: leading whitespace is
/// skipped, and each maximal whitespace-free run becomes one word.
pub open spec fn words_of(s: Seq<char>) -> Seq<Seq<char>>
    decreases s.len(),
    via words_of_decreases
{
    if s.len() == 0 {
        Seq::<Seq<char>>::empty()
    } else if is_arg_space(s[0]) {
        words_of(s.drop_first())
    } else {
        seq![s.take(word_prefix_len(s))] + words_of(s.skip(word_prefix_len(s)))
    }
}

#[via_fn]
proof fn words_of_decreases(s: Seq<char>) {
    lemma_word_prefix_len(s);
}

/// Parses an argument string into its whitespace-separated words.
pub fn parse_arguments(args: &str) -> (r: Vec<String>)
    ensures
        r@.map_values(|t: String| t@) == words_of(args@),
    decreases args@.len(),
{
    let n = args.unicode_len();
    if n == 0 {
        let r: Vec<String> = Vec::new();
        proof {
            assert(r@.map_values(|t: String| t@) =~= words_of(args@));
        }
        return r;
    }
    let c = args.get_char(0);
    if c == ' ' || c == '\t' || c == '\n' || c == '\r' {
        let rest = args.substring_char(1, n);
        proof {
            assert(rest@ =~= args@.drop_first());
        }
        parse_arguments(rest)
    } else {
        let mut i: usize = 1;
        while i < n && !is_arg_space_char(args.get_char(i))
            invariant
                n == args@.len(),
                1 <= i <= n,
                forall|k: int| 0 <= k < i ==> !is_arg_space(args@[k]),
            decreases n - i,
        {
            i += 1;
        }
        proof {
            lemma_word_prefix_len_is(args@, i as int);
        }
        let word = args.substring_char(0, i).to_owned();
        let rest = args.substring_char(i, n);
        proof {
            assert(rest@ =~= args@.skip(i as int));
        }
        let mut r = parse_arguments(rest);
        r.insert(0, word);
        proof {
            assert(r@.map_values(|t: String| t@) =~= words_of(args@));
        }
        r
    }
}

/// Whether `c` separates words in an argument string.
fn is_arg_space_char(c: char) -> (r: bool)
    ensures
        r == is_arg_space(c),
{
    c == ' ' || c == '\t' || c == '\n' || c == '\r'
}

} // verus!

