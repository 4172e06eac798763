//! The grammar of a configured command string: leading environment
//! assignments, then the command and its arguments.

use crate::env_overlay::EnvOverlay;
use vstd::prelude::*;
use vstd::string::*;

verus! {

/// A character that may begin the name of an environment variable.
pub open spec fn is_key_start(c: char) -> bool {
    ('a' <= c && c <= 'z') || ('A' <= c && c <= 'Z') || c == '_'
}

/// A character that may stand in the name of an environment variable.
pub open spec fn is_key_char(c: char) -> bool {
    is_key_start(c) || ('0' <= c && c <= '9')
}

/// Whether `key` can name an environment variable: it is not empty, begins
/// with a letter or an underscore, and holds only letters, digits and
/// underscores.
pub open spec fn valid_env_key(key: Seq<char>) -> bool {
    &&& key.len() > 0
    &&& is_key_start(key[0])
    &&& forall|i: int| 0 <= i < key.len() ==> is_key_char(#[trigger] key[i])
}

/// Whether `key` can name an environment variable.
pub fn is_env_key(key: &str) -> (valid: bool)
    ensures
        valid == valid_env_key(key@),
{
    let mut at_start = true;
    let mut valid = true;
    for c in it: key.chars()
        invariant
            it.seq() == key@,
            at_start == (it.index() == 0),
            valid == (forall|i: int|
                0 <= i < it.index() ==> is_key_char(#[trigger] key@[i]) && (i == 0 ==> is_key_start(
                    key@[0],
                ))),
    {
        let start = (c >= 'a' && c <= 'z') || (c >= 'A' && c <= 'Z') || c == '_';
        let digit = c >= '0' && c <= '9';
        if !(start || (digit && !at_start)) {
            valid = false;
        }
        at_start = false;
    }
    valid && !at_start
}

/// Whether the first `=` of `token` stands at place `i`.
pub open spec fn splits_at(token: Seq<char>, i: int) -> bool {
    &&& 0 <= i < token.len()
    &&& token[i] == '='
    &&& forall|j: int| 0 <= j < i ==> token[j] != '='
}

/// The place of the first `=` of `token`.
pub open spec fn equals_place(token: Seq<char>) -> int {
    choose|i: int| splits_at(token, i)
}

/// What stands before the first `=` of `token`.
pub open spec fn assignment_key(token: Seq<char>) -> Seq<char> {
    token.subrange(0, equals_place(token))
}

/// What stands behind the first `=` of `token`.
pub open spec fn assignment_value(token: Seq<char>) -> Seq<char> {
    token.subrange(equals_place(token) + 1, token.len() as int)
}

/// Whether `token` has the shape of an environment assignment: it holds a
/// `=`, and what stands before the first one can name a variable.
pub open spec fn is_assignment(token: Seq<char>) -> bool {
    exists|i: int| splits_at(token, i) && valid_env_key(token.subrange(0, i))
}

/// A token has at most one first `=`.
pub proof fn lemma_splits_once(token: Seq<char>, i: int, j: int)
    requires
        splits_at(token, i),
        splits_at(token, j),
    ensures
        i == j,
{
}

/// The place of the first `=` in `token`, if there is one.
fn find_equals(token: &str) -> (place: Option<usize>)
    ensures
        match place {
            Some(i) => splits_at(token@, i as int),
            None => forall|j: int| 0 <= j < token@.len() ==> token@[j] != '=',
        },
{
    let n = token.unicode_len();
    let mut i: usize = 0;
    let mut place: Option<usize> = None;
    for c in it: token.chars()
        invariant
            it.seq() == token@,
            n == token@.len(),
            place is None ==> i == it.index(),
            place is None ==> forall|j: int| 0 <= j < i ==> token@[j] != '=',
            place matches Some(p) ==> splits_at(token@, p as int),
    {
        if place.is_none() {
            if c == '=' {
                place = Some(i);
            } else {
                i = i + 1;
            }
        }
    }
    place
}

/// Splits `token` at its first `=` where it has the shape of an
/// environment assignment.
pub fn split_assignment(token: &str) -> (parts: Option<(String, String)>)
    ensures
        match parts {
            Some((key, value)) => is_assignment(token@) && key@ == assignment_key(token@) && value@
                == assignment_value(token@),
            None => !is_assignment(token@),
        },
{
    match find_equals(token) {
        None => None,
        Some(i) => {
            proof {
                assert forall|j: int| splits_at(token@, j) implies j == i by {
                    lemma_splits_once(token@, j, i as int);
                }
            }
            let n = token.unicode_len();
            let key = token.substring_char(0, i);
            if is_env_key(key) {
                let value = token.substring_char(i + 1, n);
                Some((key.to_owned(), value.to_owned()))
            } else {
                None
            }
        },
    }
}

/// The place of the first token from place `i` on that is no assignment;
/// the number of tokens where there is none.
pub open spec fn command_start_from(tokens: Seq<Seq<char>>, i: int) -> int
    decreases tokens.len() - i,
{
    if i < 0 || i >= tokens.len() || !is_assignment(tokens[i]) {
        i
    } else {
        command_start_from(tokens, i + 1)
    }
}

/// Counted from place `i`, the command begins at the first token that is
/// no assignment: every token between is one, and the token there, if any,
/// is none.
pub proof fn lemma_command_start_from(tokens: Seq<Seq<char>>, i: int)
    requires
        0 <= i <= tokens.len(),
    ensures
        i <= command_start_from(tokens, i) <= tokens.len(),
        forall|j: int| i <= j < command_start_from(tokens, i) ==> is_assignment(#[trigger] tokens[j]),
        command_start_from(tokens, i) < tokens.len() ==> !is_assignment(
            tokens[command_start_from(tokens, i)],
        ),
    decreases tokens.len() - i,
{
    if i < tokens.len() && is_assignment(tokens[i]) {
        lemma_command_start_from(tokens, i + 1);
    }
}

/// The place at which the command begins: that of the first token that is
/// no assignment.
pub open spec fn command_start(tokens: Seq<Seq<char>>) -> int {
    command_start_from(tokens, 0)
}

/// The overlay that the first `n` tokens make, each an assignment; a later
/// assignment to a name replaces an earlier one.
pub open spec fn overlay_of(tokens: Seq<Seq<char>>, n: int) -> Map<Seq<char>, Seq<char>>
    decreases n,
{
    if n <= 0 {
        Map::empty()
    } else {
        overlay_of(tokens, n - 1).insert(
            assignment_key(tokens[n - 1]),
            assignment_value(tokens[n - 1]),
        )
    }
}

/// The environment overlay of a tokenized command.
pub open spec fn tokens_overlay(tokens: Seq<Seq<char>>) -> Map<Seq<char>, Seq<char>> {
    overlay_of(tokens, command_start(tokens))
}

/// The argument vector of a tokenized command.
pub open spec fn tokens_args(tokens: Seq<Seq<char>>) -> Seq<Seq<char>> {
    tokens.skip(command_start(tokens))
}

/// The characters of each string of a list.
pub open spec fn texts(list: Seq<String>) -> Seq<Seq<char>> {
    Seq::new(list.len(), |i: int| list[i]@)
}

/// Parts a tokenized command into its environment overlay and its argument
/// vector. The leading tokens that have the shape of an assignment make the
/// overlay; the first token that has not, and every token behind it, make
/// the argument vector.
pub fn split_env_and_args(tokens: Vec<String>) -> (parts: (EnvOverlay, Vec<String>))
    ensures
        parts.0@ == tokens_overlay(texts(tokens@)),
        texts(parts.1@) == tokens_args(texts(tokens@)),
{
    let ghost list = tokens@;
    let ghost all = texts(tokens@);
    proof {
        lemma_command_start_from(all, 0);
    }
    let mut overlay = EnvOverlay::new();
    let mut args: Vec<String> = Vec::new();
    let mut found_command = false;
    for token in it: tokens
        invariant
            it.seq() == list,
            all == texts(list),
            0 <= command_start(all) <= all.len(),
            !found_command ==> command_start(all) == command_start_from(all, it.index() as int),
            !found_command ==> overlay@ == overlay_of(all, it.index() as int),
            !found_command ==> args@.len() == 0,
            found_command ==> command_start(all) <= it.index(),
            found_command ==> overlay@ == tokens_overlay(all),
            found_command ==> texts(args@) == all.subrange(
                command_start(all),
                it.index() as int,
            ),
    {
        let ghost i = it.index() as int;
        assert(token@ == all[i]);
        let assignment = if found_command {
            None
        } else {
            split_assignment(token.as_str())
        };
        match assignment {
            Some((key, value)) => {
                overlay.set(key, value);
            },
            None => {
                let ghost before = texts(args@);
                found_command = true;
                args.push(token);
                assert(texts(args@) =~= before.push(all[i]));
                assert(before.push(all[i]) =~= all.subrange(command_start(all), i + 1));
            },
        }
    }
    assert(texts(args@) =~= tokens_args(all));
    (overlay, args)
}

/// The words into which `shlex::split` parts a command string by the
/// rules of the POSIX shell, quotes and escapes taken off; `None` where the
/// string ends inside a quotation or behind a backslash.
pub uninterp spec fn shell_words(input: Seq<char>) -> Option<Seq<Seq<char>>>;

/// The characters of each word, where there are words.
pub open spec fn word_texts(words: Option<Vec<String>>) -> Option<Seq<Seq<char>>> {
    match words {
        Some(list) => Some(texts(list@)),
        None => None,
    }
}

/// Calls `shlex::split`, which depends on its argument alone and does not
/// panic. The contract gives its result the name `shell_words` and says
/// nothing more of it.
#[verifier::external_body]
fn split_words(input: &str) -> (words: Option<Vec<String>>)
    ensures
        word_texts(words) == shell_words(input@),
{
    shlex::split(input)
}

/// The environment overlay of a command string; empty where the string
/// cannot be tokenized.
pub open spec fn command_overlay(input: Seq<char>) -> Map<Seq<char>, Seq<char>> {
    match shell_words(input) {
        Some(tokens) => tokens_overlay(tokens),
        None => Map::empty(),
    }
}

/// The argument vector of a command string; empty where the string cannot
/// be tokenized.
pub open spec fn command_args(input: Seq<char>) -> Seq<Seq<char>> {
    match shell_words(input) {
        Some(tokens) => tokens_args(tokens),
        None => Seq::empty(),
    }
}

/// Whether `parts` is the parse of the command string `input`.
pub open spec fn is_parse_of(input: Seq<char>, parts: (EnvOverlay, Vec<String>)) -> bool {
    &&& parts.0@ == command_overlay(input)
    &&& texts(parts.1@) == command_args(input)
}

/// Parses a command string into its environment overlay and its argument
/// vector: the string is tokenized as a shell would, and the tokens are
/// parted by `split_env_and_args`. A string that cannot be tokenized gives
/// an empty overlay and an empty argument vector.
pub fn parse_env_and_command(input: &str) -> (parts: (EnvOverlay, Vec<String>))
    ensures
        is_parse_of(input@, parts),
{
    match split_words(input) {
        Some(tokens) => split_env_and_args(tokens),
        None => {
            let args: Vec<String> = Vec::new();
            assert(texts(args@) =~= Seq::<Seq<char>>::empty());
            (EnvOverlay::new(), args)
        },
    }
}

/// Parsing is a function of the command string: two parses of the same
/// string have the same overlay and the same argument vector.
pub proof fn law_parsing_is_deterministic(
    first_input: Seq<char>,
    second_input: Seq<char>,
    first: (EnvOverlay, Vec<String>),
    second: (EnvOverlay, Vec<String>),
)
    requires
        first_input == second_input,
        is_parse_of(first_input, first),
        is_parse_of(second_input, second),
    ensures
        first.0@ == second.0@,
        texts(first.1@) == texts(second.1@),
{
}

/// Once a token fails the shape of an assignment, the command begins
/// there: that token and every token behind it are the argument vector, in
/// order, whatever their shape, and only the tokens before it make the
/// overlay.
pub proof fn law_command_boundary_is_final(tokens: Seq<Seq<char>>, i: int)
    requires
        0 <= i < tokens.len(),
        forall|j: int| 0 <= j < i ==> is_assignment(tokens[j]),
        !is_assignment(tokens[i]),
    ensures
        command_start(tokens) == i,
        tokens_overlay(tokens) == overlay_of(tokens, i),
        tokens_args(tokens).len() == tokens.len() - i,
        forall|k: int| i <= k < tokens.len() ==> tokens_args(tokens)[k - i] == tokens[k],
{
    lemma_command_start_from(tokens, 0);
    let start = command_start(tokens);
    if start < i {
        assert(is_assignment(tokens[start]));
    }
    if start > i {
        assert(is_assignment(tokens[i]));
    }
}

/// An assignment is split at its first `=` only: whatever the value holds,
/// further `=` included, a valid name, a `=` and the value make a token
/// whose key is the name and whose value is the value.
pub proof fn law_value_may_hold_equals(name: Seq<char>, value: Seq<char>)
    requires
        valid_env_key(name),
    ensures
        is_assignment(name + seq!['='] + value),
        assignment_key(name + seq!['='] + value) == name,
        assignment_value(name + seq!['='] + value) == value,
{
    let token = name + seq!['='] + value;
    let n = name.len() as int;
    assert forall|j: int| 0 <= j < n implies token[j] != '=' by {
        assert(token[j] == name[j]);
        assert(is_key_char(name[j]));
    }
    assert(token[n] == '=');
    assert(splits_at(token, n));
    assert(token.subrange(0, n) =~= name);
    lemma_splits_once(token, equals_place(token), n);
    assert(token.subrange(n + 1, token.len() as int) =~= value);
}

} // verus!
