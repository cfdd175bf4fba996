//! The command parser.
//!
//! A raw text is a command when it matches the trigger grammar
//! `^!([^\s!]+?)(\s.+)?$`: a leading `!` marker, a command token of one or
//! more characters that are neither whitespace nor `!`, and optionally a
//! whitespace character followed by a non-empty remainder free of line
//! breaks. The remainder, split on whitespace runs, gives the arguments.

use vstd::prelude::*;
use vstd::string::StrSliceExecFns;
use vstd::string::StringExecFns;

use crate::messages::strs_view;

verus! {

// ------------------------------------------------------------------
// Character classes
// ------------------------------------------------------------------

/// The white-space characters: the Unicode white-space set that both the
/// trigger grammar and whitespace splitting go by.
pub open spec fn is_space_char(c: char) -> bool {
    ||| c == ' '
    ||| c == '\t'
    ||| c == '\n'
    ||| c == '\u{0B}'
    ||| c == '\u{0C}'
    ||| c == '\r'
    ||| c == '\u{85}'
    ||| c == '\u{A0}'
    ||| c == '\u{1680}'
    ||| (c as u32 >= 0x2000 && c as u32 <= 0x200A)
    ||| c == '\u{2028}'
    ||| c == '\u{2029}'
    ||| c == '\u{202F}'
    ||| c == '\u{205F}'
    ||| c == '\u{3000}'
}

/// Decides whether a character is white space.
pub fn is_space(c: char) -> (r: bool)
    ensures
        r == is_space_char(c),
{
    c == ' ' || c == '\t' || c == '\n' || c == '\u{0B}' || c == '\u{0C}' || c == '\r' || c
        == '\u{85}' || c == '\u{A0}' || c == '\u{1680}' || (c as u32 >= 0x2000 && c as u32
        <= 0x200A) || c == '\u{2028}' || c == '\u{2029}' || c == '\u{202F}' || c == '\u{205F}' || c
        == '\u{3000}'
}

/// A character that may stand in a command token: neither whitespace nor the
/// trigger marker.
pub open spec fn is_cmd_char(c: char) -> bool {
    !is_space_char(c) && c != '!'
}

/// The command-token character class, as a predicate value.
pub open spec fn cmd_pred() -> spec_fn(char) -> bool {
    |c: char| is_cmd_char(c)
}

/// The non-whitespace character class, as a predicate value.
pub open spec fn token_pred() -> spec_fn(char) -> bool {
    |c: char| !is_space_char(c)
}

// ------------------------------------------------------------------
// Runs of characters
// ------------------------------------------------------------------

/// The length of the longest prefix of `s` whose characters all satisfy `p`.
pub open spec fn run_len(s: Seq<char>, p: spec_fn(char) -> bool) -> nat
    decreases s.len(),
{
    if s.len() == 0 || !p(s[0]) {
        0
    } else {
        (1 + run_len(s.drop_first(), p)) as nat
    }
}

/// `run_len` is the unique cut `k`: everything before `k` satisfies `p` and
/// the character at `k`, if any, does not.
pub proof fn lemma_run_len_is(s: Seq<char>, p: spec_fn(char) -> bool, k: int)
    requires
        0 <= k <= s.len(),
        forall|j: int| 0 <= j < k ==> p(s[j]),
        k == s.len() || !p(s[k]),
    ensures
        run_len(s, p) == k,
    decreases s.len(),
{
    if k == 0 {
    } else {
        assert(forall|j: int| 0 <= j < k - 1 ==> p(s.drop_first()[j]));
        lemma_run_len_is(s.drop_first(), p, k - 1);
    }
}

/// Everything before the cut satisfies `p`, and the character at the cut, if
/// any, does not.
pub proof fn lemma_run_len_bound(s: Seq<char>, p: spec_fn(char) -> bool)
    ensures
        run_len(s, p) <= s.len(),
        forall|j: int| 0 <= j < run_len(s, p) ==> p(s[j]),
        run_len(s, p) < s.len() ==> !p(s[run_len(s, p) as int]),
    decreases s.len(),
{
    if s.len() == 0 || !p(s[0]) {
    } else {
        lemma_run_len_bound(s.drop_first(), p);
        assert forall|j: int| 0 <= j < run_len(s, p) implies p(s[j]) by {
            if j >= 1 {
                assert(p(s.drop_first()[j - 1]));
            }
        }
        if run_len(s, p) < s.len() {
            assert(!p(s.drop_first()[run_len(s.drop_first(), p) as int]));
        }
    }
}

/// Finds the end of the command-token run that starts at `from`.
fn scan_cmd(raw: &str, from: usize, n: usize) -> (k: usize)
    requires
        n == raw@.len(),
        from <= n,
    ensures
        from <= k <= n,
        k - from == run_len(raw@.skip(from as int), cmd_pred()),
{
    let mut k: usize = from;
    while k < n && is_cmd(raw.get_char(k))
        invariant
            n == raw@.len(),
            from <= k <= n,
            forall|j: int| from <= j < k ==> is_cmd_char(raw@[j]),
        decreases n - k,
    {
        k = k + 1;
    }
    proof {
        let tail = raw@.skip(from as int);
        assert(forall|j: int| 0 <= j < k - from ==> cmd_pred()(tail[j]));
        assert(k - from == tail.len() || !cmd_pred()(tail[k - from]));
        lemma_run_len_is(tail, cmd_pred(), k - from);
    }
    k
}

/// Decides whether a character may stand in a command token.
fn is_cmd(c: char) -> (r: bool)
    ensures
        r == is_cmd_char(c),
{
    !is_space(c) && c != '!'
}

/// Finds the end of the non-whitespace run that starts at `from`.
fn scan_token(raw: &str, from: usize, n: usize) -> (k: usize)
    requires
        n == raw@.len(),
        from <= n,
    ensures
        from <= k <= n,
        k - from == run_len(raw@.skip(from as int), token_pred()),
{
    let mut k: usize = from;
    while k < n && !is_space(raw.get_char(k))
        invariant
            n == raw@.len(),
            from <= k <= n,
            forall|j: int| from <= j < k ==> !is_space_char(raw@[j]),
        decreases n - k,
    {
        k = k + 1;
    }
    proof {
        let tail = raw@.skip(from as int);
        assert(forall|j: int| 0 <= j < k - from ==> token_pred()(tail[j]));
        assert(k - from == tail.len() || !token_pred()(tail[k - from]));
        lemma_run_len_is(tail, token_pred(), k - from);
    }
    k
}

// ------------------------------------------------------------------
// Whitespace splitting
// ------------------------------------------------------------------

/// The maximal non-whitespace runs of `s`, in order.
pub open spec fn split_ws(s: Seq<char>) -> Seq<Seq<char>>
    decreases s.len(),
    via split_ws_decreases
{
    if s.len() == 0 {
        Seq::empty()
    } else if is_space_char(s[0]) {
        split_ws(s.drop_first())
    } else {
        seq![s.take(run_len(s, token_pred()) as int)] + split_ws(
            s.skip(run_len(s, token_pred()) as int),
        )
    }
}

#[via_fn]
proof fn split_ws_decreases(s: Seq<char>) {
    if s.len() > 0 && !is_space_char(s[0]) {
        lemma_run_len_bound(s, token_pred());
        assert(token_pred()(s[0]));
        assert(1 <= run_len(s, token_pred()) <= s.len());
    }
}

/// Every token produced by whitespace splitting is non-empty.
pub proof fn lemma_split_ws_tokens_nonempty(s: Seq<char>)
    ensures
        forall|i: int| 0 <= i < split_ws(s).len() ==> #[trigger] split_ws(s)[i].len() >= 1,
    decreases s.len(),
{
    if s.len() == 0 {
    } else if is_space_char(s[0]) {
        lemma_split_ws_tokens_nonempty(s.drop_first());
        assert forall|i: int| 0 <= i < split_ws(s).len() implies #[trigger] split_ws(s)[i].len()
            >= 1 by {
            assert(split_ws(s)[i] == split_ws(s.drop_first())[i]);
        }
    } else {
        let k = run_len(s, token_pred()) as int;
        lemma_run_len_bound(s, token_pred());
        assert(token_pred()(s[0]));
        assert(1 <= k <= s.len());
        lemma_split_ws_tokens_nonempty(s.skip(k));
        assert forall|i: int| 0 <= i < split_ws(s).len() implies #[trigger] split_ws(s)[i].len()
            >= 1 by {
            if i == 0 {
                assert(split_ws(s)[0] == s.take(k));
            } else {
                assert(split_ws(s)[i] == split_ws(s.skip(k))[i - 1]);
            }
        }
    }
}

/// Splits a text into its whitespace-separated tokens.
pub fn split_whitespace(s: &str) -> (r: Vec<String>)
    ensures
        strs_view(r@) == split_ws(s@),
{
    let n = s.unicode_len();
    let mut r: Vec<String> = Vec::new();
    let mut i: usize = 0;
    proof {
        assert(s@.skip(0) =~= s@);
        assert(strs_view(r@) + split_ws(s@.skip(0)) =~= split_ws(s@));
    }
    while i < n
        invariant
            n == s@.len(),
            i <= n,
            strs_view(r@) + split_ws(s@.skip(i as int)) =~= split_ws(s@),
        decreases n - i,
    {
        let c = s.get_char(i);
        proof {
            assert(s@.skip(i as int)[0] == s@[i as int]);
        }
        if is_space(c) {
            proof {
                assert(s@.skip(i as int).drop_first() =~= s@.skip(i as int + 1));
            }
            i = i + 1;
        } else {
            let j = scan_token(s, i, n);
            proof {
                lemma_run_len_bound(s@.skip(i as int), token_pred());
            }
            let token = String::from_str(s.substring_char(i, j));
            r.push(token);
            proof {
                let tail = s@.skip(i as int);
                assert(tail.take(run_len(tail, token_pred()) as int) =~= s@.subrange(
                    i as int,
                    j as int,
                ));
                assert(tail.skip(run_len(tail, token_pred()) as int) =~= s@.skip(j as int));
                assert(strs_view(r@) =~= strs_view(r@.drop_last()).push(token@));
                assert(strs_view(r@) + split_ws(s@.skip(j as int)) =~= strs_view(r@.drop_last())
                    + split_ws(s@.skip(i as int)));
            }
            i = j;
        }
    }
    proof {
        assert(split_ws(s@.skip(n as int)) =~= Seq::<Seq<char>>::empty());
        assert(strs_view(r@) =~= split_ws(s@));
    }
    r
}

// ------------------------------------------------------------------
// Re-joining arguments
// ------------------------------------------------------------------

/// The parts joined with a single space between neighbours.
pub open spec fn join_spaces(parts: Seq<Seq<char>>) -> Seq<char>
    decreases parts.len(),
{
    if parts.len() == 0 {
        Seq::empty()
    } else if parts.len() == 1 {
        parts[0]
    } else {
        parts[0] + seq![' '] + join_spaces(parts.drop_first())
    }
}

/// The whitespace-normalized form of a text: leading and trailing whitespace
/// removed and every whitespace run collapsed to a single space.
pub open spec fn normalize_ws(s: Seq<char>) -> Seq<char>
    decreases s.len(), 0int,
    via normalize_ws_decreases
{
    if s.len() == 0 {
        Seq::empty()
    } else if is_space_char(s[0]) {
        normalize_ws(s.drop_first())
    } else {
        s.take(run_len(s, token_pred()) as int) + rest_with_sep(
            s.skip(run_len(s, token_pred()) as int),
        )
    }
}

/// The normalized rest of a text, preceded by a single separating space when
/// anything of it remains.
pub open spec fn rest_with_sep(s: Seq<char>) -> Seq<char>
    decreases s.len(), 1int,
{
    if normalize_ws(s).len() == 0 {
        Seq::empty()
    } else {
        seq![' '] + normalize_ws(s)
    }
}

#[via_fn]
proof fn normalize_ws_decreases(s: Seq<char>) {
    if s.len() > 0 && !is_space_char(s[0]) {
        lemma_run_len_bound(s, token_pred());
        assert(token_pred()(s[0]));
        assert(1 <= run_len(s, token_pred()) <= s.len());
    }
}

/// A split with at least one token joins to a non-empty text.
proof fn lemma_join_split_nonempty(s: Seq<char>)
    ensures
        split_ws(s).len() > 0 ==> join_spaces(split_ws(s)).len() > 0,
{
    lemma_split_ws_tokens_nonempty(s);
    let parts = split_ws(s);
    if parts.len() == 1 {
        assert(join_spaces(parts) == parts[0]);
    } else if parts.len() > 1 {
        assert(join_spaces(parts) == parts[0] + seq![' '] + join_spaces(parts.drop_first()));
    }
}

/// Round trip: the tokens that whitespace splitting produces, re-joined with
/// single spaces, reconstruct the whitespace-normalized original text.
pub proof fn lemma_join_split(s: Seq<char>)
    ensures
        join_spaces(split_ws(s)) == normalize_ws(s),
    decreases s.len(),
{
    if s.len() == 0 {
    } else if is_space_char(s[0]) {
        lemma_join_split(s.drop_first());
    } else {
        lemma_run_len_bound(s, token_pred());
        assert(token_pred()(s[0]));
        let k = run_len(s, token_pred()) as int;
        let tok = s.take(k);
        let rest = s.skip(k);
        lemma_join_split(rest);
        lemma_join_split_nonempty(rest);
        let parts = split_ws(s);
        assert(parts == seq![tok] + split_ws(rest));
        assert(parts[0] == tok);
        assert(parts.drop_first() =~= split_ws(rest));
        if split_ws(rest).len() == 0 {
            assert(parts.len() == 1);
            assert(join_spaces(parts) == tok);
            assert(normalize_ws(rest).len() == 0);
            assert(rest_with_sep(rest) == Seq::<char>::empty());
            assert(normalize_ws(s) =~= tok);
        } else {
            assert(parts.len() >= 2);
            assert(join_spaces(parts) == tok + seq![' '] + join_spaces(split_ws(rest)));
            assert(normalize_ws(rest).len() > 0);
            assert(rest_with_sep(rest) == seq![' '] + normalize_ws(rest));
            assert(join_spaces(parts) =~= normalize_ws(s));
        }
    }
}

// ------------------------------------------------------------------
// The trigger grammar
// ------------------------------------------------------------------
/// The length of the command token of `s`, counted after the marker.
pub open spec fn spec_cmd_len(s: Seq<char>) -> nat {
    run_len(s.skip(1), cmd_pred())
}

/// Whether the raw text matches the trigger grammar `^!([^\s!]+?)(\s.+)?$`:
/// the marker, a non-empty command token, and either the end of the text or a
/// whitespace character followed by at least one more character with no line
/// break among them.
pub open spec fn trigger_match(s: Seq<char>) -> bool {
    &&& s.len() >= 2
    &&& s[0] == '!'
    &&& spec_cmd_len(s) >= 1
    &&& {
        let end = 1 + spec_cmd_len(s) as int;
        ||| end == s.len()
        ||| {
            &&& end < s.len()
            &&& is_space_char(s[end])
            &&& s.len() >= end + 2
            &&& forall|i: int| end + 1 <= i < s.len() ==> s[i] != '\n'
        }
    }
}

/// The command token of a matching text.
pub open spec fn spec_command(s: Seq<char>) -> Seq<char> {
    s.subrange(1, 1 + spec_cmd_len(s) as int)
}

/// The trailing argument segment of a matching text, with its leading
/// whitespace character; empty when the command token ends the text.
pub open spec fn spec_trailing(s: Seq<char>) -> Seq<char> {
    s.skip(1 + spec_cmd_len(s) as int)
}

/// Parses a raw text against the trigger grammar. On a match, the result is
/// the command token and the whitespace-separated tokens of the trailing
/// segment; otherwise there is no command and no arguments, which callers
/// treat as "not a command", never as an error.
#[verifier::loop_isolation(false)]
pub fn parse_message(raw: &str) -> (r: (Option<String>, Vec<String>))
    ensures
        trigger_match(raw@) ==> {
            &&& r.0 matches Some(cmd) && cmd@ == spec_command(raw@)
            &&& strs_view(r.1@) == split_ws(spec_trailing(raw@))
        },
        !trigger_match(raw@) ==> r.0 is None && r.1@.len() == 0,
{
    let n = raw.unicode_len();
    if n < 2 {
        return (None, Vec::new());
    }
    if raw.get_char(0) != '!' {
        return (None, Vec::new());
    }
    let k = scan_cmd(raw, 1, n);
    if k == 1 {
        return (None, Vec::new());
    }
    if k == n {
        let cmd = String::from_str(raw.substring_char(1, k));
        proof {
            assert(trigger_match(raw@));
            assert(cmd@ =~= spec_command(raw@));
            assert(spec_trailing(raw@).len() == 0);
            assert(strs_view(Seq::<String>::empty()) =~= split_ws(spec_trailing(raw@)));
        }
        return (Some(cmd), Vec::new());
    }
    let c = raw.get_char(k);
    if !is_space(c) {
        proof {
            assert(!trigger_match(raw@));
        }
        return (None, Vec::new());
    }
    if k + 1 == n {
        proof {
            assert(!trigger_match(raw@));
        }
        return (None, Vec::new());
    }
    let mut i: usize = k + 1;
    while i < n
        invariant
            n == raw@.len(),
            k + 1 <= i <= n,
            forall|j: int| k + 1 <= j < i ==> raw@[j] != '\n',
        decreases n - i,
    {
        if raw.get_char(i) == '\n' {
            proof {
                assert(!trigger_match(raw@));
            }
            return (None, Vec::new());
        }
        i = i + 1;
    }
    let cmd = String::from_str(raw.substring_char(1, k));
    let trailing = raw.substring_char(k, n);
    let args = split_whitespace(trailing);
    proof {
        assert(trigger_match(raw@));
        assert(cmd@ =~= spec_command(raw@));
        assert(trailing@ =~= spec_trailing(raw@));
    }
    (Some(cmd), args)
}

/// Round trip at the parser: for a matching text, the arguments, re-joined
/// with single spaces, are the whitespace-normalized trailing segment.
pub proof fn lemma_parse_round_trip(s: Seq<char>)
    requires
        trigger_match(s),
    ensures
        join_spaces(split_ws(spec_trailing(s))) == normalize_ws(spec_trailing(s)),
{
    lemma_join_split(spec_trailing(s));
}

} // verus!
