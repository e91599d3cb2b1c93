//! Character-level helpers for scheme tokens: the scheme alphabet,
//! ASCII lowercasing, and locating the scheme terminator (`:`).

use vstd::prelude::*;

verus! {

/// The scheme-token alphabet: ASCII letters, digits, `+`, `-` and `.`.
pub open spec fn is_scheme_char(c: char) -> bool {
    ||| ('a' <= c && c <= 'z')
    ||| ('A' <= c && c <= 'Z')
    ||| ('0' <= c && c <= '9')
    ||| c == '+'
    ||| c == '-'
    ||| c == '.'
}

/// A scheme token is valid when it is non-empty and drawn entirely from
/// the scheme alphabet. Deliberately relaxed: the leading character may
/// be any alphabet character, not only a letter; whitespace is never
/// trimmed, it is simply outside the alphabet.
pub open spec fn is_valid_scheme_token(s: Seq<char>) -> bool {
    s.len() > 0 && forall|i: int| 0 <= i < s.len() ==> is_scheme_char(#[trigger] s[i])
}

/// ASCII lowercasing of a single character: `A`..`Z` map to `a`..`z`,
/// every other character is left untouched.
pub open spec fn lower_char(c: char) -> char {
    if c == 'A' { 'a' } else if c == 'B' { 'b' } else if c == 'C' { 'c' }
    else if c == 'D' { 'd' } else if c == 'E' { 'e' } else if c == 'F' { 'f' }
    else if c == 'G' { 'g' } else if c == 'H' { 'h' } else if c == 'I' { 'i' }
    else if c == 'J' { 'j' } else if c == 'K' { 'k' } else if c == 'L' { 'l' }
    else if c == 'M' { 'm' } else if c == 'N' { 'n' } else if c == 'O' { 'o' }
    else if c == 'P' { 'p' } else if c == 'Q' { 'q' } else if c == 'R' { 'r' }
    else if c == 'S' { 's' } else if c == 'T' { 't' } else if c == 'U' { 'u' }
    else if c == 'V' { 'v' } else if c == 'W' { 'w' } else if c == 'X' { 'x' }
    else if c == 'Y' { 'y' } else if c == 'Z' { 'z' }
    else { c }
}

/// ASCII lowercasing of a character sequence, pointwise.
pub open spec fn ascii_lower(s: Seq<char>) -> Seq<char> {
    s.map_values(|c: char| lower_char(c))
}

/// Lowercasing is idempotent.
pub proof fn lemma_lower_char_idempotent(c: char)
    ensures
        lower_char(lower_char(c)) == lower_char(c),
{
}

/// Lowercasing a sequence twice is the same as lowercasing it once.
pub proof fn lemma_ascii_lower_idempotent(s: Seq<char>)
    ensures
        ascii_lower(ascii_lower(s)) == ascii_lower(s),
{
    assert(ascii_lower(ascii_lower(s)) =~= ascii_lower(s)) by {
        assert forall|i: int| 0 <= i < s.len() implies ascii_lower(ascii_lower(s))[i]
            == ascii_lower(s)[i] by {
            lemma_lower_char_idempotent(s[i]);
        }
    }
}

/// The scheme alphabet is closed under case: a character whose lowercase
/// form is a scheme character is itself a scheme character.
pub proof fn lemma_scheme_char_under_case(c: char)
    ensures
        is_scheme_char(lower_char(c)) ==> is_scheme_char(c),
{
}

/// A token whose lowercase form is a valid scheme token is itself valid.
pub proof fn lemma_valid_token_under_case(s: Seq<char>)
    ensures
        is_valid_scheme_token(ascii_lower(s)) ==> is_valid_scheme_token(s),
{
    if is_valid_scheme_token(ascii_lower(s)) {
        assert forall|i: int| 0 <= i < s.len() implies is_scheme_char(#[trigger] s[i]) by {
            assert(ascii_lower(s)[i] == lower_char(s[i]));
            lemma_scheme_char_under_case(s[i]);
        }
    }
}

/// Whether the sequence contains the scheme terminator anywhere.
pub open spec fn has_terminator(s: Seq<char>) -> bool {
    exists|i: int| 0 <= i < s.len() && s[i] == ':'
}

/// The index of the first scheme terminator, found by a left-to-right
/// scan; meaningful only when `has_terminator(s)` holds.
pub open spec fn terminator_pos(s: Seq<char>) -> int
    decreases s.len(),
{
    if s.len() == 0 {
        0
    } else if s[0] == ':' {
        0
    } else {
        1 + terminator_pos(s.skip(1))
    }
}

/// Everything before the first terminator: the scheme token.
pub open spec fn token_of(s: Seq<char>) -> Seq<char> {
    s.subrange(0, terminator_pos(s))
}

/// Everything after the first terminator: the scheme data.
pub open spec fn data_of(s: Seq<char>) -> Seq<char> {
    s.subrange(terminator_pos(s) + 1, s.len() as int)
}

/// `terminator_pos` names the first terminator: it is in range, it holds
/// a `:`, and nothing before it does.
pub proof fn lemma_terminator_pos(s: Seq<char>)
    requires
        has_terminator(s),
    ensures
        0 <= terminator_pos(s) < s.len(),
        s[terminator_pos(s)] == ':',
        forall|j: int| 0 <= j < terminator_pos(s) ==> s[j] != ':',
    decreases s.len(),
{
    if s[0] == ':' {
    } else {
        let w = choose|i: int| 0 <= i < s.len() && s[i] == ':';
        assert(s.skip(1)[w - 1] == ':');
        lemma_terminator_pos(s.skip(1));
        assert forall|j: int| 0 <= j < terminator_pos(s) implies s[j] != ':' by {
            if j > 0 {
                assert(s.skip(1)[j - 1] == s[j]);
            }
        }
    }
}

/// Any index that holds a `:` with no `:` before it is the first
/// terminator.
pub proof fn lemma_terminator_pos_from_index(s: Seq<char>, i: int)
    requires
        0 <= i < s.len(),
        s[i] == ':',
        forall|j: int| 0 <= j < i ==> s[j] != ':',
    ensures
        has_terminator(s),
        terminator_pos(s) == i,
    decreases s.len(),
{
    if i == 0 {
    } else {
        assert(s.skip(1)[i - 1] == ':');
        assert forall|j: int| 0 <= j < i - 1 implies s.skip(1)[j] != ':' by {
            assert(s.skip(1)[j] == s[j + 1]);
        }
        lemma_terminator_pos_from_index(s.skip(1), i - 1);
    }
}

/// Computes `lower_char`.
pub fn lower_char_exec(c: char) -> (r: char)
    ensures
        r == lower_char(c),
{
    match c {
        'A' => 'a', 'B' => 'b', 'C' => 'c', 'D' => 'd', 'E' => 'e', 'F' => 'f',
        'G' => 'g', 'H' => 'h', 'I' => 'i', 'J' => 'j', 'K' => 'k', 'L' => 'l',
        'M' => 'm', 'N' => 'n', 'O' => 'o', 'P' => 'p', 'Q' => 'q', 'R' => 'r',
        'S' => 's', 'T' => 't', 'U' => 'u', 'V' => 'v', 'W' => 'w', 'X' => 'x',
        'Y' => 'y', 'Z' => 'z',
        _ => c,
    }
}

/// Appends the ASCII lowercase form of the single character in `piece`
/// to `out`.
fn append_lower_char(out: &mut String, piece: &str)
    requires
        piece@.len() == 1,
    ensures
        final(out)@ == old(out)@ + seq![lower_char(piece@[0])],
{
    proof {
        reveal_strlit("a"); reveal_strlit("b"); reveal_strlit("c"); reveal_strlit("d");
        reveal_strlit("e"); reveal_strlit("f"); reveal_strlit("g"); reveal_strlit("h");
        reveal_strlit("i"); reveal_strlit("j"); reveal_strlit("k"); reveal_strlit("l");
        reveal_strlit("m"); reveal_strlit("n"); reveal_strlit("o"); reveal_strlit("p");
        reveal_strlit("q"); reveal_strlit("r"); reveal_strlit("s"); reveal_strlit("t");
        reveal_strlit("u"); reveal_strlit("v"); reveal_strlit("w"); reveal_strlit("x");
        reveal_strlit("y"); reveal_strlit("z");
    }
    let c = piece.get_char(0);
    match c {
        'A' => out.append("a"), 'B' => out.append("b"), 'C' => out.append("c"),
        'D' => out.append("d"), 'E' => out.append("e"), 'F' => out.append("f"),
        'G' => out.append("g"), 'H' => out.append("h"), 'I' => out.append("i"),
        'J' => out.append("j"), 'K' => out.append("k"), 'L' => out.append("l"),
        'M' => out.append("m"), 'N' => out.append("n"), 'O' => out.append("o"),
        'P' => out.append("p"), 'Q' => out.append("q"), 'R' => out.append("r"),
        'S' => out.append("s"), 'T' => out.append("t"), 'U' => out.append("u"),
        'V' => out.append("v"), 'W' => out.append("w"), 'X' => out.append("x"),
        'Y' => out.append("y"), 'Z' => out.append("z"),
        _ => out.append(piece),
    }
    proof {
        assert(piece@ =~= seq![piece@[0]]);
    }
}

/// Builds the ASCII lowercase form of `s`.
pub fn lower_string(s: &str) -> (r: String)
    ensures
        r@ == ascii_lower(s@),
{
    let n = s.unicode_len();
    let mut out = String::new();
    let mut i: usize = 0;
    while i < n
        invariant
            i <= n,
            n == s@.len(),
            out@ == ascii_lower(s@).subrange(0, i as int),
        decreases n - i,
    {
        let piece = s.substring_char(i, i + 1);
        append_lower_char(&mut out, piece);
        proof {
            assert(piece@[0] == s@[i as int]);
            assert(ascii_lower(s@).subrange(0, i + 1) =~= ascii_lower(s@).subrange(0, i as int)
                + seq![lower_char(s@[i as int])]);
        }
        i += 1;
    }
    proof {
        assert(ascii_lower(s@).subrange(0, n as int) =~= ascii_lower(s@));
    }
    out
}

/// Decides whether the ASCII lowercase form of `token` is exactly `lit`.
pub fn token_matches(token: &str, lit: &str) -> (r: bool)
    ensures
        r == (ascii_lower(token@) == lit@),
{
    let tn = token.unicode_len();
    let ln = lit.unicode_len();
    if tn != ln {
        return false;
    }
    let mut i: usize = 0;
    while i < tn
        invariant
            i <= tn,
            tn == token@.len(),
            tn == lit@.len(),
            forall|j: int| 0 <= j < i ==> ascii_lower(token@)[j] == lit@[j],
        decreases tn - i,
    {
        let tc = token.get_char(i);
        let lc = lit.get_char(i);
        if lower_char_exec(tc) != lc {
            assert(ascii_lower(token@)[i as int] != lit@[i as int]);
            return false;
        }
        i += 1;
    }
    assert(ascii_lower(token@) =~= lit@);
    true
}

/// Decides `is_valid_scheme_token` for the view of `token`.
pub fn valid_token(token: &str) -> (r: bool)
    ensures
        r == is_valid_scheme_token(token@),
{
    let n = token.unicode_len();
    if n == 0 {
        return false;
    }
    let mut i: usize = 0;
    while i < n
        invariant
            i <= n,
            n == token@.len(),
            forall|j: int| 0 <= j < i ==> is_scheme_char(#[trigger] token@[j]),
        decreases n - i,
    {
        let c = token.get_char(i);
        let ok = ('a' <= c && c <= 'z') || ('A' <= c && c <= 'Z')
            || ('0' <= c && c <= '9') || c == '+' || c == '-' || c == '.';
        if !ok {
            return false;
        }
        i += 1;
    }
    true
}

} // verus!
