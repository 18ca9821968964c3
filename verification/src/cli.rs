//! The text-command grammar of the front-end: one line of input becomes a
//! domain request. Reading the line is the caller's business; turning its
//! bytes into a command is the engine's, and is specified here token by
//! token.
use vstd::array::ArrayAdditionalExecFns;
use vstd::prelude::*;

verus! {

/// A parsed input line.
#[derive(Clone, Copy, Debug, PartialEq, Eq, Structural)]
pub enum Command {
    /// A blank line: nothing to do.
    Empty,
    /// `help`
    Help,
    /// `play <hand_index> [target_index]`; a malformed target is treated as
    /// absent.
    Play { hand_index: usize, target_index: Option<usize> },
    /// `end`
    End,
    /// `reflex`
    Reflex,
    /// `map <node_index>`
    MapNode { index: usize },
    /// Anything else: an unknown word or a malformed required number.
    Invalid,
}

/// ASCII whitespace separating tokens.
pub open spec fn is_space_spec(b: u8) -> bool {
    b == 32 || b == 9 || b == 10 || b == 13
}

/// Length of the leading token of `s` (zero at a space or on an empty
/// line).
pub open spec fn token_len(s: Seq<u8>) -> nat
    decreases s.len(),
{
    if s.len() == 0 || is_space_spec(s[0]) {
        0
    } else {
        (1 + token_len(s.drop_first())) as nat
    }
}

/// The leading token never runs past the end of the line.
pub proof fn lemma_token_len_le(s: Seq<u8>)
    ensures
        token_len(s) <= s.len(),
    decreases s.len(),
{
    if !(s.len() == 0 || is_space_spec(s[0])) {
        lemma_token_len_le(s.drop_first());
    }
}

/// The whitespace-separated tokens of `s`.
pub open spec fn tokens_of(s: Seq<u8>) -> Seq<Seq<u8>>
    decreases s.len(),
{
    if s.len() == 0 {
        Seq::empty()
    } else if is_space_spec(s[0]) {
        tokens_of(s.drop_first())
    } else {
        let tl = if token_len(s) <= s.len() {
            token_len(s)
        } else {
            s.len()
        };
        seq![s.take(tl as int)] + tokens_of(s.skip(tl as int))
    }
}

/// ASCII lowercase of one byte.
pub open spec fn lower_byte(b: u8) -> u8 {
    if 65 <= b <= 90 {
        (b + 32) as u8
    } else {
        b
    }
}

/// Whether token `t` spells `kw` up to ASCII case.
pub open spec fn matches_keyword(t: Seq<u8>, kw: Seq<u8>) -> bool {
    t.map_values(|b: u8| lower_byte(b)) == kw
}

/// Whether `b` is an ASCII digit.
pub open spec fn is_digit(b: u8) -> bool {
    48 <= b <= 57
}

/// The number a digit string spells.
pub open spec fn digits_value(t: Seq<u8>) -> int
    decreases t.len(),
{
    if t.len() == 0 {
        0
    } else {
        digits_value(t.drop_last()) * 10 + (t.last() - 48)
    }
}

/// Whether `t` is a well-formed number that fits the machine: nonempty, all
/// digits, and within `usize`.
pub open spec fn is_valid_number(t: Seq<u8>) -> bool {
    t.len() > 0 && (forall|i: int| 0 <= i < t.len() ==> is_digit(#[trigger] t[i])) && digits_value(
        t,
    ) <= usize::MAX
}

/// The command a token list means.
pub open spec fn command_of_tokens(toks: Seq<Seq<u8>>) -> Command {
    if toks.len() == 0 {
        Command::Empty
    } else if matches_keyword(toks[0], seq![104u8, 101u8, 108u8, 112u8]) {
        Command::Help
    } else if matches_keyword(toks[0], seq![112u8, 108u8, 97u8, 121u8]) {
        if toks.len() >= 2 && is_valid_number(toks[1]) {
            Command::Play {
                hand_index: digits_value(toks[1]) as usize,
                target_index: if toks.len() >= 3 && is_valid_number(toks[2]) {
                    Some(digits_value(toks[2]) as usize)
                } else {
                    None
                },
            }
        } else {
            Command::Invalid
        }
    } else if matches_keyword(toks[0], seq![101u8, 110u8, 100u8]) {
        Command::End
    } else if matches_keyword(toks[0], seq![114u8, 101u8, 102u8, 108u8, 101u8, 120u8]) {
        Command::Reflex
    } else if matches_keyword(toks[0], seq![109u8, 97u8, 112u8]) {
        if toks.len() >= 2 && is_valid_number(toks[1]) {
            Command::MapNode { index: digits_value(toks[1]) as usize }
        } else {
            Command::Invalid
        }
    } else {
        Command::Invalid
    }
}

/// The command one input line means.
pub open spec fn parse_command_spec(s: Seq<u8>) -> Command {
    command_of_tokens(tokens_of(s))
}

/// Split a line into its whitespace-separated tokens.
fn tokenize(s: &[u8]) -> (tokens: Vec<Vec<u8>>)
    ensures
        tokens@.map_values(|t: Vec<u8>| t@) == tokens_of(s@),
{
    let mut tokens: Vec<Vec<u8>> = Vec::new();
    let mut i: usize = 0;
    proof {
        assert(tokens@.map_values(|t: Vec<u8>| t@) =~= Seq::<Seq<u8>>::empty());
        assert(s@.skip(0) =~= s@);
        assert(tokens_of(s@) =~= tokens@.map_values(|t: Vec<u8>| t@) + tokens_of(s@.skip(0)));
    }
    while i < s.len()
        invariant
            i <= s@.len(),
            tokens_of(s@) == tokens@.map_values(|t: Vec<u8>| t@) + tokens_of(s@.skip(i as int)),
        decreases s@.len() - i,
    {
        let b = s[i];
        if b == 32 || b == 9 || b == 10 || b == 13 {
            proof {
                assert(s@.skip(i as int).drop_first() =~= s@.skip(i + 1));
            }
            i = i + 1;
        } else {
            let start = i;
            let mut tok: Vec<u8> = Vec::new();
            while i < s.len() && !(s[i] == 32 || s[i] == 9 || s[i] == 10 || s[i] == 13)
                invariant
                    start <= i <= s@.len(),
                    start < s@.len(),
                    !is_space_spec(s@[start as int]),
                    tok@ == s@.subrange(start as int, i as int),
                    forall|m: int| start <= m < i ==> !is_space_spec(#[trigger] s@[m]),
                decreases s@.len() - i,
            {
                tok.push(s[i]);
                proof {
                    assert(tok@ =~= s@.subrange(start as int, i + 1));
                }
                i = i + 1;
            }
            proof {
                let suffix = s@.skip(start as int);
                lemma_token_run(s@, start as int, i as int);
                lemma_token_len_le(suffix);
                assert(suffix.take(token_len(suffix) as int) =~= s@.subrange(
                    start as int,
                    i as int,
                ));
                assert(suffix.skip(token_len(suffix) as int) =~= s@.skip(i as int));
                assert(tokens_of(suffix) == seq![tok@] + tokens_of(s@.skip(i as int)));
            }
            let ghost pre = tokens@;
            tokens.push(tok);
            proof {
                assert(tokens@.map_values(|t: Vec<u8>| t@) =~= pre.map_values(|t: Vec<u8>| t@)
                    + seq![tok@]);
                assert(tokens_of(s@) =~= tokens@.map_values(|t: Vec<u8>| t@) + tokens_of(
                    s@.skip(i as int),
                ));
            }
        }
    }
    proof {
        assert(s@.skip(s@.len() as int) =~= Seq::<u8>::empty());
        assert(tokens_of(s@) =~= tokens@.map_values(|t: Vec<u8>| t@));
    }
    tokens
}

/// A maximal run of non-space bytes from `start` to `end` is exactly the
/// leading token of the line's suffix at `start`.
proof fn lemma_token_run(s: Seq<u8>, start: int, end: int)
    requires
        0 <= start <= end <= s.len(),
        forall|m: int| start <= m < end ==> !is_space_spec(#[trigger] s[m]),
        end == s.len() || is_space_spec(s[end]),
    ensures
        token_len(s.skip(start)) == end - start,
    decreases end - start,
{
    let suffix = s.skip(start);
    if start < end {
        lemma_token_run(s, start + 1, end);
        assert(suffix[0] == s[start]);
        assert(suffix.drop_first() =~= s.skip(start + 1));
    } else {
        if start < s.len() {
            assert(suffix[0] == s[start]);
        }
    }
}

/// Parse a decimal number token.
fn parse_number(t: &Vec<u8>) -> (r: Option<usize>)
    ensures
        r is Some <==> is_valid_number(t@),
        r is Some ==> r->Some_0 == digits_value(t@),
{
    if t.len() == 0 {
        return None;
    }
    let mut acc: usize = 0;
    let mut over = false;
    let mut i: usize = 0;
    while i < t.len()
        invariant
            i <= t@.len(),
            forall|m: int| 0 <= m < i ==> is_digit(#[trigger] t@[m]),
            !over ==> acc == digits_value(t@.take(i as int)),
            over ==> digits_value(t@.take(i as int)) > usize::MAX,
        decreases t@.len() - i,
    {
        let b = t[i];
        if !(48 <= b && b <= 57) {
            return None;
        }
        let d = (b - 48) as usize;
        proof {
            assert(t@.take(i + 1).drop_last() =~= t@.take(i as int));
            assert(t@.take(i + 1).last() == t@[i as int]);
        }
        if over {
            proof {
                lemma_digits_value_grow(t@.take(i + 1));
            }
        } else {
            if acc > (usize::MAX - d) / 10 {
                over = true;
                proof {
                    assert(digits_value(t@.take(i + 1)) == acc * 10 + d);
                    assert(acc * 10 + d > usize::MAX) by (nonlinear_arith)
                        requires
                            acc > (usize::MAX - d) / 10,
                            0 <= d <= 9,
                    ;
                }
            } else {
                proof {
                    assert(acc * 10 + d <= usize::MAX) by (nonlinear_arith)
                        requires
                            acc <= (usize::MAX - d) / 10,
                            0 <= d <= 9,
                    ;
                }
                acc = acc * 10 + d;
            }
        }
        i = i + 1;
    }
    proof {
        assert(t@.take(t@.len() as int) =~= t@);
    }
    if over {
        None
    } else {
        Some(acc)
    }
}

/// Appending a digit never shrinks the number a digit string spells.
proof fn lemma_digits_value_grow(t: Seq<u8>)
    requires
        t.len() > 0,
        forall|i: int| 0 <= i < t.len() ==> is_digit(#[trigger] t[i]),
    ensures
        digits_value(t) >= digits_value(t.drop_last()),
    decreases t.len(),
{
    assert(digits_value(t) == digits_value(t.drop_last()) * 10 + (t.last() - 48));
    assert forall|i: int| 0 <= i < t.drop_last().len() implies is_digit(
        #[trigger] t.drop_last()[i],
    ) by {
        assert(t.drop_last()[i] == t[i]);
    }
    lemma_digits_value_nonneg(t.drop_last());
    assert(digits_value(t.drop_last()) * 10 >= digits_value(t.drop_last())) by (nonlinear_arith)
        requires
            digits_value(t.drop_last()) >= 0,
    ;
}

/// A digit string never spells a negative number.
proof fn lemma_digits_value_nonneg(t: Seq<u8>)
    requires
        forall|i: int| 0 <= i < t.len() ==> is_digit(#[trigger] t[i]),
    ensures
        digits_value(t) >= 0,
    decreases t.len(),
{
    if t.len() > 0 {
        lemma_digits_value_nonneg(t.drop_last());
        assert(digits_value(t.drop_last()) * 10 >= 0) by (nonlinear_arith)
            requires
                digits_value(t.drop_last()) >= 0,
        ;
    }
}

/// Whether token `t` spells the ASCII keyword `kw`, case-insensitively.
fn token_is(t: &Vec<u8>, kw: &[u8]) -> (r: bool)
    ensures
        r == matches_keyword(t@, kw@),
{
    if t.len() != kw.len() {
        proof {
            assert(t@.map_values(|b: u8| lower_byte(b)).len() == t@.len());
        }
        return false;
    }
    let mut i: usize = 0;
    while i < t.len()
        invariant
            t@.len() == kw@.len(),
            i <= t@.len(),
            forall|m: int| 0 <= m < i ==> lower_byte(#[trigger] t@[m]) == kw@[m],
        decreases t@.len() - i,
    {
        let b = t[i];
        let lb = if 65 <= b && b <= 90 {
            b + 32
        } else {
            b
        };
        if lb != kw[i] {
            proof {
                assert(t@.map_values(|b2: u8| lower_byte(b2))[i as int] == lower_byte(t@[i as int]));
            }
            return false;
        }
        i = i + 1;
    }
    proof {
        assert(t@.map_values(|b2: u8| lower_byte(b2)) =~= kw@);
    }
    true
}

/// Parse one input line into the command it means.
pub fn parse_command(line: &[u8]) -> (r: Command)
    ensures
        r == parse_command_spec(line@),
{
    let tokens = tokenize(line);
    proof {
        if tokens@.len() > 0 {
            assert(tokens@.map_values(|t: Vec<u8>| t@)[0] == tokens@[0]@);
        }
    }
    if tokens.len() == 0 {
        return Command::Empty;
    }
    let head = &tokens[0];
    let kw_help: [u8; 4] = [104, 101, 108, 112];
    let kw_play: [u8; 4] = [112, 108, 97, 121];
    let kw_end: [u8; 3] = [101, 110, 100];
    let kw_reflex: [u8; 6] = [114, 101, 102, 108, 101, 120];
    let kw_map: [u8; 3] = [109, 97, 112];
    if token_is(head, kw_help.as_slice()) {
        Command::Help
    } else if token_is(head, kw_play.as_slice()) {
        if tokens.len() >= 2 {
            match parse_number(&tokens[1]) {
                Some(hand_index) => {
                    let target_index = if tokens.len() >= 3 {
                        parse_number(&tokens[2])
                    } else {
                        None
                    };
                    proof {
                        assert(tokens@.map_values(|t: Vec<u8>| t@)[1] == tokens@[1]@);
                        if tokens@.len() >= 3 {
                            assert(tokens@.map_values(|t: Vec<u8>| t@)[2] == tokens@[2]@);
                        }
                    }
                    Command::Play { hand_index, target_index }
                },
                None => {
                    proof {
                        assert(tokens@.map_values(|t: Vec<u8>| t@)[1] == tokens@[1]@);
                    }
                    Command::Invalid
                },
            }
        } else {
            Command::Invalid
        }
    } else if token_is(head, kw_end.as_slice()) {
        Command::End
    } else if token_is(head, kw_reflex.as_slice()) {
        Command::Reflex
    } else if token_is(head, kw_map.as_slice()) {
        if tokens.len() >= 2 {
            match parse_number(&tokens[1]) {
                Some(index) => {
                    proof {
                        assert(tokens@.map_values(|t: Vec<u8>| t@)[1] == tokens@[1]@);
                    }
                    Command::MapNode { index }
                },
                None => {
                    proof {
                        assert(tokens@.map_values(|t: Vec<u8>| t@)[1] == tokens@[1]@);
                    }
                    Command::Invalid
                },
            }
        } else {
            Command::Invalid
        }
    } else {
        Command::Invalid
    }
}

} // verus!
