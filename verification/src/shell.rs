//! The shell: line editing and command parsing.
//!
//! Keys arrive one at a time from a key stream; the line editor collects
//! them, echoing printable characters and handling backspace, until a
//! newline submits the line.  The parser splits the line on ASCII
//! whitespace and maps the first word to a command; argument errors become
//! their own variants so the caller prints the right message and goes on.
use crate::keyboard::Key;
use vstd::prelude::*;

verus! {

/// ASCII whitespace, as the line splitter sees it.
pub open spec fn spec_is_space(c: char) -> bool {
    c == ' ' || c == '\t' || c == '\n' || c == '\r' || c == '\u{c}'
}

fn is_space_char(c: char) -> (r: bool)
    ensures
        r == spec_is_space(c),
{
    c == ' ' || c == '\t' || c == '\n' || c == '\r' || c == '\u{c}'
}

/// The end of the whitespace-delimited token starting at `i`: the first
/// position at or after `i` holding whitespace, or the end of the line.
pub open spec fn spec_token_end(s: Seq<char>, i: int) -> int
    decreases s.len() - i,
{
    if i < 0 || i >= s.len() {
        s.len() as int
    } else if spec_is_space(s[i]) {
        i
    } else {
        spec_token_end(s, i + 1)
    }
}

proof fn lemma_token_end_bounds(s: Seq<char>, i: int)
    requires
        0 <= i <= s.len(),
    ensures
        i <= spec_token_end(s, i) <= s.len(),
    decreases s.len() - i,
{
    if i < s.len() && !spec_is_space(s[i]) {
        lemma_token_end_bounds(s, i + 1);
    }
}

/// The whitespace-separated tokens of `s` from position `i` on.
pub open spec fn spec_tokens_from(s: Seq<char>, i: int) -> Seq<Seq<char>>
    decreases s.len() - i,
    via spec_tokens_from_decreases
{
    if i < 0 || i >= s.len() {
        Seq::empty()
    } else if spec_is_space(s[i]) {
        spec_tokens_from(s, i + 1)
    } else {
        seq![s.subrange(i, spec_token_end(s, i))] + spec_tokens_from(s, spec_token_end(s, i))
    }
}

#[via_fn]
proof fn spec_tokens_from_decreases(s: Seq<char>, i: int) {
    if 0 <= i < s.len() && !spec_is_space(s[i]) {
        lemma_token_end_bounds(s, i + 1);
    }
}

/// The tokens of a whole line.
pub open spec fn spec_tokenize(s: Seq<char>) -> Seq<Seq<char>> {
    spec_tokens_from(s, 0)
}

/// The views of a vector of character vectors.
pub open spec fn views_of(ts: Seq<Vec<char>>) -> Seq<Seq<char>> {
    ts.map_values(|t: Vec<char>| t@)
}

fn token_end(s: &Vec<char>, i: usize) -> (j: usize)
    requires
        i <= s@.len(),
    ensures
        j == spec_token_end(s@, i as int),
        i <= j <= s@.len(),
    decreases s@.len() - i,
{
    if i == s.len() {
        i
    } else if is_space_char(s[i]) {
        i
    } else {
        token_end(s, i + 1)
    }
}

fn copy_range(s: &Vec<char>, i: usize, j: usize) -> (t: Vec<char>)
    requires
        i <= j <= s@.len(),
    ensures
        t@ == s@.subrange(i as int, j as int),
{
    let mut t: Vec<char> = Vec::new();
    let mut k = i;
    proof {
        assert(s@.subrange(i as int, i as int) =~= Seq::<char>::empty());
    }
    while k < j
        invariant
            i <= k <= j <= s@.len(),
            t@ == s@.subrange(i as int, k as int),
        decreases j - k,
    {
        t.push(s[k]);
        proof {
            assert(s@.subrange(i as int, k + 1) =~= s@.subrange(i as int, k as int).push(
                s@[k as int],
            ));
        }
        k = k + 1;
    }
    t
}

fn tokenize_from(s: &Vec<char>, i: usize) -> (r: Vec<Vec<char>>)
    requires
        i <= s@.len(),
    ensures
        views_of(r@) == spec_tokens_from(s@, i as int),
    decreases s@.len() - i,
{
    if i == s.len() {
        let r: Vec<Vec<char>> = Vec::new();
        proof {
            assert(views_of(r@) =~= spec_tokens_from(s@, i as int));
        }
        r
    } else if is_space_char(s[i]) {
        tokenize_from(s, i + 1)
    } else {
        let end = token_end(s, i);
        proof {
            lemma_token_end_bounds(s@, i as int + 1);
        }
        let tok = copy_range(s, i, end);
        let mut rest = tokenize_from(s, end);
        let mut r: Vec<Vec<char>> = Vec::new();
        r.push(tok);
        r.append(&mut rest);
        proof {
            assert(views_of(r@) =~= spec_tokens_from(s@, i as int));
        }
        r
    }
}

/// Split a line on ASCII whitespace into its tokens.
pub fn tokenize(s: &Vec<char>) -> (r: Vec<Vec<char>>)
    ensures
        views_of(r@) == spec_tokenize(s@),
{
    tokenize_from(s, 0)
}

/// A decimal digit.
pub open spec fn spec_is_digit(c: char) -> bool {
    48 <= c as u32 <= 57
}

fn is_digit_char(c: char) -> (r: bool)
    ensures
        r == spec_is_digit(c),
{
    let u = c as u32;
    48 <= u && u <= 57
}

pub open spec fn spec_digit_val(c: char) -> int {
    c as u32 - 48
}

/// The value of a digit string, most significant digit first.
pub open spec fn spec_dec_value(t: Seq<char>) -> int
    decreases t.len(),
{
    if t.len() == 0 {
        0
    } else {
        spec_dec_value(t.drop_last()) * 10 + spec_digit_val(t.last())
    }
}

pub open spec fn spec_all_digits(t: Seq<char>) -> bool {
    forall|k: int| 0 <= k < t.len() ==> spec_is_digit(#[trigger] t[k])
}

/// A longer digit string never has a smaller value.
proof fn lemma_dec_value_monotone(t: Seq<char>, i: int)
    requires
        spec_all_digits(t),
        0 <= i <= t.len(),
    ensures
        spec_dec_value(t.take(i)) <= spec_dec_value(t),
        spec_dec_value(t) >= 0,
    decreases t.len() - i,
{
    lemma_dec_value_nonneg(t);
    if i == t.len() {
        assert(t.take(i) =~= t);
    } else {
        lemma_dec_value_monotone(t, i + 1);
        assert(t.take(i + 1).drop_last() =~= t.take(i));
        assert(spec_all_digits(t.take(i))) by {
            assert(forall|k: int| 0 <= k < i ==> t.take(i)[k] == t[k]);
        }
        lemma_dec_value_nonneg(t.take(i));
        assert(spec_dec_value(t.take(i + 1)) == spec_dec_value(t.take(i)) * 10 + spec_digit_val(
            t.take(i + 1).last(),
        ));
        vstd::arithmetic::mul::lemma_mul_inequality(1, 10, spec_dec_value(t.take(i)));
    }
}

proof fn lemma_dec_value_nonneg(t: Seq<char>)
    requires
        spec_all_digits(t),
    ensures
        spec_dec_value(t) >= 0,
    decreases t.len(),
{
    if t.len() > 0 {
        assert(spec_all_digits(t.drop_last()));
        lemma_dec_value_nonneg(t.drop_last());
        vstd::arithmetic::mul::lemma_mul_nonnegative(spec_dec_value(t.drop_last()), 10);
    }
}

/// Parse a decimal `u64`: the token must be non-empty, all digits, and in
/// range.
pub fn parse_u64(t: &Vec<char>) -> (r: Option<u64>)
    ensures
        r matches Some(v) ==> t@.len() > 0 && spec_all_digits(t@) && v == spec_dec_value(t@),
        r is None ==> t@.len() == 0 || !spec_all_digits(t@) || spec_dec_value(t@) > u64::MAX,
{
    let n = t.len();
    if n == 0 {
        return None;
    }
    let mut acc: u64 = 0;
    let mut k: usize = 0;
    proof {
        assert(t@.take(0) =~= Seq::<char>::empty());
    }
    while k < n
        invariant
            k <= n,
            n == t@.len(),
            spec_all_digits(t@.take(k as int)),
            acc == spec_dec_value(t@.take(k as int)),
        decreases n - k,
    {
        let c = t[k];
        if !is_digit_char(c) {
            return None;
        }
        let d: u64 = ((c as u32) - 48) as u64;
        proof {
            assert(t@.take(k + 1).drop_last() =~= t@.take(k as int));
            assert(spec_all_digits(t@.take(k + 1)));
        }
        if acc > (u64::MAX - d) / 10 {
            proof {
                assert((u64::MAX - d) < 10 * ((u64::MAX - d) / 10) + 10) by {
                    vstd::arithmetic::div_mod::lemma_fundamental_div_mod(u64::MAX - d, 10);
                    vstd::arithmetic::div_mod::lemma_mod_bound(u64::MAX - d, 10);
                }
                vstd::arithmetic::mul::lemma_mul_inequality(
                    (u64::MAX - d) / 10 + 1,
                    acc as int,
                    10,
                );
                assert(spec_dec_value(t@.take(k + 1)) == acc * 10 + d);
                if spec_all_digits(t@) {
                    lemma_dec_value_monotone(t@, k + 1);
                }
            }
            return None;
        }
        proof {
            assert(10 * ((u64::MAX - d) / 10) <= u64::MAX - d) by {
                vstd::arithmetic::div_mod::lemma_fundamental_div_mod(u64::MAX - d, 10);
                vstd::arithmetic::div_mod::lemma_mod_bound(u64::MAX - d, 10);
            }
            vstd::arithmetic::mul::lemma_mul_inequality(acc as int, (u64::MAX - d) / 10, 10);
        }
        acc = acc * 10 + d;
        k = k + 1;
    }
    proof {
        assert(t@.take(n as int) =~= t@);
    }
    Some(acc)
}

/// Parse a decimal `u16` (a port number).
pub fn parse_u16(t: &Vec<char>) -> (r: Option<u16>)
    ensures
        r matches Some(v) ==> t@.len() > 0 && spec_all_digits(t@) && v == spec_dec_value(t@),
        r is None ==> t@.len() == 0 || !spec_all_digits(t@) || spec_dec_value(t@) > u16::MAX,
{
    match parse_u64(t) {
        Some(v) => {
            if v <= 0xFFFF {
                Some(v as u16)
            } else {
                None
            }
        },
        None => {
            proof {
                if t@.len() > 0 && spec_all_digits(t@) {
                    lemma_dec_value_nonneg(t@);
                }
            }
            None
        },
    }
}

/// An IPv4 address, as four octets.
#[derive(Clone, Copy, Debug, PartialEq, Eq, Structural)]
pub struct Ipv4Addr {
    pub a: u8,
    pub b: u8,
    pub c: u8,
    pub d: u8,
}

/// The position of the first `.` at or after `i`, or the end.
pub open spec fn spec_dot_end(s: Seq<char>, i: int) -> int
    decreases s.len() - i,
{
    if i < 0 || i >= s.len() {
        s.len() as int
    } else if s[i] == '.' {
        i
    } else {
        spec_dot_end(s, i + 1)
    }
}

proof fn lemma_dot_end_bounds(s: Seq<char>, i: int)
    requires
        0 <= i <= s.len(),
    ensures
        i <= spec_dot_end(s, i) <= s.len(),
    decreases s.len() - i,
{
    if i < s.len() && s[i] != '.' {
        lemma_dot_end_bounds(s, i + 1);
    }
}

/// The `.`-separated fields of `s` from `i` on; empty fields are kept.
pub open spec fn spec_dot_fields_from(s: Seq<char>, i: int) -> Seq<Seq<char>>
    decreases s.len() - i,
    via spec_dot_fields_from_decreases
{
    if i < 0 || i > s.len() {
        Seq::empty()
    } else {
        let e = spec_dot_end(s, i);
        if e >= s.len() {
            seq![s.subrange(i, s.len() as int)]
        } else {
            seq![s.subrange(i, e)] + spec_dot_fields_from(s, e + 1)
        }
    }
}

#[via_fn]
proof fn spec_dot_fields_from_decreases(s: Seq<char>, i: int) {
    if 0 <= i <= s.len() {
        lemma_dot_end_bounds(s, i);
    }
}

pub open spec fn spec_dot_fields(s: Seq<char>) -> Seq<Seq<char>> {
    spec_dot_fields_from(s, 0)
}

fn dot_end(s: &Vec<char>, i: usize) -> (j: usize)
    requires
        i <= s@.len(),
    ensures
        j == spec_dot_end(s@, i as int),
        i <= j <= s@.len(),
    decreases s@.len() - i,
{
    if i == s.len() {
        i
    } else if s[i] == '.' {
        i
    } else {
        dot_end(s, i + 1)
    }
}

fn dot_fields_from(s: &Vec<char>, i: usize) -> (r: Vec<Vec<char>>)
    requires
        i <= s@.len(),
    ensures
        views_of(r@) == spec_dot_fields_from(s@, i as int),
    decreases s@.len() - i,
{
    let e = dot_end(s, i);
    let field = copy_range(s, i, e);
    if e == s.len() {
        let mut r: Vec<Vec<char>> = Vec::new();
        r.push(field);
        proof {
            assert(views_of(r@) =~= spec_dot_fields_from(s@, i as int));
        }
        r
    } else {
        let mut rest = dot_fields_from(s, e + 1);
        let mut r: Vec<Vec<char>> = Vec::new();
        r.push(field);
        r.append(&mut rest);
        proof {
            assert(views_of(r@) =~= spec_dot_fields_from(s@, i as int));
        }
        r
    }
}

/// Whether a dotted-quad field is a valid octet: non-empty, all digits,
/// value at most 255.
pub open spec fn spec_is_octet(t: Seq<char>) -> bool {
    t.len() > 0 && spec_all_digits(t) && spec_dec_value(t) <= 255
}

/// What a dotted-quad address string denotes, if anything: exactly four
/// fields, each a valid octet.
pub open spec fn spec_parse_ipv4(s: Seq<char>) -> Option<Ipv4Addr> {
    let fs = spec_dot_fields(s);
    if fs.len() == 4 && spec_is_octet(fs[0]) && spec_is_octet(fs[1]) && spec_is_octet(fs[2])
        && spec_is_octet(fs[3]) {
        Some(
            Ipv4Addr {
                a: spec_dec_value(fs[0]) as u8,
                b: spec_dec_value(fs[1]) as u8,
                c: spec_dec_value(fs[2]) as u8,
                d: spec_dec_value(fs[3]) as u8,
            },
        )
    } else {
        None
    }
}

fn parse_octet(t: &Vec<char>) -> (r: Option<u8>)
    ensures
        r matches Some(v) ==> spec_is_octet(t@) && v == spec_dec_value(t@),
        r is None ==> !spec_is_octet(t@),
{
    match parse_u64(t) {
        Some(v) => {
            if v <= 255 {
                Some(v as u8)
            } else {
                None
            }
        },
        None => {
            proof {
                if t@.len() > 0 && spec_all_digits(t@) {
                    lemma_dec_value_nonneg(t@);
                }
            }
            None
        },
    }
}

/// Parse a dotted-quad IPv4 address.
pub fn parse_ipv4(t: &Vec<char>) -> (r: Option<Ipv4Addr>)
    ensures
        r == spec_parse_ipv4(t@),
{
    let fields = dot_fields_from(t, 0);
    if fields.len() != 4 {
        return None;
    }
    let a = parse_octet(&fields[0]);
    let b = parse_octet(&fields[1]);
    let c = parse_octet(&fields[2]);
    let d = parse_octet(&fields[3]);
    proof {
        assert(views_of(fields@)[0] == fields@[0]@);
        assert(views_of(fields@)[1] == fields@[1]@);
        assert(views_of(fields@)[2] == fields@[2]@);
        assert(views_of(fields@)[3] == fields@[3]@);
    }
    match (a, b, c, d) {
        (Some(a), Some(b), Some(c), Some(d)) => Some(Ipv4Addr { a, b, c, d }),
        _ => None,
    }
}

/// The tokens from `i` on, joined with single spaces.
pub open spec fn spec_join_from(ts: Seq<Seq<char>>, i: int) -> Seq<char>
    decreases ts.len() - i,
{
    if i < 0 || i >= ts.len() {
        Seq::empty()
    } else if i == ts.len() - 1 {
        ts[i]
    } else {
        ts[i] + seq![' '] + spec_join_from(ts, i + 1)
    }
}

fn join_from(ts: &Vec<Vec<char>>, i: usize) -> (r: Vec<char>)
    ensures
        r@ == spec_join_from(views_of(ts@), i as int),
    decreases ts@.len() - i,
{
    if i >= ts.len() {
        let r: Vec<char> = Vec::new();
        proof {
            assert(r@ =~= spec_join_from(views_of(ts@), i as int));
        }
        r
    } else {
        let first = &ts[i];
        let mut r = copy_range(first, 0, first.len());
        proof {
            assert(views_of(ts@)[i as int] == ts@[i as int]@);
            assert(ts@[i as int]@.subrange(0, ts@[i as int]@.len() as int) =~= ts@[i as int]@);
        }
        if i == ts.len() - 1 {
            r
        } else {
            r.push(' ');
            let mut rest = join_from(ts, i + 1);
            r.append(&mut rest);
            proof {
                assert(r@ =~= spec_join_from(views_of(ts@), i as int));
            }
            r
        }
    }
}

pub open spec fn spec_word_hello() -> Seq<char> {
    seq!['h', 'e', 'l', 'l', 'o']
}

pub open spec fn spec_word_echo() -> Seq<char> {
    seq!['e', 'c', 'h', 'o']
}

pub open spec fn spec_word_sleep() -> Seq<char> {
    seq!['s', 'l', 'e', 'e', 'p']
}

pub open spec fn spec_word_ping() -> Seq<char> {
    seq!['p', 'i', 'n', 'g']
}

pub open spec fn spec_word_send() -> Seq<char> {
    seq!['s', 'e', 'n', 'd']
}

pub open spec fn spec_word_listen() -> Seq<char> {
    seq!['l', 'i', 's', 't', 'e', 'n']
}

/// The shell's reply to `hello`.
pub open spec fn spec_world() -> Seq<char> {
    seq!['w', 'o', 'r', 'l', 'd', '!']
}

fn is_word_hello(t: &Vec<char>) -> (r: bool)
    ensures
        r <==> t@ == spec_word_hello(),
{
    let r = t.len() == 5 && t[0] == 'h' && t[1] == 'e' && t[2] == 'l' && t[3] == 'l' && t[4] == 'o';
    proof {
        if r {
            assert(t@ =~= spec_word_hello());
        }
    }
    r
}

fn is_word_echo(t: &Vec<char>) -> (r: bool)
    ensures
        r <==> t@ == spec_word_echo(),
{
    let r = t.len() == 4 && t[0] == 'e' && t[1] == 'c' && t[2] == 'h' && t[3] == 'o';
    proof {
        if r {
            assert(t@ =~= spec_word_echo());
        }
    }
    r
}

fn is_word_sleep(t: &Vec<char>) -> (r: bool)
    ensures
        r <==> t@ == spec_word_sleep(),
{
    let r = t.len() == 5 && t[0] == 's' && t[1] == 'l' && t[2] == 'e' && t[3] == 'e' && t[4] == 'p';
    proof {
        if r {
            assert(t@ =~= spec_word_sleep());
        }
    }
    r
}

fn is_word_ping(t: &Vec<char>) -> (r: bool)
    ensures
        r <==> t@ == spec_word_ping(),
{
    let r = t.len() == 4 && t[0] == 'p' && t[1] == 'i' && t[2] == 'n' && t[3] == 'g';
    proof {
        if r {
            assert(t@ =~= spec_word_ping());
        }
    }
    r
}

fn is_word_send(t: &Vec<char>) -> (r: bool)
    ensures
        r <==> t@ == spec_word_send(),
{
    let r = t.len() == 4 && t[0] == 's' && t[1] == 'e' && t[2] == 'n' && t[3] == 'd';
    proof {
        if r {
            assert(t@ =~= spec_word_send());
        }
    }
    r
}

fn is_word_listen(t: &Vec<char>) -> (r: bool)
    ensures
        r <==> t@ == spec_word_listen(),
{
    let r = t.len() == 6 && t[0] == 'l' && t[1] == 'i' && t[2] == 's' && t[3] == 't' && t[4] == 'e'
        && t[5] == 'n';
    proof {
        if r {
            assert(t@ =~= spec_word_listen());
        }
    }
    r
}

/// Whether a token parses as a decimal `u64`.
pub open spec fn spec_parses_u64(t: Seq<char>) -> bool {
    t.len() > 0 && spec_all_digits(t) && spec_dec_value(t) <= u64::MAX
}

/// Whether a token parses as a decimal `u16`.
pub open spec fn spec_parses_u16(t: Seq<char>) -> bool {
    t.len() > 0 && spec_all_digits(t) && spec_dec_value(t) <= u16::MAX
}

/// A parsed shell line.  Argument trouble keeps its own variants so the
/// caller prints the right message and carries on with the next line.
pub enum Command {
    /// Blank line: print nothing, show the prompt again.
    Empty,
    Hello,
    Echo(Vec<char>),
    /// Sleep for this many milliseconds.
    Sleep(u64),
    Ping(Ipv4Addr),
    Send(Ipv4Addr, Vec<char>),
    Listen(u16),
    /// A command that needs an argument got none.
    MissingArgument,
    /// An argument did not parse (a malformed number or address).
    InvalidArgument,
    /// An unrecognised command word.
    Unknown(Vec<char>),
}

/// Parse one submitted line into a command.
pub fn parse_command(line: &Vec<char>) -> (c: Command)
    ensures
        ({
            let toks = spec_tokenize(line@);
            &&& toks.len() == 0 ==> c is Empty
            &&& toks.len() > 0 && toks[0] == spec_word_hello() ==> c is Hello
            &&& toks.len() > 0 && toks[0] == spec_word_echo() ==> (c matches Command::Echo(t)
                && t@ == spec_join_from(toks, 1))
            &&& toks.len() == 1 && (toks[0] == spec_word_sleep() || toks[0] == spec_word_ping()
                || toks[0] == spec_word_send() || toks[0] == spec_word_listen())
                ==> c is MissingArgument
            &&& toks.len() > 1 && toks[0] == spec_word_sleep() ==> (if spec_parses_u64(toks[1]) {
                c matches Command::Sleep(v) && v == spec_dec_value(toks[1])
            } else {
                c is InvalidArgument
            })
            &&& toks.len() > 1 && toks[0] == spec_word_ping() ==> (match spec_parse_ipv4(
                toks[1],
            ) {
                Some(addr) => c matches Command::Ping(a) && a == addr,
                None => c is InvalidArgument,
            })
            &&& toks.len() > 1 && toks[0] == spec_word_send() ==> (match spec_parse_ipv4(
                toks[1],
            ) {
                Some(addr) => c matches Command::Send(a, t) && a == addr && t@ == spec_join_from(
                    toks,
                    2,
                ),
                None => c is InvalidArgument,
            })
            &&& toks.len() > 1 && toks[0] == spec_word_listen() ==> (if spec_parses_u16(
                toks[1],
            ) {
                c matches Command::Listen(p) && p == spec_dec_value(toks[1])
            } else {
                c is InvalidArgument
            })
            &&& toks.len() > 0 && !(toks[0] == spec_word_hello() || toks[0] == spec_word_echo()
                || toks[0] == spec_word_sleep() || toks[0] == spec_word_ping() || toks[0]
                == spec_word_send() || toks[0] == spec_word_listen()) ==> (
            c matches Command::Unknown(w) && w@ == toks[0])
        }),
{
    let tokens = tokenize(line);
    if tokens.len() == 0 {
        return Command::Empty;
    }
    proof {
        assert(views_of(tokens@)[0] == tokens@[0]@);
    }
    let first = &tokens[0];
    if is_word_hello(first) {
        Command::Hello
    } else if is_word_echo(first) {
        Command::Echo(join_from(&tokens, 1))
    } else if is_word_sleep(first) {
        if tokens.len() < 2 {
            return Command::MissingArgument;
        }
        proof {
            assert(views_of(tokens@)[1] == tokens@[1]@);
        }
        match parse_u64(&tokens[1]) {
            Some(v) => Command::Sleep(v),
            None => Command::InvalidArgument,
        }
    } else if is_word_ping(first) {
        if tokens.len() < 2 {
            return Command::MissingArgument;
        }
        proof {
            assert(views_of(tokens@)[1] == tokens@[1]@);
        }
        match parse_ipv4(&tokens[1]) {
            Some(addr) => Command::Ping(addr),
            None => Command::InvalidArgument,
        }
    } else if is_word_send(first) {
        if tokens.len() < 2 {
            return Command::MissingArgument;
        }
        proof {
            assert(views_of(tokens@)[1] == tokens@[1]@);
        }
        match parse_ipv4(&tokens[1]) {
            Some(addr) => Command::Send(addr, join_from(&tokens, 2)),
            None => Command::InvalidArgument,
        }
    } else if is_word_listen(first) {
        if tokens.len() < 2 {
            return Command::MissingArgument;
        }
        proof {
            assert(views_of(tokens@)[1] == tokens@[1]@);
        }
        match parse_u16(&tokens[1]) {
            Some(p) => Command::Listen(p),
            None => Command::InvalidArgument,
        }
    } else {
        Command::Unknown(copy_range(first, 0, first.len()))
    }
}

/// What the line editor did with one key.
pub enum EditAction {
    /// Newline: the finished line, ready to parse; the buffer is cleared.
    Submitted(Vec<char>),
    /// A printable character was appended; echo it.
    Echoed(char),
    /// Backspace removed the last character; erase it on screen.
    Erased,
    /// Nothing to do (backspace on an empty line, or a non-character key).
    Ignored,
}

/// The line being typed at the prompt.
pub struct LineEditor {
    pub buffer: Vec<char>,
}

impl LineEditor {
    pub fn new() -> (e: LineEditor)
        ensures
            e.buffer@.len() == 0,
    {
        LineEditor { buffer: Vec::new() }
    }

    /// Apply one key: newline submits the line, ASCII backspace (8) erases
    /// the last character if there is one, any other character is
    /// appended; non-character keys are ignored.
    pub fn handle_key(&mut self, key: Key) -> (a: EditAction)
        ensures
            key is Raw ==> a is Ignored && final(self).buffer@ == old(self).buffer@,
            key matches Key::Unicode(c) ==> {
                if c == '\n' {
                    &&& a matches EditAction::Submitted(l) && l@ == old(self).buffer@
                    &&& final(self).buffer@.len() == 0
                } else if c == '\u{8}' {
                    if old(self).buffer@.len() > 0 {
                        a is Erased && final(self).buffer@ == old(self).buffer@.drop_last()
                    } else {
                        a is Ignored && final(self).buffer@ == old(self).buffer@
                    }
                } else {
                    (a matches EditAction::Echoed(e) && e == c) && final(self).buffer@ == old(
                        self,
                    ).buffer@.push(c)
                }
            },
    {
        match key {
            Key::Raw(_) => EditAction::Ignored,
            Key::Unicode(c) => {
                if c == '\n' {
                    let mut line: Vec<char> = Vec::new();
                    core::mem::swap(&mut self.buffer, &mut line);
                    EditAction::Submitted(line)
                } else if c == '\u{8}' {
                    if self.buffer.len() > 0 {
                        self.buffer.pop();
                        proof {
                            assert(old(self).buffer@.subrange(
                                0,
                                old(self).buffer@.len() - 1,
                            ) =~= old(self).buffer@.drop_last());
                        }
                        EditAction::Erased
                    } else {
                        EditAction::Ignored
                    }
                } else {
                    self.buffer.push(c);
                    EditAction::Echoed(c)
                }
            },
        }
    }
}

/// The immediate text a command prints, for the commands that answer
/// directly: `hello` answers `world!` and `echo` answers its joined
/// arguments.  The other commands do I/O instead.
pub fn command_output(c: Command) -> (r: Option<Vec<char>>)
    ensures
        c is Hello ==> (r matches Some(t) && t@ == spec_world()),
        c matches Command::Echo(e) ==> (r matches Some(t) && t@ == e@),
        !(c is Hello || c is Echo) ==> r is None,
{
    match c {
        Command::Hello => {
            let mut t: Vec<char> = Vec::new();
            t.push('w');
            t.push('o');
            t.push('r');
            t.push('l');
            t.push('d');
            t.push('!');
            proof {
                assert(t@ =~= spec_world());
            }
            Some(t)
        },
        Command::Echo(e) => Some(e),
        _ => None,
    }
}

} // verus!
