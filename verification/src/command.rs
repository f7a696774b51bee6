//! Grammar of the interactive control commands.
//!
//! A line is tokenized with shell-style quoting (that part is the
//! tokenizer crate's, behind a trusted wrapper) and then matched against
//! the fixed command table: `help`, `exit`, `info`, `add <addr>`,
//! `rm <index>`, `gain <dB>` and `max <value>`. Argument validation is
//! verified here: the index must be a decimal that fits in `usize`, and
//! the gain arguments must be written as floating-point literals. The
//! numeric value of a gain argument is floating-point state and is read
//! by the process around the library; the validated text travels in the
//! command. A malformed line never fails the caller: it comes back as
//! `Command::Error` with the usage text.

use vstd::prelude::*;

verus! {

/// One parsed control command. `Add`, `SetGain` and `SetGainMax` carry
/// their argument as validated text: the address is resolved, and the
/// decibel value converted to a linear multiplier, by the process that
/// executes the command.
#[derive(Debug)]
pub enum Command {
    Nop,
    Help,
    Exit,
    Info,
    Rm(usize),
    Add(String),
    SetGain(String),
    SetGainMax(String),
    Error(String),
}

/// What `shell_words::split` returns on a line: its tokens, or nothing
/// when a quote is left unmatched. The tokenization depends on the
/// characters of the line alone.
pub uninterp spec fn shell_tokens(s: Seq<char>) -> Option<Seq<Seq<char>>>;

/// Relies on shell_words::split: splits a command line into words by
/// the quoting rules of the POSIX shell, and refuses a line with an
/// unmatched quote.
#[verifier::external_body]
fn split_line(line: &str) -> (r: Option<Vec<String>>)
    ensures
        r is Some <==> shell_tokens(line@) is Some,
        r matches Some(v) ==> (shell_tokens(line@) matches Some(ts) && v@.len() == ts.len()
            && (forall|i: int| 0 <= i < ts.len() ==> v@[i]@ == ts[i])),
{
    shell_words::split(line).ok()
}

/// Whether `c` is a decimal digit.
pub open spec fn spec_is_digit(c: char) -> bool {
    48 <= c as u32 <= 57
}

/// Value of a decimal digit.
pub open spec fn spec_digit_val(c: char) -> int {
    c as u32 - 48
}

/// Whether every character of `s` is a decimal digit.
pub open spec fn spec_all_digits(s: Seq<char>) -> bool {
    forall|i: int| 0 <= i < s.len() ==> spec_is_digit(s[i])
}

/// Value of a string of decimal digits, most significant first.
pub open spec fn spec_dec_val(s: Seq<char>) -> int
    decreases s.len(),
{
    if s.len() == 0 {
        0
    } else {
        spec_dec_val(s.drop_last()) * 10 + spec_digit_val(s.last())
    }
}

/// The digits of an unsigned decimal literal: a single leading `+` is
/// allowed and carries no value.
pub open spec fn spec_usize_digits(s: Seq<char>) -> Seq<char> {
    if s.len() > 0 && s[0] == '+' {
        s.drop_first()
    } else {
        s
    }
}

/// Whether `s` is an unsigned decimal literal whose value fits in
/// `usize`: what `str::parse::<usize>` accepts.
pub open spec fn spec_parses_usize(s: Seq<char>) -> bool {
    let d = spec_usize_digits(s);
    d.len() > 0 && spec_all_digits(d) && spec_dec_val(d) <= usize::MAX
}

/// A digit string's value is not negative.
proof fn lemma_dec_val_nonneg(s: Seq<char>)
    requires
        spec_all_digits(s),
    ensures
        spec_dec_val(s) >= 0,
    decreases s.len(),
{
    if s.len() > 0 {
        lemma_dec_val_nonneg(s.drop_last());
    }
}

/// Dropping trailing digits never increases a digit string's value.
proof fn lemma_dec_val_prefix(s: Seq<char>, k: int)
    requires
        spec_all_digits(s),
        0 <= k <= s.len(),
    ensures
        spec_dec_val(s.take(k)) <= spec_dec_val(s),
    decreases s.len(),
{
    if k < s.len() {
        assert(spec_all_digits(s.drop_last()));
        assert(s.take(k) =~= s.drop_last().take(k));
        lemma_dec_val_prefix(s.drop_last(), k);
        lemma_dec_val_nonneg(s.drop_last());
    } else {
        assert(s.take(k) =~= s);
    }
}

/// Reads an unsigned decimal literal, exactly as `str::parse::<usize>`
/// does: an optional `+`, then digits, refused when empty, when a
/// character is no digit, or when the value does not fit.
pub fn parse_usize(s: &str) -> (r: Option<usize>)
    ensures
        r is Some <==> spec_parses_usize(s@),
        r matches Some(v) ==> v == spec_dec_val(spec_usize_digits(s@)),
{
    let len = s.unicode_len();
    let start: usize = if len > 0 && s.get_char(0) == '+' {
        1
    } else {
        0
    };
    let ghost d = spec_usize_digits(s@);
    proof {
        assert(d =~= s@.subrange(start as int, len as int));
    }
    if start == len {
        return None;
    }
    let mut v: usize = 0;
    let mut j: usize = start;
    while j < len
        invariant
            start <= j <= len,
            len == s@.len(),
            len <= usize::MAX,
            d == spec_usize_digits(s@),
            d == s@.subrange(start as int, len as int),
            spec_all_digits(s@.subrange(start as int, j as int)),
            v == spec_dec_val(s@.subrange(start as int, j as int)),
        decreases len - j,
    {
        let c = s.get_char(j);
        let u = c as u32;
        proof {
            assert(d.take(j - start) =~= s@.subrange(start as int, j as int));
            assert(d.take(j + 1 - start) =~= s@.subrange(start as int, j + 1));
            assert(d.take(j + 1 - start).drop_last() =~= d.take(j - start));
        }
        if u < 48 || u > 57 {
            proof {
                assert(!spec_is_digit(d[j - start]));
            }
            return None;
        }
        let dv = (u - 48) as usize;
        if v > (usize::MAX - dv) / 10 {
            proof {
                assert(spec_dec_val(d.take(j + 1 - start)) == v * 10 + dv);
                assert(v * 10 + dv > usize::MAX) by {
                    vstd::arithmetic::div_mod::lemma_fundamental_div_mod(
                        (usize::MAX - dv) as int,
                        10,
                    );
                };
                if spec_all_digits(d) {
                    lemma_dec_val_prefix(d, j + 1 - start);
                }
            }
            return None;
        }
        v = v * 10 + dv;
        j += 1;
    }
    proof {
        assert(s@.subrange(start as int, len as int) =~= d);
        lemma_dec_val_nonneg(d);
    }
    Some(v)
}

/// Position of the first character at or after `i` that is no digit.
pub open spec fn spec_digits_end(s: Seq<char>, i: int) -> int
    decreases s.len() - i,
{
    if i < s.len() && spec_is_digit(s[i]) {
        spec_digits_end(s, i + 1)
    } else {
        i
    }
}

/// First non-digit position at or after `from`.
fn scan_digits(s: &str, from: usize) -> (r: usize)
    requires
        from <= s@.len(),
        s@.len() <= usize::MAX,
    ensures
        from <= r <= s@.len(),
        r == spec_digits_end(s@, from as int),
{
    let len = s.unicode_len();
    let mut j = from;
    while j < len
        invariant
            from <= j <= len,
            len == s@.len(),
            spec_digits_end(s@, from as int) == spec_digits_end(s@, j as int),
        decreases len - j,
    {
        let u = s.get_char(j) as u32;
        if u < 48 || u > 57 {
            return j;
        }
        j += 1;
    }
    j
}

/// Whether `c` is the letter `lower` in either case; `lower` is a
/// lower-case ASCII letter.
pub open spec fn spec_ci(c: char, lower: char) -> bool {
    c == lower || c as u32 + 0x20 == lower as u32
}

fn ci(c: char, lower: char) -> (r: bool)
    ensures
        r == spec_ci(c, lower),
{
    c == lower || c as u32 + 0x20 == lower as u32
}

/// The word `inf`, in any case.
pub open spec fn spec_is_inf(t: Seq<char>) -> bool {
    t.len() == 3 && spec_ci(t[0], 'i') && spec_ci(t[1], 'n') && spec_ci(t[2], 'f')
}

/// The word `infinity`, in any case.
pub open spec fn spec_is_infinity(t: Seq<char>) -> bool {
    t.len() == 8 && spec_ci(t[0], 'i') && spec_ci(t[1], 'n') && spec_ci(t[2], 'f') && spec_ci(
        t[3],
        'i',
    ) && spec_ci(t[4], 'n') && spec_ci(t[5], 'i') && spec_ci(t[6], 't') && spec_ci(t[7], 'y')
}

/// The word `nan`, in any case.
pub open spec fn spec_is_nan(t: Seq<char>) -> bool {
    t.len() == 3 && spec_ci(t[0], 'n') && spec_ci(t[1], 'a') && spec_ci(t[2], 'n')
}

/// An exponent part starting at `j`: `e` or `E`, an optional sign, and
/// at least one digit reaching the end of the string.
pub open spec fn spec_is_exp_at(t: Seq<char>, j: int) -> bool {
    &&& j < t.len()
    &&& (t[j] == 'e' || t[j] == 'E')
    &&& ({
        let k = if j + 1 < t.len() && (t[j + 1] == '+' || t[j + 1] == '-') {
            j + 2
        } else {
            j + 1
        };
        k < t.len() && spec_digits_end(t, k) == t.len()
    })
}

/// An unsigned numeric literal: digits, an optional point with more
/// digits, an optional exponent; at least one digit must stand before
/// the exponent.
pub open spec fn spec_is_number(t: Seq<char>) -> bool {
    let i = spec_digits_end(t, 0);
    let j = if i < t.len() && t[i] == '.' {
        spec_digits_end(t, i + 1)
    } else {
        i
    };
    &&& (i > 0 || j > i + 1)
    &&& (j == t.len() || spec_is_exp_at(t, j))
}

/// The string with a single leading sign removed.
pub open spec fn spec_strip_sign(s: Seq<char>) -> Seq<char> {
    if s.len() > 0 && (s[0] == '+' || s[0] == '-') {
        s.drop_first()
    } else {
        s
    }
}

/// Whether `s` is a floating-point literal: what `f32::from_str`
/// accepts — an optional sign, then `inf`, `infinity` or `nan` in any
/// case, or a numeric literal.
pub open spec fn spec_is_float_literal(s: Seq<char>) -> bool {
    let t = spec_strip_sign(s);
    spec_is_inf(t) || spec_is_infinity(t) || spec_is_nan(t) || spec_is_number(t)
}

/// Checks that `s` is written as a floating-point literal, so that the
/// process around the library can read it without being refused.
pub fn is_float_literal(s: &str) -> (r: bool)
    ensures
        r == spec_is_float_literal(s@),
{
    let len = s.unicode_len();
    let start: usize = if len > 0 {
        let c0 = s.get_char(0);
        if c0 == '+' || c0 == '-' {
            1
        } else {
            0
        }
    } else {
        0
    };
    let t = s.substring_char(start, len);
    proof {
        assert(t@ =~= spec_strip_sign(s@));
    }
    let tlen = t.unicode_len();
    if tlen == 3 && ci(t.get_char(0), 'i') && ci(t.get_char(1), 'n') && ci(t.get_char(2), 'f') {
        return true;
    }
    if tlen == 8 && ci(t.get_char(0), 'i') && ci(t.get_char(1), 'n') && ci(t.get_char(2), 'f')
        && ci(t.get_char(3), 'i') && ci(t.get_char(4), 'n') && ci(t.get_char(5), 'i') && ci(
        t.get_char(6),
        't',
    ) && ci(t.get_char(7), 'y') {
        return true;
    }
    if tlen == 3 && ci(t.get_char(0), 'n') && ci(t.get_char(1), 'a') && ci(t.get_char(2), 'n') {
        return true;
    }
    let i = scan_digits(t, 0);
    let j = if i < tlen && t.get_char(i) == '.' {
        scan_digits(t, i + 1)
    } else {
        i
    };
    if !(i > 0 || j > i + 1) {
        return false;
    }
    if j == tlen {
        return true;
    }
    let e = t.get_char(j);
    if e != 'e' && e != 'E' {
        return false;
    }
    let k: usize = if j + 1 < tlen {
        let cs = t.get_char(j + 1);
        if cs == '+' || cs == '-' {
            j + 2
        } else {
            j + 1
        }
    } else {
        j + 1
    };
    if k >= tlen {
        return false;
    }
    scan_digits(t, k) == tlen
}

/// The usage text that `help` prints and that a refused line reports.
pub open spec fn spec_usage() -> Seq<char> {
    "commands:\n  help         show this text\n  exit         leave the control loop\n  info         show gain and addresses\n  add <addr>   append a forwarding address\n  rm <index>   remove the address at an index\n  gain <dB>    set gain per sample\n  max <value>  set maximum gain\n"@
}

fn usage() -> (r: String)
    ensures
        r@ == spec_usage(),
{
    String::from_str(
        "commands:\n  help         show this text\n  exit         leave the control loop\n  info         show gain and addresses\n  add <addr>   append a forwarding address\n  rm <index>   remove the address at an index\n  gain <dB>    set gain per sample\n  max <value>  set maximum gain\n",
    )
}

/// A command that reports a refused line with the message `usage`.
pub open spec fn spec_is_refusal(c: Command, usage: Seq<char>) -> bool {
    c matches Command::Error(m) && m@ == usage
}

/// The one command a line may parse to, given the tokenization named by
/// `shell_tokens` and the table of commands. `usage` is the text a
/// refused line reports.
pub open spec fn spec_command_of(line: Seq<char>, usage: Seq<char>, c: Command) -> bool {
    match shell_tokens(line) {
        None => spec_is_refusal(c, usage),
        Some(ts) => {
            if ts.len() == 0 {
                c == Command::Nop
            } else if ts[0] == "help"@ {
                if ts.len() == 1 {
                    c == Command::Help
                } else {
                    spec_is_refusal(c, usage)
                }
            } else if ts[0] == "exit"@ {
                if ts.len() == 1 {
                    c == Command::Exit
                } else {
                    spec_is_refusal(c, usage)
                }
            } else if ts[0] == "info"@ {
                if ts.len() == 1 {
                    c == Command::Info
                } else {
                    spec_is_refusal(c, usage)
                }
            } else if ts[0] == "rm"@ {
                if ts.len() == 2 && spec_parses_usize(ts[1]) {
                    c matches Command::Rm(i) && i == spec_dec_val(spec_usize_digits(ts[1]))
                } else {
                    spec_is_refusal(c, usage)
                }
            } else if ts[0] == "add"@ {
                if ts.len() == 2 {
                    c matches Command::Add(a) && a@ == ts[1]
                } else {
                    spec_is_refusal(c, usage)
                }
            } else if ts[0] == "gain"@ {
                if ts.len() == 2 && spec_is_float_literal(ts[1]) {
                    c matches Command::SetGain(g) && g@ == ts[1]
                } else {
                    spec_is_refusal(c, usage)
                }
            } else if ts[0] == "max"@ {
                if ts.len() == 2 && spec_is_float_literal(ts[1]) {
                    c matches Command::SetGainMax(g) && g@ == ts[1]
                } else {
                    spec_is_refusal(c, usage)
                }
            } else {
                spec_is_refusal(c, usage)
            }
        },
    }
}

/// Whether the string `a` reads exactly as the literal `b`.
fn str_eq_lit(a: &String, b: &str) -> (r: bool)
    ensures
        r == (a@ == b@),
{
    let bs = String::from_str(b);
    a.eq(&bs)
}

/// The control surface's parser. It holds the usage text it answers
/// `help` and refused lines with.
pub struct App {
    help: String,
}

impl View for App {
    type V = Seq<char>;

    closed spec fn view(&self) -> Seq<char> {
        self.help@
    }
}

impl App {
    /// A parser with the fixed command table and its usage text.
    pub fn new() -> (r: App)
        ensures
            r@ == spec_usage(),
    {
        App { help: usage() }
    }

    /// The usage text, as `help` prints it.
    pub fn help(&self) -> (r: &String)
        ensures
            r@ == self@,
    {
        &self.help
    }

    /// Parses one line of control input. Every line parses to exactly
    /// one command; a malformed or unrecognized one parses to
    /// `Command::Error` carrying the usage text, never to a failure of
    /// the caller.
    pub fn parse_command(&self, line: &str) -> (r: Command)
        ensures
            spec_command_of(line@, self@, r),
    {
        let toks = match split_line(line) {
            None => {
                return Command::Error(self.help.clone());
            },
            Some(toks) => toks,
        };
        if toks.len() == 0 {
            return Command::Nop;
        }
        let head = &toks[0];
        if str_eq_lit(head, "help") {
            if toks.len() == 1 {
                Command::Help
            } else {
                Command::Error(self.help.clone())
            }
        } else if str_eq_lit(head, "exit") {
            if toks.len() == 1 {
                Command::Exit
            } else {
                Command::Error(self.help.clone())
            }
        } else if str_eq_lit(head, "info") {
            if toks.len() == 1 {
                Command::Info
            } else {
                Command::Error(self.help.clone())
            }
        } else if str_eq_lit(head, "rm") {
            if toks.len() == 2 {
                match parse_usize(toks[1].as_str()) {
                    Some(i) => Command::Rm(i),
                    None => Command::Error(self.help.clone()),
                }
            } else {
                Command::Error(self.help.clone())
            }
        } else if str_eq_lit(head, "add") {
            if toks.len() == 2 {
                Command::Add(toks[1].clone())
            } else {
                Command::Error(self.help.clone())
            }
        } else if str_eq_lit(head, "gain") {
            if toks.len() == 2 && is_float_literal(toks[1].as_str()) {
                Command::SetGain(toks[1].clone())
            } else {
                Command::Error(self.help.clone())
            }
        } else if str_eq_lit(head, "max") {
            if toks.len() == 2 && is_float_literal(toks[1].as_str()) {
                Command::SetGainMax(toks[1].clone())
            } else {
                Command::Error(self.help.clone())
            }
        } else {
            Command::Error(self.help.clone())
        }
    }
}

} // verus!
