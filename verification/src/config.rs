//! The updater's configuration, as the environment variables give it, and
//! the search for a `.env` file that may supply them.
use vstd::prelude::*;

use crate::text::chars_of;

verus! {

/// The token used when `CLOUDFLARE_API_TOKEN` is not set.
pub const DEFAULT_TOKEN: &'static str = "<your cloudflare token>";

/// The domain used when `DOMAIN` is not set.
pub const DEFAULT_DOMAIN: &'static str = "acme.com";

/// The record label used when `RECORD` is not set.
pub const DEFAULT_RECORD: &'static str = "www";

/// The seconds between checks when `CHECK_INTERVAL_SEC` is not set or not a number.
pub const DEFAULT_CHECK_INTERVAL_SEC: u64 = 900;

/// The settings of the updater.
#[derive(Debug, Clone, PartialEq, Eq)]
pub struct Config {
    pub cloudflare_api_token: String,
    pub domain: String,
    pub record: String,
    pub debug: bool,
    pub check_interval_sec: u64,
}

/// The values of the environment variables that the configuration is read
/// from: `None` where a variable is not set (or does not hold Unicode).
#[derive(Debug, Clone, PartialEq, Eq, Default)]
pub struct EnvVars {
    pub cloudflare_api_token: Option<String>,
    pub domain: Option<String>,
    pub record: Option<String>,
    pub debug: Option<String>,
    pub check_interval_sec: Option<String>,
}

/// Whether `c` is an ASCII decimal digit.
pub open spec fn is_digit(c: char) -> bool {
    '0' <= c <= '9'
}

/// The number that a string of decimal digits denotes.
pub open spec fn decimal_value(s: Seq<char>) -> int
    decreases s.len(),
{
    if s.len() == 0 {
        0
    } else {
        decimal_value(s.drop_last()) * 10 + (s.last() as int - '0' as int)
    }
}

/// The digits of a decimal number text: the text without one leading `+`.
pub open spec fn unsigned_digits(s: Seq<char>) -> Seq<char> {
    if s.len() > 0 && s[0] == '+' {
        s.drop_first()
    } else {
        s
    }
}

/// What `str::parse::<u64>` gives: an optional `+`, then one or more
/// decimal digits whose value fits in a `u64`; anything else is refused.
pub open spec fn parse_u64_spec(s: Seq<char>) -> Option<u64> {
    let d = unsigned_digits(s);
    if d.len() > 0 && (forall|i: int| 0 <= i < d.len() ==> is_digit(d[i])) && decimal_value(d)
        <= u64::MAX {
        Some(decimal_value(d) as u64)
    } else {
        None
    }
}

proof fn lemma_decimal_value_nonneg(s: Seq<char>)
    requires
        forall|i: int| 0 <= i < s.len() ==> is_digit(s[i]),
    ensures
        decimal_value(s) >= 0,
    decreases s.len(),
{
    if s.len() > 0 {
        lemma_decimal_value_nonneg(s.drop_last());
    }
}

proof fn lemma_decimal_prefix_le(s: Seq<char>, k: int)
    requires
        0 <= k <= s.len(),
        forall|i: int| 0 <= i < s.len() ==> is_digit(s[i]),
    ensures
        decimal_value(s.take(k)) <= decimal_value(s),
    decreases s.len() - k,
{
    if k < s.len() {
        lemma_decimal_prefix_le(s, k + 1);
        assert(s.take(k + 1).drop_last() =~= s.take(k));
        lemma_decimal_value_nonneg(s.take(k));
    } else {
        assert(s.take(k) =~= s);
    }
}

/// Parses a decimal `u64` the way `str::parse::<u64>` does.
pub fn parse_u64(s: &str) -> (res: Option<u64>)
    ensures
        res == parse_u64_spec(s@),
{
    let v = chars_of(s);
    let n = v.len();
    let start: usize = if n > 0 && v[0] == '+' {
        1
    } else {
        0
    };
    let ghost d = unsigned_digits(s@);
    assert(d =~= v@.subrange(start as int, n as int));
    if start == n {
        return None;
    }
    let mut acc: u64 = 0;
    let mut i: usize = start;
    while i < n
        invariant
            v@ == s@,
            n == v@.len(),
            start <= i <= n,
            start < n,
            d == v@.subrange(start as int, n as int),
            d == unsigned_digits(s@),
            forall|k: int| 0 <= k < i - start ==> is_digit(d[k]),
            acc == decimal_value(d.take(i - start)),
        decreases n - i,
    {
        let c = v[i];
        if !('0' <= c && c <= '9') {
            assert(d[i - start] == c);
            return None;
        }
        let digit = (c as u32 - '0' as u32) as u64;
        assert(d.take(i - start + 1).drop_last() =~= d.take(i - start));
        assert(d.take(i - start + 1).last() == c);
        if acc > (u64::MAX - digit) / 10 {
            proof {
                assert(acc * 10 + digit > u64::MAX);
                if forall|k: int| 0 <= k < d.len() ==> is_digit(d[k]) {
                    lemma_decimal_prefix_le(d, i - start + 1);
                }
            }
            return None;
        }
        acc = acc * 10 + digit;
        i = i + 1;
    }
    assert(d.take(n - start) =~= d);
    Some(acc)
}

/// The value of a setting: the variable's text when it is set, else `default`.
pub open spec fn text_or(value: Option<String>, default: Seq<char>) -> Seq<char> {
    match value {
        Some(v) => v@,
        None => default,
    }
}

/// The value of a flag: on exactly when the variable holds the text `true`.
pub open spec fn flag_or(value: Option<String>, default: bool) -> bool {
    match value {
        Some(v) => v@ == "true"@,
        None => default,
    }
}

/// The value of a number setting: the variable's number when it is set and
/// parses, else `default`.
pub open spec fn number_or(value: Option<String>, default: u64) -> u64 {
    match value {
        Some(v) => match parse_u64_spec(v@) {
            Some(n) => n,
            None => default,
        },
        None => default,
    }
}

fn env_or(value: Option<String>, default: &str) -> (res: String)
    ensures
        res@ == text_or(value, default@),
{
    match value {
        Some(v) => v,
        None => String::from_str(default),
    }
}

/// Only the exact text `true` turns a flag on.
fn env_bool(value: Option<String>, default: bool) -> (res: bool)
    ensures
        res == flag_or(value, default),
{
    match value {
        Some(v) => crate::text::str_eq(v.as_str(), "true"),
        None => default,
    }
}

fn env_u64(value: Option<String>, default: u64) -> (res: u64)
    ensures
        res == number_or(value, default),
{
    match value {
        Some(v) => match parse_u64(v.as_str()) {
            Some(n) => n,
            None => default,
        },
        None => default,
    }
}

impl Config {
    /// The configuration that the given environment values describe.
    pub fn from_env_vars(vars: EnvVars) -> (cfg: Config)
        ensures
            cfg.cloudflare_api_token@ == text_or(vars.cloudflare_api_token, DEFAULT_TOKEN@),
            cfg.domain@ == text_or(vars.domain, DEFAULT_DOMAIN@),
            cfg.record@ == text_or(vars.record, DEFAULT_RECORD@),
            cfg.debug == flag_or(vars.debug, false),
            cfg.check_interval_sec == number_or(vars.check_interval_sec, DEFAULT_CHECK_INTERVAL_SEC),
    {
        Config {
            cloudflare_api_token: env_or(vars.cloudflare_api_token, DEFAULT_TOKEN),
            domain: env_or(vars.domain, DEFAULT_DOMAIN),
            record: env_or(vars.record, DEFAULT_RECORD),
            debug: env_bool(vars.debug, false),
            check_interval_sec: env_u64(vars.check_interval_sec, DEFAULT_CHECK_INTERVAL_SEC),
        }
    }
}

/// Each setting takes the variable's value when it is set: a text setting its
/// text as it is, the interval the number that its text reads as (whatever
/// that number is), and the debug flag is on exactly for the text `true`.
/// The default stands only where the variable is unset, or, for the
/// interval, where its text is not a number.
pub proof fn law_settings_follow_variables(v: String, default_text: Seq<char>, default_num: u64, default_flag: bool)
    ensures
        text_or(Some(v), default_text) == v@,
        text_or(None, default_text) == default_text,
        parse_u64_spec(v@) matches Some(n) ==> number_or(Some(v), default_num) == n,
        parse_u64_spec(v@) is None ==> number_or(Some(v), default_num) == default_num,
        number_or(None, default_num) == default_num,
        flag_or(Some(v), default_flag) == (v@ == seq!['t', 'r', 'u', 'e']),
        flag_or(None, default_flag) == default_flag,
{
    reveal_strlit("true");
    assert("true"@ =~= seq!['t', 'r', 'u', 'e']);
}

proof fn lemma_unsigned_digits_push(s: Seq<char>, c: char)
    requires
        s.len() > 0,
    ensures
        unsigned_digits(s.push(c)) == unsigned_digits(s).push(c),
{
    if s[0] == '+' {
        assert(s.push(c).drop_first() =~= s.drop_first().push(c));
    }
}

/// How numbers are read, character by character: nothing and a lone `+` are
/// not numbers; a digit alone is its value; appending a digit to a number n
/// gives `10 * n` plus that digit while this fits in a `u64`, and nothing
/// once it does not; appending anything other than a digit spoils the text;
/// a text that is not a number (other than a lone `+`) stays one whatever
/// digit follows; and one leading `+` changes nothing.
pub proof fn law_parse_u64_reads_decimal(s: Seq<char>, c: char)
    ensures
        parse_u64_spec(Seq::empty()) is None,
        parse_u64_spec(seq!['+']) is None,
        '0' <= c <= '9' ==> parse_u64_spec(seq![c]) == Some((c as int - '0' as int) as u64),
        !('0' <= c <= '9') ==> parse_u64_spec(s.push(c)) is None,
        '0' <= c <= '9' && parse_u64_spec(s) is Some ==> parse_u64_spec(s.push(c)) == ({
            let v = parse_u64_spec(s)->0 * 10 + (c as int - '0' as int);
            if v <= u64::MAX {
                Some(v as u64)
            } else {
                None
            }
        }),
        '0' <= c <= '9' && parse_u64_spec(s) is None && s.len() > 0 && s != seq!['+']
            ==> parse_u64_spec(s.push(c)) is None,
        s.len() > 0 && s[0] != '+' ==> parse_u64_spec(seq!['+'] + s) == parse_u64_spec(s),
{
    assert(unsigned_digits(Seq::<char>::empty()) =~= Seq::<char>::empty());
    assert(unsigned_digits(seq!['+']) =~= Seq::<char>::empty());
    assert(seq![c].drop_last() =~= Seq::<char>::empty());
    assert(unsigned_digits(seq![c]) == seq![c] || c == '+');
    if s.len() > 0 {
        lemma_unsigned_digits_push(s, c);
        let d = unsigned_digits(s);
        let d2 = d.push(c);
        if s[0] == '+' && s.len() == 1 {
            assert(s =~= seq!['+']);
        }
        if s != seq!['+'] {
            assert(d.len() > 0);
        }
        assert(d2.drop_last() =~= d);
        assert(d2.last() == c);
        assert(d2[d2.len() - 1] == c);
        if forall|i: int| 0 <= i < d.len() ==> is_digit(d[i]) {
            lemma_decimal_value_nonneg(d);
            if '0' <= c <= '9' {
                assert(forall|i: int| 0 <= i < d2.len() ==> is_digit(d2[i])) by {
                    assert forall|i: int| 0 <= i < d2.len() implies is_digit(d2[i]) by {
                        if i < d.len() {
                            assert(d2[i] == d[i]);
                        }
                    }
                }
            }
        } else {
            let k = choose|i: int| 0 <= i < d.len() && !is_digit(d[i]);
            assert(d2[k] == d[k]);
        }
    } else {
        assert(s.push(c) =~= seq![c]);
    }
    if s.len() > 0 && s[0] != '+' {
        assert((seq!['+'] + s).drop_first() =~= s);
        assert((seq!['+'] + s)[0] == '+');
    }
}

/// How many parents of the starting directory are searched for a `.env`
/// file, besides the starting directory itself.
pub const DOTENV_MAX_PARENTS: u32 = 5;

/// The two files the search looks for, in each directory in this order.
#[derive(Debug, Clone, Copy, PartialEq, Eq)]
pub enum DotenvFile {
    /// `.env`
    Env,
    /// `.env.example`
    EnvExample,
}

impl DotenvFile {
    /// The file's name.
    pub open spec fn name_spec(self) -> Seq<char> {
        match self {
            DotenvFile::Env => ".env"@,
            DotenvFile::EnvExample => ".env.example"@,
        }
    }

    /// The file's name: `.env` or `.env.example`.
    pub fn file_name(self) -> (name: &'static str)
        ensures
            name@ == self.name_spec(),
    {
        match self {
            DotenvFile::Env => ".env",
            DotenvFile::EnvExample => ".env.example",
        }
    }
}

/// Where the search for a `.env` file stands. The number is how many levels
/// the current directory lies above the starting one (0 for the starting one).
#[derive(Debug, Clone, Copy, PartialEq, Eq)]
pub enum DotenvSearch {
    /// Waiting to learn whether `.env` exists in the current directory.
    CheckEnv(u32),
    /// Waiting to learn whether `.env.example` exists in the current directory.
    CheckExample(u32),
    /// Waiting to learn whether the current directory has a parent.
    Ascend(u32),
    /// The search is over.
    Done,
}

/// What the search asks its driver to do next.
#[derive(Debug, Clone, Copy, PartialEq, Eq)]
pub enum DotenvAction {
    /// Report whether this file exists in the current directory.
    Check(DotenvFile),
    /// Load this file from the current directory; the search is over.
    Load(DotenvFile),
    /// Move to the parent directory and report whether there was one.
    GoUp,
    /// No file is to be loaded; the search is over.
    GiveUp,
}

/// The search before its first question: it checks `.env` in the starting directory.
pub open spec fn dotenv_search_begin() -> (DotenvSearch, DotenvAction) {
    (DotenvSearch::CheckEnv(0), DotenvAction::Check(DotenvFile::Env))
}

impl DotenvSearch {
    /// The state lies within the searched levels.
    pub open spec fn well_formed(self) -> bool {
        match self {
            DotenvSearch::CheckEnv(l) => l <= DOTENV_MAX_PARENTS,
            DotenvSearch::CheckExample(l) => l <= DOTENV_MAX_PARENTS,
            DotenvSearch::Ascend(l) => l <= DOTENV_MAX_PARENTS,
            DotenvSearch::Done => true,
        }
    }

    /// The next state and action, given the driver's answer to the last action.
    pub open spec fn next_spec(self, answer: bool) -> (DotenvSearch, DotenvAction) {
        match self {
            DotenvSearch::CheckEnv(l) => if answer {
                (DotenvSearch::Done, DotenvAction::Load(DotenvFile::Env))
            } else {
                (DotenvSearch::CheckExample(l), DotenvAction::Check(DotenvFile::EnvExample))
            },
            DotenvSearch::CheckExample(l) => if answer {
                (DotenvSearch::Done, DotenvAction::Load(DotenvFile::EnvExample))
            } else {
                (DotenvSearch::Ascend(l), DotenvAction::GoUp)
            },
            DotenvSearch::Ascend(l) => if answer && l < DOTENV_MAX_PARENTS {
                (DotenvSearch::CheckEnv((l + 1) as u32), DotenvAction::Check(DotenvFile::Env))
            } else {
                (DotenvSearch::Done, DotenvAction::GiveUp)
            },
            DotenvSearch::Done => (DotenvSearch::Done, DotenvAction::GiveUp),
        }
    }

    /// An upper bound on the questions the search may still ask.
    pub open spec fn questions_left(self) -> nat {
        match self {
            DotenvSearch::CheckEnv(l) => (3 * (DOTENV_MAX_PARENTS + 1 - l)) as nat,
            DotenvSearch::CheckExample(l) => (3 * (DOTENV_MAX_PARENTS + 1 - l) - 1) as nat,
            DotenvSearch::Ascend(l) => (3 * (DOTENV_MAX_PARENTS + 1 - l) - 2) as nat,
            DotenvSearch::Done => 0,
        }
    }

    /// The search's first state and action.
    pub fn begin() -> (start: (DotenvSearch, DotenvAction))
        ensures
            start == dotenv_search_begin(),
            start.0.well_formed(),
    {
        (DotenvSearch::CheckEnv(0), DotenvAction::Check(DotenvFile::Env))
    }

    /// Takes the driver's answer to the last action (whether the file exists,
    /// or whether there was a parent directory) and says what to do next.
    pub fn next(self, answer: bool) -> (step: (DotenvSearch, DotenvAction))
        ensures
            step == self.next_spec(answer),
            self.well_formed() ==> step.0.well_formed(),
    {
        match self {
            DotenvSearch::CheckEnv(l) => if answer {
                (DotenvSearch::Done, DotenvAction::Load(DotenvFile::Env))
            } else {
                (DotenvSearch::CheckExample(l), DotenvAction::Check(DotenvFile::EnvExample))
            },
            DotenvSearch::CheckExample(l) => if answer {
                (DotenvSearch::Done, DotenvAction::Load(DotenvFile::EnvExample))
            } else {
                (DotenvSearch::Ascend(l), DotenvAction::GoUp)
            },
            DotenvSearch::Ascend(l) => if answer && l < DOTENV_MAX_PARENTS {
                (DotenvSearch::CheckEnv(l + 1), DotenvAction::Check(DotenvFile::Env))
            } else {
                (DotenvSearch::Done, DotenvAction::GiveUp)
            },
            DotenvSearch::Done => (DotenvSearch::Done, DotenvAction::GiveUp),
        }
    }
}

/// The search looks at the starting directory and at most `DOTENV_MAX_PARENTS`
/// parents, and it does reach the next parent while one exists and no file
/// was found; every answer moves an unfinished search closer to its end, so
/// it asks at most `3 * (DOTENV_MAX_PARENTS + 1)` questions, and once
/// finished it stays finished.
pub proof fn law_dotenv_search_ends(s: DotenvSearch, answer: bool)
    requires
        s.well_formed(),
    ensures
        dotenv_search_begin().0.well_formed(),
        s.next_spec(answer).0.well_formed(),
        s != DotenvSearch::Done ==> s.next_spec(answer).0.questions_left() < s.questions_left(),
        s == DotenvSearch::Done ==> s.next_spec(answer) == (DotenvSearch::Done, DotenvAction::GiveUp),
        dotenv_search_begin().0.questions_left() == 3 * (DOTENV_MAX_PARENTS + 1),
        forall|l: u32|
            #![trigger DotenvSearch::Ascend(l).next_spec(true)]
            l < DOTENV_MAX_PARENTS ==> DotenvSearch::Ascend(l).next_spec(true) == (
                DotenvSearch::CheckEnv((l + 1) as u32),
                DotenvAction::Check(DotenvFile::Env),
            ),
{
}

/// The search starts by asking for `.env` in the starting directory. At
/// every searched level, learning that the file just asked about exists
/// ends the search by loading that file; learning that `.env` is missing
/// moves on to `.env.example` in the same directory; learning that both are
/// missing moves up; a missing parent ends the search without loading, and so
/// does reaching the top searched level.
pub proof fn law_dotenv_found_file_is_loaded(l: u32)
    requires
        l <= DOTENV_MAX_PARENTS,
    ensures
        dotenv_search_begin() == (DotenvSearch::CheckEnv(0), DotenvAction::Check(DotenvFile::Env)),
        DotenvSearch::CheckEnv(l).next_spec(true) == (
            DotenvSearch::Done,
            DotenvAction::Load(DotenvFile::Env),
        ),
        DotenvSearch::CheckExample(l).next_spec(true) == (
            DotenvSearch::Done,
            DotenvAction::Load(DotenvFile::EnvExample),
        ),
        DotenvSearch::CheckEnv(l).next_spec(false) == (
            DotenvSearch::CheckExample(l),
            DotenvAction::Check(DotenvFile::EnvExample),
        ),
        DotenvSearch::CheckExample(l).next_spec(false) == (
            DotenvSearch::Ascend(l),
            DotenvAction::GoUp,
        ),
        DotenvSearch::Ascend(l).next_spec(false) == (DotenvSearch::Done, DotenvAction::GiveUp),
        l < DOTENV_MAX_PARENTS ==> DotenvSearch::Ascend(l).next_spec(true) == (
            DotenvSearch::CheckEnv((l + 1) as u32),
            DotenvAction::Check(DotenvFile::Env),
        ),
        DotenvSearch::Ascend(DOTENV_MAX_PARENTS).next_spec(true) == (
            DotenvSearch::Done,
            DotenvAction::GiveUp,
        ),
{
}

/// The search loads a file only right after learning that this very file
/// exists in the current directory; it reaches `.env.example` in a directory
/// only after learning that `.env` is not there.
pub proof fn law_dotenv_loads_only_found_files(s: DotenvSearch, answer: bool, f: DotenvFile)
    requires
        s.next_spec(answer).1 == DotenvAction::Load(f),
    ensures
        answer,
        f == DotenvFile::Env ==> s is CheckEnv,
        f == DotenvFile::EnvExample ==> s is CheckExample,
        forall|l: u32, a: bool|
            #![trigger DotenvSearch::CheckEnv(l).next_spec(a)]
            DotenvSearch::CheckEnv(l).next_spec(a).0 is CheckExample ==> !a,
{
}

} // verus!
