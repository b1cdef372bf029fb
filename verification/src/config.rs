//! Display configuration: which sections are shown, the prefix symbols,
//! and the limits applied to names and identifiers.

use std::borrow::Cow;
use vstd::prelude::*;
use vstd::string::StrSliceExecFns;
use vstd::string::StringExecFns;
use crate::text::same_text;

verus! {

/// Default symbol for JJ repositories.
pub const DEFAULT_JJ_SYMBOL: &'static str = "\u{f418}\u{f15c6} ";

/// Default symbol for Git repositories.
pub const DEFAULT_GIT_SYMBOL: &'static str = "\u{e725} ";

/// The glyph that ends a shortened name.
pub const ELLIPSIS: &'static str = "\u{2026}";

/// The character held by [`ELLIPSIS`].
pub open spec fn ellipsis_char() -> char {
    '\u{2026}'
}

/// Visibility switches of one backend's prompt segment.
#[derive(Debug, Clone, Copy, Default)]
pub struct DisplayConfig {
    pub show_prefix: bool,
    pub show_name: bool,
    pub show_id: bool,
    pub show_status: bool,
    pub show_color: bool,
}

impl DisplayConfig {
    /// The options under which every section is shown, in color.
    pub open spec fn all_visible_spec() -> DisplayConfig {
        DisplayConfig {
            show_prefix: true,
            show_name: true,
            show_id: true,
            show_status: true,
            show_color: true,
        }
    }

    /// Every section shown, in color.
    pub fn all_visible() -> (r: Self)
        ensures
            r == Self::all_visible_spec(),
    {
        DisplayConfig {
            show_prefix: true,
            show_name: true,
            show_id: true,
            show_status: true,
            show_color: true,
        }
    }
}

/// Configuration options.
#[derive(Debug)]
pub struct Config {
    /// Maximum length of a branch or bookmark name, in characters (0 = unlimited).
    pub truncate_name: usize,
    /// Number of characters of the change id or commit hash to display.
    pub id_length: usize,
    /// Symbol prefix for JJ repositories.
    pub jj_symbol: Cow<'static, str>,
    /// Symbol prefix for Git repositories.
    pub git_symbol: Cow<'static, str>,
    /// JJ display options.
    pub jj_display: DisplayConfig,
    /// Git display options.
    pub git_display: DisplayConfig,
}

/// What a [`Config`] holds, as mathematical values.
pub struct ConfigView {
    pub truncate_name: nat,
    pub id_length: nat,
    pub jj_symbol: Seq<char>,
    pub git_symbol: Seq<char>,
    pub jj_display: DisplayConfig,
    pub git_display: DisplayConfig,
}

impl View for Config {
    type V = ConfigView;

    open spec fn view(&self) -> ConfigView {
        ConfigView {
            truncate_name: self.truncate_name as nat,
            id_length: self.id_length as nat,
            jj_symbol: self.jj_symbol@,
            git_symbol: self.git_symbol@,
            jj_display: self.jj_display,
            git_display: self.git_display,
        }
    }
}

/// A copy of a symbol: the same borrowed text, or a copy of the owned one.
fn clone_symbol(symbol: &Cow<'static, str>) -> (r: Cow<'static, str>)
    ensures
        r@ == symbol@,
{
    match symbol {
        Cow::Borrowed(text) => Cow::Borrowed(*text),
        Cow::Owned(text) => Cow::Owned(text.clone()),
    }
}

impl Clone for Config {
    fn clone(&self) -> (r: Self)
        ensures
            r@ == self@,
    {
        Config {
            truncate_name: self.truncate_name,
            id_length: self.id_length,
            jj_symbol: clone_symbol(&self.jj_symbol),
            git_symbol: clone_symbol(&self.git_symbol),
            jj_display: self.jj_display,
            git_display: self.git_display,
        }
    }
}

/// The name `s` as it is displayed under a limit of `max` characters:
/// unchanged when the limit is 0 or not exceeded, otherwise cut to `max`
/// characters of which the last is the ellipsis.
pub open spec fn truncated(s: Seq<char>, max: nat) -> Seq<char> {
    if max == 0 || s.len() <= max {
        s
    } else if max <= 1 {
        seq![ellipsis_char()]
    } else {
        s.take(max - 1).push(ellipsis_char())
    }
}

impl Config {
    /// Shortens `s` to at most `truncate_name` characters, ending in an
    /// ellipsis when anything was cut.
    pub fn truncate<'a>(&self, s: &'a str) -> (r: Cow<'a, str>)
        ensures
            r@ == truncated(s@, self.truncate_name as nat),
    {
        if self.truncate_name == 0 || s.unicode_len() <= self.truncate_name {
            Cow::Borrowed(s)
        } else if self.truncate_name <= 1 {
            proof {
                reveal_strlit("\u{2026}");
                assert(ELLIPSIS@ =~= seq![ellipsis_char()]);
            }
            Cow::Borrowed(ELLIPSIS)
        } else {
            let kept = s.substring_char(0, self.truncate_name - 1);
            let cut = String::from_str(kept).concat(ELLIPSIS);
            proof {
                reveal_strlit("\u{2026}");
                assert(cut@ =~= s@.take(self.truncate_name - 1).push(ellipsis_char()));
            }
            Cow::Owned(cut)
        }
    }
}

/// A limit of 0 leaves every name as it is, and so does a limit that the
/// name does not exceed.
pub proof fn truncated_keeps_short_names(s: Seq<char>, max: nat)
    ensures
        truncated(s, 0) == s,
        max >= s.len() ==> truncated(s, max) == s,
{
}

/// Under a limit of 1, a name of more than one character becomes the
/// ellipsis alone.
pub proof fn truncated_to_one_is_ellipsis(s: Seq<char>)
    requires
        s.len() > 1,
    ensures
        truncated(s, 1) == seq![ellipsis_char()],
{
}

/// Under a limit between 1 and the length of the name, both excluded, the
/// result has exactly as many characters as the limit: the first of the
/// name, one fewer than the limit, and then the ellipsis.
pub proof fn truncated_fills_the_limit(s: Seq<char>, max: nat)
    requires
        1 < max < s.len(),
    ensures
        truncated(s, max).len() == max,
        truncated(s, max).take(max - 1) == s.take(max - 1),
        truncated(s, max).last() == ellipsis_char(),
{
    assert(truncated(s, max).take(max - 1) =~= s.take(max - 1));
}

/// Whether `c` is one of the ten decimal digits.
pub open spec fn is_digit(c: char) -> bool {
    '0' <= c && c <= '9'
}

/// The number that a sequence of decimal digits denotes.
pub open spec fn digits_value(digits: Seq<char>) -> nat
    decreases digits.len(),
{
    if digits.len() == 0 {
        0
    } else {
        digits_value(digits.drop_last()) * 10 + (digits.last() as nat - '0' as nat) as nat
    }
}

/// Whether `digits` holds decimal digits only.
pub open spec fn all_digits(digits: Seq<char>) -> bool {
    forall|i: int| 0 <= i < digits.len() ==> is_digit(#[trigger] digits[i])
}

/// `text` without its leading `+`, if it has one.
pub open spec fn unsigned_part(text: Seq<char>) -> Seq<char> {
    if text.len() > 0 && text[0] == '+' {
        text.skip(1)
    } else {
        text
    }
}

/// The count that `text` denotes: decimal digits, at least one, after an
/// optional `+`, with a value that fits the machine word. Any other text
/// denotes none.
pub open spec fn parsed_count(text: Seq<char>) -> Option<usize> {
    let digits = unsigned_part(text);
    if digits.len() > 0 && all_digits(digits) && digits_value(digits) <= usize::MAX {
        Some(digits_value(digits) as usize)
    } else {
        None
    }
}

/// A longer sequence of digits denotes no smaller number than its start.
proof fn digits_value_grows(digits: Seq<char>, n: int)
    requires
        0 <= n <= digits.len(),
        all_digits(digits),
    ensures
        digits_value(digits.take(n)) <= digits_value(digits),
    decreases digits.len() - n,
{
    if n == digits.len() {
        assert(digits.take(n) =~= digits);
    } else {
        let longer = digits.take(n + 1);
        assert(longer.drop_last() =~= digits.take(n));
        assert(is_digit(digits[n]));
        assert(longer.last() == digits[n]);
        digits_value_grows(digits, n + 1);
    }
}

/// The value of the decimal digit `c`.
fn digit_of(c: char) -> (r: Option<usize>)
    ensures
        r is Some <==> is_digit(c),
        r matches Some(d) ==> d == c as nat - '0' as nat,
{
    if c == '0' {
        Some(0)
    } else if c == '1' {
        Some(1)
    } else if c == '2' {
        Some(2)
    } else if c == '3' {
        Some(3)
    } else if c == '4' {
        Some(4)
    } else if c == '5' {
        Some(5)
    } else if c == '6' {
        Some(6)
    } else if c == '7' {
        Some(7)
    } else if c == '8' {
        Some(8)
    } else if c == '9' {
        Some(9)
    } else {
        None
    }
}

/// Reads a count from its decimal form.
pub fn parse_count(text: &str) -> (r: Option<usize>)
    ensures
        r == parsed_count(text@),
{
    let len = text.unicode_len();
    let start: usize = if len > 0 && text.get_char(0) == '+' { 1 } else { 0 };
    let ghost digits = unsigned_part(text@);
    proof {
        assert(text@.skip(0) =~= text@);
    }
    if start == len {
        return None;
    }
    let mut value: usize = 0;
    let mut i: usize = start;
    while i < len
        invariant
            start <= i <= len,
            len == text@.len(),
            digits == unsigned_part(text@),
            digits == text@.skip(start as int),
            digits.len() > 0,
            all_digits(digits.take(i - start)),
            value == digits_value(digits.take(i - start)),
        decreases len - i,
    {
        let c = text.get_char(i);
        proof {
            assert(digits[i - start] == c);
        }
        let d = match digit_of(c) {
            Some(d) => d,
            None => {
                return None;
            },
        };
        proof {
            let longer = digits.take(i - start + 1);
            assert(longer.drop_last() =~= digits.take(i - start));
            assert(longer.last() == c);
            assert forall|k: int| 0 <= k < longer.len() implies is_digit(#[trigger] longer[k]) by {
                if k < i - start {
                    assert(longer[k] == digits.take(i - start)[k]);
                }
            }
        }
        if value > (usize::MAX - d) / 10 {
            proof {
                if all_digits(digits) {
                    digits_value_grows(digits, i - start + 1);
                }
            }
            return None;
        }
        value = value * 10 + d;
        i = i + 1;
    }
    proof {
        assert(digits.take(len - start) =~= digits);
    }
    Some(value)
}

/// Name of the variable that limits the length of names.
pub const ENV_TRUNCATE_NAME: &'static str = "JJ_STARSHIP_TRUNCATE_NAME";

/// Name of the variable that sets the length of identifiers.
pub const ENV_ID_LENGTH: &'static str = "JJ_STARSHIP_ID_LENGTH";

/// Name of the variable that sets the JJ symbol.
pub const ENV_JJ_SYMBOL: &'static str = "JJ_STARSHIP_JJ_SYMBOL";

/// Name of the variable that sets the Git symbol.
pub const ENV_GIT_SYMBOL: &'static str = "JJ_STARSHIP_GIT_SYMBOL";

/// Start of the names of the variables that hide a JJ section.
pub const ENV_NO_JJ: &'static str = "JJ_STARSHIP_NO_JJ";

/// Start of the names of the variables that hide a Git section.
pub const ENV_NO_GIT: &'static str = "JJ_STARSHIP_NO_GIT";

/// The length of identifiers when nothing sets it.
pub const DEFAULT_ID_LENGTH: usize = 8;

/// The value of the variable `name` in `env`, a list of names with their
/// values: that of the first entry under this name.
pub open spec fn env_value(env: Seq<(String, String)>, name: Seq<char>) -> Option<Seq<char>>
    decreases env.len(),
{
    if env.len() == 0 {
        None
    } else if env[0].0@ == name {
        Some(env[0].1@)
    } else {
        env_value(env.skip(1), name)
    }
}

/// Looks a variable up in a list of names with their values.
pub fn lookup(env: &Vec<(String, String)>, name: &str) -> (r: Option<String>)
    ensures
        r.deep_view() == env_value(env@, name@),
{
    let mut i: usize = 0;
    proof {
        assert(env@.skip(0) =~= env@);
    }
    while i < env.len()
        invariant
            i <= env.len(),
            env_value(env@, name@) == env_value(env@.skip(i as int), name@),
        decreases env.len() - i,
    {
        proof {
            assert(env@.skip(i as int)[0] == env@[i as int]);
            assert(env@.skip(i as int).skip(1) =~= env@.skip(i + 1));
        }
        if same_text(env[i].0.as_str(), name) {
            return Some(env[i].1.clone());
        }
        i = i + 1;
    }
    None
}

/// The count that is in force: the one given explicitly, else the one
/// that the variable denotes, else the default.
pub open spec fn resolved_count(given: Option<usize>, variable: Option<Seq<char>>, default: usize)
    -> usize {
    match given {
        Some(count) => count,
        None => match variable {
            Some(text) => match parsed_count(text) {
                Some(count) => count,
                None => default,
            },
            None => default,
        },
    }
}

/// The symbol that is in force: none when symbols are switched off, else
/// the one given explicitly, else the variable's value, else the default.
pub open spec fn resolved_symbol(
    given: Option<Seq<char>>,
    variable: Option<Seq<char>>,
    default: Seq<char>,
    no_symbol: bool,
) -> Seq<char> {
    if no_symbol {
        Seq::empty()
    } else {
        match given {
            Some(symbol) => symbol,
            None => match variable {
                Some(symbol) => symbol,
                None => default,
            },
        }
    }
}

/// Whether a section is shown: no flag hides it and the variable `name`
/// is not set, whatever its value would be.
pub open spec fn shown(hidden: bool, env: Seq<(String, String)>, name: Seq<char>) -> bool {
    !hidden && env_value(env, name) is None
}

/// Switches given on the command line that hide sections of one backend.
#[derive(Debug, Clone, Copy, Default)]
pub struct DisplayFlags {
    pub no_prefix: bool,
    pub no_name: bool,
    pub no_id: bool,
    pub no_status: bool,
    pub no_color: bool,
}

/// The display options that flags and environment leave in force, the
/// variables being named `env_prefix` followed by the section.
pub open spec fn displayed(flags: DisplayFlags, env_prefix: Seq<char>, env: Seq<(String, String)>)
    -> DisplayConfig {
    DisplayConfig {
        show_prefix: shown(flags.no_prefix, env, env_prefix + "_PREFIX"@),
        show_name: shown(flags.no_name, env, env_prefix + "_NAME"@),
        show_id: shown(flags.no_id, env, env_prefix + "_ID"@),
        show_status: shown(flags.no_status, env, env_prefix + "_STATUS"@),
        show_color: shown(flags.no_color, env, env_prefix + "_COLOR"@),
    }
}

/// Whether a section is shown, given its flag and its variable.
fn is_shown(hidden: bool, env_prefix: &str, section: &str, env: &Vec<(String, String)>) -> (r: bool)
    ensures
        r == shown(hidden, env@, env_prefix@ + section@),
{
    let name = String::from_str(env_prefix).concat(section);
    let value = lookup(env, name.as_str());
    !hidden && value.is_none()
}

impl DisplayFlags {
    /// Combines the flags with the environment: a section is hidden by its
    /// flag, or by its variable being set to anything at all.
    pub fn into_config(self, env_prefix: &str, env: &Vec<(String, String)>) -> (r: DisplayConfig)
        ensures
            r == displayed(self, env_prefix@, env@),
    {
        DisplayConfig {
            show_prefix: is_shown(self.no_prefix, env_prefix, "_PREFIX", env),
            show_name: is_shown(self.no_name, env_prefix, "_NAME", env),
            show_id: is_shown(self.no_id, env_prefix, "_ID", env),
            show_status: is_shown(self.no_status, env_prefix, "_STATUS", env),
            show_color: is_shown(self.no_color, env_prefix, "_COLOR", env),
        }
    }
}

/// Resolves one count from its flag, its variable and its default.
fn resolve_count(given: Option<usize>, variable: Option<String>, default: usize) -> (r: usize)
    ensures
        r == resolved_count(given, variable.deep_view(), default),
{
    match given {
        Some(count) => count,
        None => match variable {
            Some(text) => match parse_count(text.as_str()) {
                Some(count) => count,
                None => default,
            },
            None => default,
        },
    }
}

/// Resolves one symbol from its flag, its variable and its default.
fn resolve_symbol(
    given: Option<String>,
    variable: Option<String>,
    default: &'static str,
    no_symbol: bool,
) -> (r: Cow<'static, str>)
    ensures
        r@ == resolved_symbol(given.deep_view(), variable.deep_view(), default@, no_symbol),
{
    if no_symbol {
        proof {
            reveal_strlit("");
            assert(""@ =~= Seq::<char>::empty());
        }
        Cow::Borrowed("")
    } else {
        match given {
            Some(symbol) => Cow::Owned(symbol),
            None => match variable {
                Some(symbol) => Cow::Owned(symbol),
                None => Cow::Borrowed(default),
            },
        }
    }
}

impl Config {
    /// Builds the configuration from command-line values and the
    /// environment `env`, a list of variable names with their values.
    /// A command-line value wins over a variable, a variable over the
    /// default.
    pub fn new(
        truncate_name: Option<usize>,
        id_length: Option<usize>,
        jj_symbol: Option<String>,
        git_symbol: Option<String>,
        no_symbol: bool,
        jj_flags: DisplayFlags,
        git_flags: DisplayFlags,
        env: &Vec<(String, String)>,
    ) -> (r: Self)
        ensures
            r@ == (ConfigView {
                truncate_name: resolved_count(
                    truncate_name,
                    env_value(env@, ENV_TRUNCATE_NAME@),
                    0,
                ) as nat,
                id_length: resolved_count(
                    id_length,
                    env_value(env@, ENV_ID_LENGTH@),
                    DEFAULT_ID_LENGTH,
                ) as nat,
                jj_symbol: resolved_symbol(
                    jj_symbol.deep_view(),
                    env_value(env@, ENV_JJ_SYMBOL@),
                    DEFAULT_JJ_SYMBOL@,
                    no_symbol,
                ),
                git_symbol: resolved_symbol(
                    git_symbol.deep_view(),
                    env_value(env@, ENV_GIT_SYMBOL@),
                    DEFAULT_GIT_SYMBOL@,
                    no_symbol,
                ),
                jj_display: displayed(jj_flags, ENV_NO_JJ@, env@),
                git_display: displayed(git_flags, ENV_NO_GIT@, env@),
            }),
    {
        Config {
            truncate_name: resolve_count(truncate_name, lookup(env, ENV_TRUNCATE_NAME), 0),
            id_length: resolve_count(id_length, lookup(env, ENV_ID_LENGTH), DEFAULT_ID_LENGTH),
            jj_symbol: resolve_symbol(
                jj_symbol,
                lookup(env, ENV_JJ_SYMBOL),
                DEFAULT_JJ_SYMBOL,
                no_symbol,
            ),
            git_symbol: resolve_symbol(
                git_symbol,
                lookup(env, ENV_GIT_SYMBOL),
                DEFAULT_GIT_SYMBOL,
                no_symbol,
            ),
            jj_display: jj_flags.into_config(ENV_NO_JJ, env),
            git_display: git_flags.into_config(ENV_NO_GIT, env),
        }
    }
}

impl Default for Config {
    /// No limit on names, identifiers of eight characters, the default
    /// symbols, everything shown.
    fn default() -> (r: Self)
        ensures
            r@.truncate_name == 0,
            r@.id_length == DEFAULT_ID_LENGTH,
            r@.jj_symbol == DEFAULT_JJ_SYMBOL@,
            r@.git_symbol == DEFAULT_GIT_SYMBOL@,
            r@.jj_display == DisplayConfig::all_visible_spec(),
            r@.git_display == DisplayConfig::all_visible_spec(),
    {
        Config {
            truncate_name: 0,
            id_length: DEFAULT_ID_LENGTH,
            jj_symbol: Cow::Borrowed(DEFAULT_JJ_SYMBOL),
            git_symbol: Cow::Borrowed(DEFAULT_GIT_SYMBOL),
            jj_display: DisplayConfig::all_visible(),
            git_display: DisplayConfig::all_visible(),
        }
    }
}

} // verus!
