//! Rendering of a repository status as one line of prompt text.

use crate::color::{BLUE, GREEN, PURPLE, RED, RESET};
use crate::config::{truncated, Config, ConfigView, DisplayConfig};
use crate::git::{GitInfo, GitStatus};
use crate::jj::{JjInfo, JjStatus};
use crate::text::same_text;
use std::borrow::Cow;
use vstd::prelude::*;
use vstd::string::StringExecFns;

verus! {

/// A segment as it is printed: between the color and the reset sequence
/// when color is shown, bare otherwise.
pub open spec fn segment(text: Seq<char>, color: Seq<char>, show_color: bool) -> Seq<char> {
    if show_color {
        color + text + RESET@
    } else {
        text
    }
}

/// Wraps `text` in `color` and the reset sequence, or leaves it bare.
pub fn format_segment(text: &str, color: &str, show_color: bool) -> (r: String)
    ensures
        r@ == segment(text@, color@, show_color),
{
    if show_color {
        String::from_str(color).concat(text).concat(RESET)
    } else {
        String::from_str(text)
    }
}

/// The decimal digit `d`.
pub open spec fn digit(d: nat) -> char
    recommends
        d < 10,
{
    if d == 0 {
        '0'
    } else if d == 1 {
        '1'
    } else if d == 2 {
        '2'
    } else if d == 3 {
        '3'
    } else if d == 4 {
        '4'
    } else if d == 5 {
        '5'
    } else if d == 6 {
        '6'
    } else if d == 7 {
        '7'
    } else if d == 8 {
        '8'
    } else {
        '9'
    }
}

/// The decimal numeral of `n`, without leading zeros.
pub open spec fn decimal(n: nat) -> Seq<char>
    decreases n,
{
    if n < 10 {
        seq![digit(n)]
    } else {
        decimal(n / 10).push(digit(n % 10))
    }
}

/// The one-character string of a decimal digit.
fn digit_str(d: usize) -> (r: &'static str)
    requires
        d < 10,
    ensures
        r@ == seq![digit(d as nat)],
{
    let r = if d == 0 {
        "0"
    } else if d == 1 {
        "1"
    } else if d == 2 {
        "2"
    } else if d == 3 {
        "3"
    } else if d == 4 {
        "4"
    } else if d == 5 {
        "5"
    } else if d == 6 {
        "6"
    } else if d == 7 {
        "7"
    } else if d == 8 {
        "8"
    } else {
        "9"
    };
    proof {
        reveal_strlit("0");
        reveal_strlit("1");
        reveal_strlit("2");
        reveal_strlit("3");
        reveal_strlit("4");
        reveal_strlit("5");
        reveal_strlit("6");
        reveal_strlit("7");
        reveal_strlit("8");
        reveal_strlit("9");
        assert(r@ =~= seq![digit(d as nat)]);
    }
    r
}

/// Appends the decimal numeral of `n` to `out`.
pub fn push_decimal(out: &mut String, n: usize)
    ensures
        final(out)@ == old(out)@ + decimal(n as nat),
    decreases n,
{
    if n >= 10 {
        push_decimal(out, n / 10);
    }
    out.append(digit_str(n % 10));
    proof {
        if n >= 10 {
            assert(final(out)@ =~= old(out)@ + decimal(n as nat));
        } else {
            assert(final(out)@ =~= old(out)@ + decimal(n as nat));
        }
    }
}

/// `out` followed by `section`, with one space between them unless `out`
/// is empty.
pub open spec fn joined(out: Seq<char>, section: Seq<char>) -> Seq<char> {
    if out.len() == 0 {
        section
    } else {
        out + " "@ + section
    }
}

/// The `on <symbol>` prefix, or nothing when it is hidden.
pub open spec fn prefix_section(symbol: Seq<char>, display: DisplayConfig) -> Seq<char> {
    if display.show_prefix {
        "on "@ + segment(symbol, BLUE@, display.show_color)
    } else {
        Seq::empty()
    }
}

/// The name, or nothing when it is hidden.
pub open spec fn name_section(name: Seq<char>, display: DisplayConfig) -> Seq<char> {
    if display.show_name {
        segment(name, PURPLE@, display.show_color)
    } else {
        Seq::empty()
    }
}

/// The identifier in round brackets.
pub open spec fn id_section(id: Seq<char>, display: DisplayConfig) -> Seq<char> {
    segment("("@ + id + ")"@, GREEN@, display.show_color)
}

/// The status flags in square brackets.
pub open spec fn status_section(flags: Seq<char>, display: DisplayConfig) -> Seq<char> {
    segment("["@ + flags + "]"@, RED@, display.show_color)
}

/// `flag` when `present`, nothing otherwise.
pub open spec fn flag_if(present: bool, flag: Seq<char>) -> Seq<char> {
    if present {
        flag
    } else {
        Seq::empty()
    }
}

/// `text` with the status section joined to it, when status is shown and
/// there is a flag to show.
pub open spec fn with_status(text: Seq<char>, flags: Seq<char>, display: DisplayConfig) -> Seq<
    char,
> {
    if display.show_status && flags.len() > 0 {
        joined(text, status_section(flags, display))
    } else {
        text
    }
}

/// The name under which a JJ working copy is shown: its bookmark, cut to
/// the configured length, or else its change id as it is.
pub open spec fn jj_name(info: JjStatus, config: ConfigView) -> Seq<char> {
    match info.bookmark {
        Some(bookmark) => truncated(bookmark, config.truncate_name),
        None => info.change_id,
    }
}

/// Whether the identifier is printed for a JJ working copy: it is shown,
/// and the name does not already say the same.
pub open spec fn jj_shows_id(info: JjStatus, config: ConfigView) -> bool {
    config.jj_display.show_id && jj_name(info, config) != info.change_id
}

/// The flags of a JJ working copy, in their fixed order: conflict,
/// divergent, empty description, bookmark ahead of its remote.
pub open spec fn jj_flags(info: JjStatus) -> Seq<char> {
    flag_if(info.conflict, "!"@) + flag_if(info.divergent, "\u{21d4}"@) + flag_if(
        info.empty_desc,
        "?"@,
    ) + flag_if(info.has_remote && !info.is_synced, "\u{21e1}"@)
}

/// The prompt text of a JJ working copy.
pub open spec fn jj_text(info: JjStatus, config: ConfigView) -> Seq<char> {
    let display = config.jj_display;
    let head = prefix_section(config.jj_symbol, display) + name_section(
        jj_name(info, config),
        display,
    );
    let body = if jj_shows_id(info, config) {
        joined(head, id_section(info.change_id, display))
    } else {
        head
    };
    with_status(body, jj_flags(info), display)
}

/// The string that a `Cow` stands for.
fn cow_str<'a>(c: &'a Cow<'a, str>) -> (r: &'a str)
    ensures
        r@ == c@,
{
    match c {
        Cow::Borrowed(b) => b,
        Cow::Owned(o) => o.as_str(),
    }
}

/// Appends `section` to `out`, after a space unless `out` is empty.
fn push_joined(out: &mut String, section: &str)
    ensures
        final(out)@ == joined(old(out)@, section@),
{
    if !out.as_str().is_empty() {
        out.append(" ");
    }
    out.append(section);
    proof {
        assert(final(out)@ =~= joined(old(out)@, section@));
    }
}

/// Appends the `on <symbol>` prefix to `out`, when it is shown.
fn push_prefix(out: &mut String, symbol: &str, display: &DisplayConfig)
    ensures
        final(out)@ == old(out)@ + prefix_section(symbol@, *display),
{
    if display.show_prefix {
        out.append("on ");
        let colored = format_segment(symbol, BLUE, display.show_color);
        out.append(colored.as_str());
    }
    proof {
        assert(final(out)@ =~= old(out)@ + prefix_section(symbol@, *display));
    }
}

/// Appends the status section to `out`, when it is shown and `flags` is
/// not empty.
fn push_status(out: &mut String, flags: &str, display: &DisplayConfig)
    ensures
        final(out)@ == with_status(old(out)@, flags@, *display),
{
    if display.show_status && !flags.is_empty() {
        let bracketed = String::from_str("[").concat(flags).concat("]");
        let colored = format_segment(bracketed.as_str(), RED, display.show_color);
        push_joined(out, colored.as_str());
    }
}

/// Appends the identifier section to `out`.
fn push_id(out: &mut String, id: &str, display: &DisplayConfig)
    ensures
        final(out)@ == joined(old(out)@, id_section(id@, *display)),
{
    let bracketed = String::from_str("(").concat(id).concat(")");
    let colored = format_segment(bracketed.as_str(), GREEN, display.show_color);
    push_joined(out, colored.as_str());
}

/// Formats JJ info as prompt text, after the pattern
/// `on {symbol}{name} ({id}) [{status}]`.
pub fn format_jj(info: &JjInfo, config: &Config) -> (r: String)
    ensures
        r@ == jj_text(info@, config@),
{
    let mut out = String::new();
    let display = &config.jj_display;
    push_prefix(&mut out, cow_str(&config.jj_symbol), display);

    let name: Cow<str> = match &info.bookmark {
        Some(bookmark) => config.truncate(bookmark.as_str()),
        None => Cow::Borrowed(info.change_id.as_str()),
    };
    if display.show_name {
        let colored = format_segment(cow_str(&name), PURPLE, display.show_color);
        out.append(colored.as_str());
    }
    proof {
        assert(out@ =~= prefix_section(config@.jj_symbol, *display) + name_section(
            jj_name(info@, config@),
            *display,
        ));
    }

    if display.show_id && !same_text(cow_str(&name), info.change_id.as_str()) {
        push_id(&mut out, info.change_id.as_str(), display);
    }

    let mut status = String::new();
    if info.conflict {
        status.append("!");
    }
    if info.divergent {
        status.append("\u{21d4}");
    }
    if info.empty_desc {
        status.append("?");
    }
    if info.has_remote && !info.is_synced {
        status.append("\u{21e1}");
    }
    proof {
        assert(status@ =~= jj_flags(info@));
    }
    push_status(&mut out, status.as_str(), display);
    out
}

/// The name under which a Git repository is shown: its branch, cut to the
/// configured length, or `HEAD` when no branch is checked out.
pub open spec fn git_name(info: GitStatus, config: ConfigView) -> Seq<char> {
    match info.branch {
        Some(branch) => truncated(branch, config.truncate_name),
        None => "HEAD"@,
    }
}

/// The file flags of a Git repository, in their fixed order: conflicted,
/// staged, modified, untracked, deleted. A flag is set when its count is
/// not zero.
pub open spec fn git_file_flags(info: GitStatus) -> Seq<char> {
    flag_if(info.conflicted > 0, "="@) + flag_if(info.staged > 0, "+"@) + flag_if(
        info.modified > 0,
        "!"@,
    ) + flag_if(info.untracked > 0, "?"@) + flag_if(info.deleted > 0, "\u{2718}"@)
}

/// `mark` and the numeral of `count`, or nothing when `count` is zero.
pub open spec fn counted(mark: Seq<char>, count: nat) -> Seq<char> {
    if count > 0 {
        mark + decimal(count)
    } else {
        Seq::empty()
    }
}

/// The flags of a Git repository: the file flags, then the commits ahead,
/// then the commits behind.
pub open spec fn git_flags(info: GitStatus) -> Seq<char> {
    git_file_flags(info) + counted("\u{21e1}"@, info.ahead) + counted("\u{21e3}"@, info.behind)
}

/// The prompt text of a Git repository.
pub open spec fn git_text(info: GitStatus, config: ConfigView) -> Seq<char> {
    let display = config.git_display;
    let head = prefix_section(config.git_symbol, display) + name_section(
        git_name(info, config),
        display,
    );
    let body = if display.show_id {
        joined(head, id_section(info.head_short, display))
    } else {
        head
    };
    with_status(body, git_flags(info), display)
}

/// Appends `mark` and the numeral of `count` to `out`, when `count` is
/// not zero.
fn push_counted(out: &mut String, mark: &str, count: usize)
    ensures
        final(out)@ == old(out)@ + counted(mark@, count as nat),
{
    if count > 0 {
        out.append(mark);
        push_decimal(out, count);
    }
    proof {
        assert(final(out)@ =~= old(out)@ + counted(mark@, count as nat));
    }
}

/// Formats Git info as prompt text, after the pattern
/// `on {symbol}{name} ({id}) [{status}]`.
pub fn format_git(info: &GitInfo, config: &Config) -> (r: String)
    ensures
        r@ == git_text(info@, config@),
{
    let mut out = String::new();
    let display = &config.git_display;
    push_prefix(&mut out, cow_str(&config.git_symbol), display);

    if display.show_name {
        let name: Cow<str> = match &info.branch {
            Some(branch) => config.truncate(branch.as_str()),
            None => Cow::Borrowed("HEAD"),
        };
        let colored = format_segment(cow_str(&name), PURPLE, display.show_color);
        out.append(colored.as_str());
    }
    proof {
        assert(out@ =~= prefix_section(config@.git_symbol, *display) + name_section(
            git_name(info@, config@),
            *display,
        ));
    }

    if display.show_id {
        push_id(&mut out, info.head_short.as_str(), display);
    }

    let mut status = String::new();
    if info.conflicted > 0 {
        status.append("=");
    }
    if info.staged > 0 {
        status.append("+");
    }
    if info.modified > 0 {
        status.append("!");
    }
    if info.untracked > 0 {
        status.append("?");
    }
    if info.deleted > 0 {
        status.append("\u{2718}");
    }
    proof {
        assert(status@ =~= git_file_flags(info@));
    }
    push_counted(&mut status, "\u{21e1}", info.ahead);
    push_counted(&mut status, "\u{21e3}", info.behind);
    push_status(&mut out, status.as_str(), display);
    out
}

/// Without color a segment is its text and nothing else. With color it is
/// the text between the color sequence and the reset sequence, so taking
/// those two away leaves every character of the text, in place.
pub proof fn color_only_wraps(text: Seq<char>, color: Seq<char>)
    ensures
        segment(text, color, false) == text,
        segment(text, color, true) == color + text + RESET@,
        segment(text, color, true).len() == color.len() + text.len() + RESET@.len(),
        segment(text, color, true).subrange(color.len() as int, (color.len() + text.len()) as int)
            == segment(text, color, false),
        segment(text, color, true).take(color.len() as int) == color,
        segment(text, color, true).skip((color.len() + text.len()) as int) == RESET@,
{
    let colored = segment(text, color, true);
    assert(colored.subrange(color.len() as int, (color.len() + text.len()) as int) =~= text);
    assert(colored.take(color.len() as int) =~= color);
    assert(colored.skip((color.len() + text.len()) as int) =~= RESET@);
}

/// A JJ working copy without a bookmark is shown without its identifier,
/// whether the identifier is switched on or off.
pub proof fn jj_id_omitted_without_bookmark(info: JjStatus, config: ConfigView)
    requires
        info.bookmark is None,
    ensures
        !jj_shows_id(info, config),
        jj_text(info, config) == with_status(
            prefix_section(config.jj_symbol, config.jj_display) + name_section(
                info.change_id,
                config.jj_display,
            ),
            jj_flags(info),
            config.jj_display,
        ),
{
}

/// Whether `part` stands in `text` from position `at` on.
pub open spec fn occurs_at(text: Seq<char>, part: Seq<char>, at: int) -> bool {
    0 <= at && at + part.len() <= text.len() && text.subrange(at, at + part.len()) == part
}

/// A JJ working copy with a bookmark is shown with its identifier when the
/// identifier is switched on, unless the bookmark as displayed is the
/// change id itself: the identifier section then stands in the text, after
/// the prefix and the name.
pub proof fn jj_id_shown_with_bookmark(info: JjStatus, config: ConfigView) -> (at: int)
    requires
        info.bookmark is Some,
        config.jj_display.show_id,
        truncated(info.bookmark->0, config.truncate_name) != info.change_id,
    ensures
        jj_shows_id(info, config),
        occurs_at(jj_text(info, config), id_section(info.change_id, config.jj_display), at),
        at >= (prefix_section(config.jj_symbol, config.jj_display) + name_section(
            jj_name(info, config),
            config.jj_display,
        )).len(),
{
    let display = config.jj_display;
    let head = prefix_section(config.jj_symbol, display) + name_section(
        jj_name(info, config),
        display,
    );
    let id = id_section(info.change_id, display);
    let body = joined(head, id);
    let at = body.len() - id.len();
    assert(body.subrange(at, at + id.len()) =~= id);
    let text = jj_text(info, config);
    assert(text.subrange(at, at + id.len()) =~= id);
    at
}

/// The text is a function of the status and the configuration: two
/// renderings of the same JJ status under the same configuration agree
/// character by character.
pub proof fn jj_text_is_repeatable(info: JjInfo, config: Config, first: String, second: String)
    requires
        first@ == jj_text(info@, config@),
        second@ == jj_text(info@, config@),
    ensures
        first@ == second@,
{
}

/// Two renderings of the same Git status under the same configuration
/// agree character by character.
pub proof fn git_text_is_repeatable(info: GitInfo, config: Config, first: String, second: String)
    requires
        first@ == git_text(info@, config@),
        second@ == git_text(info@, config@),
    ensures
        first@ == second@,
{
}

/// The place of a Git file flag in the fixed order `= + ! ? ✘`; 5 for
/// any other character.
pub open spec fn git_flag_rank(c: char) -> int {
    if c == '=' {
        0
    } else if c == '+' {
        1
    } else if c == '!' {
        2
    } else if c == '?' {
        3
    } else if c == '\u{2718}' {
        4
    } else {
        5
    }
}

/// The place of a JJ flag in the fixed order `! ⇔ ? ⇡`; 4 for any other
/// character.
pub open spec fn jj_flag_rank(c: char) -> int {
    if c == '!' {
        0
    } else if c == '\u{21d4}' {
        1
    } else if c == '?' {
        2
    } else if c == '\u{21e1}' {
        3
    } else {
        4
    }
}

/// Whether the characters of `flags` stand in rising order of `rank`, each
/// below `bound`.
pub open spec fn rising(flags: Seq<char>, rank: spec_fn(char) -> int, bound: int) -> bool {
    &&& forall|i: int| 0 <= i < flags.len() ==> 0 <= #[trigger] rank(flags[i]) < bound
    &&& forall|i: int, j: int|
        0 <= i < j < flags.len() ==> rank(#[trigger] flags[i]) < rank(#[trigger] flags[j])
}

/// A rising sequence stays rising when a flag of the next rank is put
/// behind it, or nothing is.
proof fn rising_extends(
    flags: Seq<char>,
    rank: spec_fn(char) -> int,
    bound: int,
    present: bool,
    flag: char,
)
    requires
        rising(flags, rank, bound),
        rank(flag) == bound,
        0 <= bound,
    ensures
        rising(flags + flag_if(present, seq![flag]), rank, bound + 1),
        (flags + flag_if(present, seq![flag])).contains(flag) <==> present,
{
    let next = flags + flag_if(present, seq![flag]);
    if present {
        assert(next =~= flags.push(flag));
        assert(next[flags.len() as int] == flag);
        assert forall|i: int| 0 <= i < next.len() implies 0 <= #[trigger] rank(next[i]) < bound
            + 1 by {
            if i < flags.len() {
                assert(next[i] == flags[i]);
            }
        }
        assert forall|i: int, j: int| 0 <= i < j < next.len() implies rank(#[trigger] next[i])
            < rank(#[trigger] next[j]) by {
            assert(next[i] == flags[i]);
            if j < flags.len() {
                assert(next[j] == flags[j]);
            }
        }
    } else {
        assert(next =~= flags);
        if next.contains(flag) {
            let i = choose|i: int| 0 <= i < next.len() && next[i] == flag;
            assert(rank(flags[i]) < bound);
        }
    }
}

/// The file flags of a Git repository always stand in the order
/// `= + ! ? ✘`, each at most once and exactly when its count is not zero.
/// Behind them come the commits ahead and then the commits behind, each
/// only when not zero.
pub proof fn git_flags_keep_their_order(info: GitStatus)
    ensures
        rising(git_file_flags(info), |c: char| git_flag_rank(c), 5),
        git_file_flags(info).contains('=') <==> info.conflicted > 0,
        git_file_flags(info).contains('+') <==> info.staged > 0,
        git_file_flags(info).contains('!') <==> info.modified > 0,
        git_file_flags(info).contains('?') <==> info.untracked > 0,
        git_file_flags(info).contains('\u{2718}') <==> info.deleted > 0,
        git_flags(info) == git_file_flags(info) + counted(seq!['\u{21e1}'], info.ahead) + counted(
            seq!['\u{21e3}'],
            info.behind,
        ),
{
    reveal_strlit("=");
    reveal_strlit("+");
    reveal_strlit("!");
    reveal_strlit("?");
    reveal_strlit("\u{2718}");
    reveal_strlit("\u{21e1}");
    reveal_strlit("\u{21e3}");
    assert("="@ =~= seq!['=']);
    assert("+"@ =~= seq!['+']);
    assert("!"@ =~= seq!['!']);
    assert("?"@ =~= seq!['?']);
    assert("\u{2718}"@ =~= seq!['\u{2718}']);
    assert("\u{21e1}"@ =~= seq!['\u{21e1}']);
    assert("\u{21e3}"@ =~= seq!['\u{21e3}']);
    let rank = |c: char| git_flag_rank(c);
    let f0 = Seq::<char>::empty();
    let f1 = f0 + flag_if(info.conflicted > 0, seq!['=']);
    let f2 = f1 + flag_if(info.staged > 0, seq!['+']);
    let f3 = f2 + flag_if(info.modified > 0, seq!['!']);
    let f4 = f3 + flag_if(info.untracked > 0, seq!['?']);
    let f5 = f4 + flag_if(info.deleted > 0, seq!['\u{2718}']);
    assert(rising(f0, rank, 0));
    rising_extends(f0, rank, 0, info.conflicted > 0, '=');
    rising_extends(f1, rank, 1, info.staged > 0, '+');
    rising_extends(f2, rank, 2, info.modified > 0, '!');
    rising_extends(f3, rank, 3, info.untracked > 0, '?');
    rising_extends(f4, rank, 4, info.deleted > 0, '\u{2718}');
    assert(f1 =~= flag_if(info.conflicted > 0, seq!['=']));
    assert(f5 == git_file_flags(info));
    later_flags_keep_earlier(f1, flag_if(info.staged > 0, seq!['+']), rank, '=', 1);
    later_flags_keep_earlier(f2, flag_if(info.modified > 0, seq!['!']), rank, '=', 2);
    later_flags_keep_earlier(f3, flag_if(info.untracked > 0, seq!['?']), rank, '=', 3);
    later_flags_keep_earlier(f4, flag_if(info.deleted > 0, seq!['\u{2718}']), rank, '=', 4);
    later_flags_keep_earlier(f2, flag_if(info.modified > 0, seq!['!']), rank, '+', 2);
    later_flags_keep_earlier(f3, flag_if(info.untracked > 0, seq!['?']), rank, '+', 3);
    later_flags_keep_earlier(f4, flag_if(info.deleted > 0, seq!['\u{2718}']), rank, '+', 4);
    later_flags_keep_earlier(f3, flag_if(info.untracked > 0, seq!['?']), rank, '!', 3);
    later_flags_keep_earlier(f4, flag_if(info.deleted > 0, seq!['\u{2718}']), rank, '!', 4);
    later_flags_keep_earlier(f4, flag_if(info.deleted > 0, seq!['\u{2718}']), rank, '?', 4);
}

/// Putting a flag of rank `bound` behind a sequence neither adds nor
/// removes a flag of a lower rank.
proof fn later_flags_keep_earlier(
    flags: Seq<char>,
    more: Seq<char>,
    rank: spec_fn(char) -> int,
    flag: char,
    bound: int,
)
    requires
        rank(flag) < bound,
        forall|i: int| 0 <= i < more.len() ==> #[trigger] rank(more[i]) >= bound,
    ensures
        (flags + more).contains(flag) <==> flags.contains(flag),
{
    let all = flags + more;
    if flags.contains(flag) {
        let i = choose|i: int| 0 <= i < flags.len() && flags[i] == flag;
        assert(all[i] == flag);
    }
    if all.contains(flag) {
        let i = choose|i: int| 0 <= i < all.len() && all[i] == flag;
        if i >= flags.len() {
            assert(all[i] == more[i - flags.len()]);
            assert(rank(more[i - flags.len()]) >= bound);
        } else {
            assert(flags[i] == flag);
        }
    }
}

/// The flags of a JJ working copy always stand in the order `! ⇔ ? ⇡`,
/// each at most once and exactly when its condition holds.
pub proof fn jj_flags_keep_their_order(info: JjStatus)
    ensures
        rising(jj_flags(info), |c: char| jj_flag_rank(c), 4),
        jj_flags(info).contains('!') <==> info.conflict,
        jj_flags(info).contains('\u{21d4}') <==> info.divergent,
        jj_flags(info).contains('?') <==> info.empty_desc,
        jj_flags(info).contains('\u{21e1}') <==> info.has_remote && !info.is_synced,
{
    reveal_strlit("!");
    reveal_strlit("\u{21d4}");
    reveal_strlit("?");
    reveal_strlit("\u{21e1}");
    assert("!"@ =~= seq!['!']);
    assert("\u{21d4}"@ =~= seq!['\u{21d4}']);
    assert("?"@ =~= seq!['?']);
    assert("\u{21e1}"@ =~= seq!['\u{21e1}']);
    let rank = |c: char| jj_flag_rank(c);
    let unsynced = info.has_remote && !info.is_synced;
    let f0 = Seq::<char>::empty();
    let f1 = f0 + flag_if(info.conflict, seq!['!']);
    let f2 = f1 + flag_if(info.divergent, seq!['\u{21d4}']);
    let f3 = f2 + flag_if(info.empty_desc, seq!['?']);
    let f4 = f3 + flag_if(unsynced, seq!['\u{21e1}']);
    assert(rising(f0, rank, 0));
    rising_extends(f0, rank, 0, info.conflict, '!');
    rising_extends(f1, rank, 1, info.divergent, '\u{21d4}');
    rising_extends(f2, rank, 2, info.empty_desc, '?');
    rising_extends(f3, rank, 3, unsynced, '\u{21e1}');
    assert(f1 =~= flag_if(info.conflict, seq!['!']));
    assert(f4 == jj_flags(info));
    later_flags_keep_earlier(f1, flag_if(info.divergent, seq!['\u{21d4}']), rank, '!', 1);
    later_flags_keep_earlier(f2, flag_if(info.empty_desc, seq!['?']), rank, '!', 2);
    later_flags_keep_earlier(f3, flag_if(unsynced, seq!['\u{21e1}']), rank, '!', 3);
    later_flags_keep_earlier(f2, flag_if(info.empty_desc, seq!['?']), rank, '\u{21d4}', 2);
    later_flags_keep_earlier(f3, flag_if(unsynced, seq!['\u{21e1}']), rank, '\u{21d4}', 3);
    later_flags_keep_earlier(f3, flag_if(unsynced, seq!['\u{21e1}']), rank, '?', 3);
}

} // verus!
