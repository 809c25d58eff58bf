//! Writing a configuration as INI text and reading it back gives the same
//! configuration; and how each choice value is read (letter case, fallback).

use vstd::prelude::*;
use vstd::utf8::is_ascii_chars;
use crate::config::{
    AccountViewMode, CloseBehavior, ConfigModel, default_config, DefaultLoginView, FontSize, Language, Region, Theme,
    UpdateChannel,
};
use crate::decimal::{int_text, lemma_int_text_reads_back, parse_i32_spec, parse_u32_spec};
use crate::config_parser::{
    account_view_mode_text, bool_text, close_behavior_text, default_login_view_text, font_size_text,
    ini_account_view_mode, ini_apply, ini_bool, ini_close_behavior, ini_default_login_view,
    ini_font_size, ini_language, ini_line, ini_region, ini_run, ini_theme, ini_update_channel,
    join_lines, kv_line, language_text, names_entry, region_text, theme_text, update_channel_text,
    general_lines, game_lines, appearance_lines, window_lines, opt_i32_line, opt_u32_line,
    ini_lines, ini_text, ini_config,
};
use crate::text::{
    ascii_lower, ascii_upper, find_char, is_ws, lemma_find_char, lower_text, replace_char, trim,
    trim_end, trim_start, upper_text,
};

verus! {

/// Reads a list of lines one after the other (the line-level view of `ini_run`).
#[verifier::opaque]
pub open spec fn ini_fold(lines: Seq<Seq<char>>, section: Seq<char>, c: ConfigModel) -> (ConfigModel, Seq<char>)
    decreases lines.len(),
{
    if lines.len() == 0 {
        (c, section)
    } else {
        let next = ini_line(c, section, lines[0]);
        ini_fold(lines.drop_first(), next.1, next.0)
    }
}

/// No line holds a newline.
pub open spec fn single_lines(lines: Seq<Seq<char>>) -> bool {
    forall|i: int| 0 <= i < lines.len() ==> !(#[trigger] lines[i]).contains('\n')
}

/// A key as the writer emits it: ASCII, no upper-case letters, no whitespace,
/// no `=`, and not starting like a comment or a section header.
pub open spec fn plain_key(key: Seq<char>) -> bool {
    &&& key.len() > 0
    &&& is_ascii_chars(key)
    &&& forall|i: int|
        0 <= i < key.len() ==> !is_ws(#[trigger] key[i]) && key[i] != '=' && !('A' <= key[i]
            && key[i] <= 'Z')
    &&& key[0] != '#'
    &&& key[0] != ';'
    &&& key[0] != '['
}

proof fn lemma_trim_start_len(s: Seq<char>)
    ensures
        trim_start(s).len() <= s.len(),
    decreases s.len(),
{
    if s.len() > 0 && is_ws(s[0]) {
        lemma_trim_start_len(s.drop_first());
    }
}

proof fn lemma_trim_end_len(s: Seq<char>)
    ensures
        trim_end(s).len() <= s.len(),
    decreases s.len(),
{
    if s.len() > 0 && is_ws(s.last()) {
        lemma_trim_end_len(s.drop_last());
    }
}

/// A text whose ends are not whitespace is its own trim.
pub proof fn lemma_trim_fixed(s: Seq<char>)
    requires
        s.len() > 0,
        !is_ws(s[0]),
        !is_ws(s.last()),
    ensures
        trim(s) == s,
{
}

/// A nonempty text that is its own trim has no whitespace at either end.
pub proof fn lemma_trimmed_ends(v: Seq<char>)
    requires
        trim(v) == v,
        v.len() > 0,
    ensures
        !is_ws(v[0]),
        !is_ws(v.last()),
{
    if is_ws(v[0]) {
        lemma_trim_start_len(v.drop_first());
        lemma_trim_end_len(trim_start(v));
    } else if is_ws(v.last()) {
        lemma_trim_end_len(v.drop_last());
    }
}

proof fn lemma_trim_space_prefix(v: Seq<char>)
    ensures
        trim(seq![' '] + v) == trim(v),
{
    assert((seq![' '] + v).drop_first() =~= v);
}

proof fn lemma_trim_space_suffix(k: Seq<char>)
    requires
        k.len() > 0,
        !is_ws(k[0]),
        !is_ws(k.last()),
    ensures
        trim(k + seq![' ']) == k,
{
    let s = k + seq![' '];
    assert(s[0] == k[0]);
    assert(trim_start(s) == s);
    assert(s.drop_last() =~= k);
    assert(trim_end(k) == k);
}

/// A plain key reads back as itself after trimming and lower-casing.
pub proof fn lemma_plain_key_reads_back(key: Seq<char>)
    requires
        plain_key(key),
    ensures
        lower_text(trim(key + seq![' '])) == key,
{
    lemma_trim_space_suffix(key);
    assert(ascii_lower(key) =~= key);
}

/// A `key = value` line, read under a section, applies the entry.
pub proof fn lemma_kv_line(c: ConfigModel, section: Seq<char>, key: Seq<char>, v: Seq<char>)
    requires
        plain_key(key),
        trim(v) == v,
        section.len() > 0,
    ensures
        ini_line(c, section, kv_line(key, v)) == (ini_apply(c, section, key, v), section),
{
    reveal(ini_line);
    reveal_strlit(" = ");
    let line = kv_line(key, v);
    let n = key.len() as int;
    assert(line =~= key + seq![' ', '=', ' '] + v);
    lemma_plain_key_reads_back(key);
    let t = trim(line);
    if v.len() > 0 {
        lemma_trimmed_ends(v);
        assert(line.last() == v.last());
        assert(line[0] == key[0]);
        lemma_trim_fixed(line);
        assert(t == line);
    } else {
        assert(line =~= key + seq![' ', '=', ' ']);
        assert(line[0] == key[0]);
        assert(trim_start(line) == line);
        assert(line.drop_last() =~= key + seq![' ', '=']);
        assert(trim_end(line.drop_last()) == line.drop_last());
        assert(t == key + seq![' ', '=']);
    }
    assert(t[0] == key[0]);
    assert forall|j: int| 0 <= j < n + 1 implies t[j] != '=' by {
        if j < n {
            assert(t[j] == key[j]);
        }
    }
    assert(t[n + 1] == '=');
    lemma_find_char(t, '=', n + 1);
    assert(t.subrange(0, n + 1) =~= key + seq![' ']);
    if v.len() > 0 {
        assert(t.subrange(n + 2, t.len() as int) =~= seq![' '] + v);
        lemma_trim_space_prefix(v);
    } else {
        assert(t.subrange(n + 2, t.len() as int) =~= Seq::<char>::empty());
        assert(trim(Seq::<char>::empty()) =~= Seq::<char>::empty());
    }
    assert(lower_text(trim(t.subrange(0, n + 1))) == key);
    assert(trim(t.subrange(n + 2, t.len() as int)) == v);
    assert(!(t[0] == '[' && t.last() == ']'));
}

/// A `key=value` line with no spaces around `=` is split at that `=`: the
/// whole key before it and the whole value after it are read, just as for
/// `key = value`.
pub proof fn lemma_entry_without_spaces(c: ConfigModel, section: Seq<char>, key: Seq<char>, v: Seq<char>)
    requires
        plain_key(key),
        trim(v) == v,
        section.len() > 0,
    ensures
        ini_line(c, section, key + "="@ + v) == (ini_apply(c, section, key, v), section),
        ini_line(c, section, key + "="@ + v) == ini_line(c, section, key + " = "@ + v),
{
    reveal(ini_line);
    reveal_strlit("=");
    let line = key + "="@ + v;
    let n = key.len() as int;
    assert(line =~= key + seq!['='] + v);
    assert(line[0] == key[0]);
    if v.len() > 0 {
        lemma_trimmed_ends(v);
        assert(line.last() == v.last());
    } else {
        assert(line.last() == '=');
    }
    lemma_trim_fixed(line);
    let t = trim(line);
    assert(t == line);
    assert forall|j: int| 0 <= j < n implies t[j] != '=' by {
        assert(t[j] == key[j]);
    }
    assert(t[n] == '=');
    lemma_find_char(t, '=', n);
    assert(t.subrange(0, n) =~= key);
    assert(key.last() == key[n - 1]);
    lemma_trim_fixed(key);
    assert(ascii_lower(key) =~= key);
    assert(lower_text(trim(t.subrange(0, n))) == key);
    assert(t.subrange(n + 1, t.len() as int) =~= v);
    assert(!(t[0] == '[' && t.last() == ']'));
    lemma_kv_line(c, section, key, v);
}

/// A key as a user may write it: ASCII, no whitespace, no `=`, not starting
/// like a comment or a section header; letters of any case.
pub open spec fn entry_key(key: Seq<char>) -> bool {
    &&& key.len() > 0
    &&& is_ascii_chars(key)
    &&& forall|i: int| 0 <= i < key.len() ==> !is_ws(#[trigger] key[i]) && key[i] != '='
    &&& key[0] != '#'
    &&& key[0] != ';'
    &&& key[0] != '['
}

/// An entry line names its key in any letter case, with or without spaces
/// around `=`: the key before the first `=` is read lower-cased, and the
/// value after it as it stands.
pub proof fn lemma_entry_key_any_case(
    c: ConfigModel,
    section: Seq<char>,
    key: Seq<char>,
    v: Seq<char>,
    spaced: bool,
)
    requires
        entry_key(key),
        trim(v) == v,
        section.len() > 0,
    ensures
        ini_line(c, section, if spaced { key + " = "@ + v } else { key + "="@ + v }) == (
            ini_apply(c, section, ascii_lower(key), v),
            section,
        ),
{
    reveal(ini_line);
    reveal_strlit("=");
    reveal_strlit(" = ");
    let n = key.len() as int;
    let sep: Seq<char> = if spaced { seq![' ', '=', ' '] } else { seq!['='] };
    let line = key + sep + v;
    assert(line =~= (if spaced { key + " = "@ + v } else { key + "="@ + v }));
    assert(line[0] == key[0]);
    assert(key.last() == key[n - 1]);
    let kl: int = if spaced { n + 1 } else { n };
    let t = trim(line);
    if v.len() > 0 {
        lemma_trimmed_ends(v);
        assert(line.last() == v.last());
        lemma_trim_fixed(line);
        assert(t == line);
    } else if spaced {
        assert(line =~= key + seq![' ', '=', ' ']);
        assert(trim_start(line) == line);
        assert(line.drop_last() =~= key + seq![' ', '=']);
        assert(trim_end(line.drop_last()) == line.drop_last());
        assert(t == key + seq![' ', '=']);
    } else {
        assert(line.last() == '=');
        lemma_trim_fixed(line);
        assert(t == line);
    }
    assert(t[0] == key[0]);
    assert forall|j: int| 0 <= j < kl implies t[j] != '=' by {
        if j < n {
            assert(t[j] == key[j]);
        }
    }
    assert(t[kl] == '=');
    lemma_find_char(t, '=', kl);
    if spaced {
        assert(t.subrange(0, kl) =~= key + seq![' ']);
        lemma_trim_space_suffix(key);
        if v.len() > 0 {
            assert(t.subrange(kl + 1, t.len() as int) =~= seq![' '] + v);
            lemma_trim_space_prefix(v);
        } else {
            assert(t.subrange(kl + 1, t.len() as int) =~= Seq::<char>::empty());
            assert(trim(Seq::<char>::empty()) =~= Seq::<char>::empty());
        }
    } else {
        assert(t.subrange(0, kl) =~= key);
        lemma_trim_fixed(key);
        assert(t.subrange(kl + 1, t.len() as int) =~= v);
    }
    assert(trim(t.subrange(0, kl)) == key);
    assert(lower_text(key) == ascii_lower(key));
    assert(trim(t.subrange(kl + 1, t.len() as int)) == v);
    assert(!(t[0] == '[' && t.last() == ']'));
}

/// A `[name]` line opens section `name`.
pub proof fn lemma_header_line(c: ConfigModel, section: Seq<char>, name: Seq<char>)
    requires
        name.len() > 0,
        is_ascii_chars(name),
        forall|i: int| 0 <= i < name.len() ==> !is_ws(#[trigger] name[i]) && !('A' <= name[i] && name[i] <= 'Z'),
    ensures
        ini_line(c, section, seq!['['] + name + seq![']']) == (c, name),
{
    reveal(ini_line);
    let line = seq!['['] + name + seq![']'];
    lemma_trim_fixed(line);
    assert(line.subrange(1, line.len() - 1) =~= name);
    assert(name.last() == name[name.len() - 1]);
    lemma_trim_fixed(name);
    assert(ascii_lower(name) =~= name);
}

/// An empty line changes nothing.
pub proof fn lemma_blank_line(c: ConfigModel, section: Seq<char>)
    ensures
        ini_line(c, section, Seq::empty()) == (c, section),
{
    reveal(ini_line);
}

/// Reading the joined lines is reading them one by one.
pub proof fn lemma_run_join(lines: Seq<Seq<char>>, section: Seq<char>, c: ConfigModel)
    requires
        single_lines(lines),
    ensures
        ini_run(join_lines(lines), section, c) == ini_fold(lines, section, c).0,
    decreases lines.len(),
{
    reveal(ini_fold);
    reveal_strlit("\n");
    if lines.len() == 0 {
        lemma_blank_line(c, section);
        assert(join_lines(lines).subrange(0, 0) =~= Seq::<char>::empty());
    } else {
        let l = lines[0];
        let rest = lines.drop_first();
        let text = join_lines(lines);
        assert(text =~= l + seq!['\n'] + join_lines(rest));
        assert(!l.contains('\n'));
        assert forall|j: int| 0 <= j < l.len() implies text[j] != '\n' by {
            assert(text[j] == l[j]);
            if l[j] == '\n' {
                assert(l.contains('\n'));
            }
        }
        lemma_find_char(text, '\n', l.len() as int);
        assert(find_char(text, '\n') == l.len());
        assert(text.subrange(0, l.len() as int) =~= l);
        assert(text.subrange(l.len() as int + 1, text.len() as int) =~= join_lines(rest));
        assert forall|i: int| 0 <= i < rest.len() implies !(#[trigger] rest[i]).contains('\n') by {
            assert(rest[i] == lines[i + 1]);
        }
        let next = ini_line(c, section, l);
        lemma_run_join(rest, next.1, next.0);
    }
}

/// Reading no lines changes nothing.
pub proof fn lemma_fold_empty(section: Seq<char>, c: ConfigModel)
    ensures
        ini_fold(Seq::empty(), section, c) == (c, section),
{
    reveal(ini_fold);
}

/// Reading `a + b` is reading `a` and then `b`.
pub proof fn lemma_fold_append(a: Seq<Seq<char>>, b: Seq<Seq<char>>, section: Seq<char>, c: ConfigModel)
    ensures
        ini_fold(a + b, section, c) == ({
            let r = ini_fold(a, section, c);
            ini_fold(b, r.1, r.0)
        }),
    decreases a.len(),
{
    reveal(ini_fold);
    if a.len() == 0 {
        assert(a + b =~= b);
    } else {
        assert((a + b)[0] == a[0]);
        assert((a + b).drop_first() =~= a.drop_first() + b);
        let next = ini_line(c, section, a[0]);
        lemma_fold_append(a.drop_first(), b, next.1, next.0);
    }
}

/// One step of reading a list of lines, from position `i`.
pub proof fn lemma_fold_step(lines: Seq<Seq<char>>, i: int, section: Seq<char>, c: ConfigModel)
    requires
        0 <= i < lines.len(),
    ensures
        ini_fold(lines.skip(i), section, c) == ({
            let next = ini_line(c, section, lines[i]);
            ini_fold(lines.skip(i + 1), next.1, next.0)
        }),
{
    reveal(ini_fold);
    assert(lines.skip(i)[0] == lines[i]);
    assert(lines.skip(i).drop_first() =~= lines.skip(i + 1));
}

/// A value as the writer emits it: nonempty, no whitespace anywhere.
pub open spec fn plain_value(v: Seq<char>) -> bool {
    v.len() > 0 && forall|i: int| 0 <= i < v.len() ==> !is_ws(#[trigger] v[i])
}

/// A plain value is its own trim and holds no newline.
pub proof fn lemma_plain_value(v: Seq<char>)
    requires
        plain_value(v),
    ensures
        trim(v) == v,
        !v.contains('\n'),
{
    assert(v.last() == v[v.len() - 1]);
    lemma_trim_fixed(v);
    if v.contains('\n') {
        let i = choose|i: int| 0 <= i < v.len() && v[i] == '\n';
        assert(!is_ws(v[i]));
    }
}

proof fn lemma_lower_fixed(s: Seq<char>)
    requires
        is_ascii_chars(s),
        forall|i: int| 0 <= i < s.len() ==> !('A' <= #[trigger] s[i] && s[i] <= 'Z'),
    ensures
        lower_text(s) == s,
{
    assert(ascii_lower(s) =~= s);
}

proof fn lemma_upper_fixed(s: Seq<char>)
    requires
        is_ascii_chars(s),
        forall|i: int| 0 <= i < s.len() ==> !('a' <= #[trigger] s[i] && s[i] <= 'z'),
    ensures
        upper_text(s) == s,
{
    assert(ascii_upper(s) =~= s);
}

/// A written flag reads back as itself.
pub proof fn lemma_read_bool(b: bool, d: bool)
    ensures
        ini_bool(bool_text(b), d) == b,
        plain_value(bool_text(b)),
{
    reveal(ini_bool);
    reveal_strlit("true");
    assert("true"@.len() == 4);
    reveal_strlit("false");
    assert("false"@.len() == 5);
    reveal_strlit("1");
    assert("1"@.len() == 1);
    reveal_strlit("yes");
    assert("yes"@.len() == 3);
    reveal_strlit("0");
    assert("0"@.len() == 1);
    reveal_strlit("no");
    assert("no"@.len() == 2);
    lemma_lower_fixed("true"@);
    lemma_lower_fixed("false"@);
}

pub proof fn lemma_read_region(r: Region)
    ensures
        ini_region(region_text(r)) == r,
        plain_value(region_text(r)),
{
    reveal(ini_region);
    reveal_strlit("TW");
    assert("TW"@.len() == 2);
    reveal_strlit("HK");
    assert("HK"@.len() == 2);
    lemma_upper_fixed("TW"@);
    lemma_upper_fixed("HK"@);
    assert("TW"@[0] != "HK"@[0]);
}

pub proof fn lemma_read_language(l: Language)
    ensures
        ini_language(language_text(l)) == l,
        plain_value(language_text(l)),
{
    reveal(ini_language);
    reveal_strlit("en-US");
    reveal_strlit("zh-TW");
    reveal_strlit("zh-CN");
    assert("en-US"@[0] != "zh-TW"@[0]);
    assert("en-US"@[0] != "zh-CN"@[0]);
    assert("zh-TW"@[3] != "zh-CN"@[3]);
}

pub proof fn lemma_read_theme(t: Theme)
    ensures
        ini_theme(theme_text(t)) == t,
        plain_value(theme_text(t)),
{
    reveal(ini_theme);
    reveal_strlit("system");
    assert("system"@.len() == 6);
    reveal_strlit("dark");
    assert("dark"@.len() == 4);
    reveal_strlit("light");
    assert("light"@.len() == 5);
    lemma_lower_fixed("system"@);
    lemma_lower_fixed("dark"@);
    lemma_lower_fixed("light"@);
}

pub proof fn lemma_read_update_channel(u: UpdateChannel)
    ensures
        ini_update_channel(update_channel_text(u)) == u,
        plain_value(update_channel_text(u)),
{
    reveal(ini_update_channel);
    reveal_strlit("release");
    assert("release"@.len() == 7);
    reveal_strlit("pre-release");
    reveal_strlit("prerelease");
    assert("prerelease"@.len() == 10);
    lemma_lower_fixed("release"@);
    lemma_lower_fixed("pre-release"@);
    assert(replace_char("release"@, '_', '-') =~= "release"@);
    assert(replace_char("pre-release"@, '_', '-') =~= "pre-release"@);
}

pub proof fn lemma_read_font_size(f: FontSize)
    ensures
        ini_font_size(font_size_text(f)) == f,
        plain_value(font_size_text(f)),
{
    reveal(ini_font_size);
    reveal_strlit("small");
    assert("small"@.len() == 5);
    reveal_strlit("medium");
    assert("medium"@.len() == 6);
    reveal_strlit("large");
    assert("large"@.len() == 5);
    reveal_strlit("extra-large");
    lemma_lower_fixed("small"@);
    lemma_lower_fixed("medium"@);
    lemma_lower_fixed("large"@);
    lemma_lower_fixed("extra-large"@);
    assert("small"@[0] != "large"@[0]);
}

pub proof fn lemma_read_account_view_mode(m: AccountViewMode)
    ensures
        ini_account_view_mode(account_view_mode_text(m)) == m,
        plain_value(account_view_mode_text(m)),
{
    reveal(ini_account_view_mode);
    reveal_strlit("card");
    assert("card"@.len() == 4);
    reveal_strlit("list");
    assert("list"@.len() == 4);
    lemma_lower_fixed("card"@);
    lemma_lower_fixed("list"@);
    assert("card"@[0] != "list"@[0]);
}

pub proof fn lemma_read_close_behavior(b: CloseBehavior)
    ensures
        ini_close_behavior(close_behavior_text(b)) == b,
        plain_value(close_behavior_text(b)),
{
    reveal(ini_close_behavior);
    reveal_strlit("ask");
    assert("ask"@.len() == 3);
    reveal_strlit("quit");
    assert("quit"@.len() == 4);
    reveal_strlit("tray");
    assert("tray"@.len() == 4);
    lemma_lower_fixed("ask"@);
    lemma_lower_fixed("quit"@);
    lemma_lower_fixed("tray"@);
    assert("quit"@[0] != "tray"@[0]);
}

pub proof fn lemma_read_default_login_view(v: DefaultLoginView)
    ensures
        ini_default_login_view(default_login_view_text(v)) == v,
        plain_value(default_login_view_text(v)),
{
    reveal(ini_default_login_view);
    reveal_strlit("normal");
    assert("normal"@.len() == 6);
    reveal_strlit("qr");
    assert("qr"@.len() == 2);
    lemma_lower_fixed("normal"@);
    lemma_lower_fixed("qr"@);
}

/// Reading a font size ignores letter case; any text other than `small`,
/// `medium`, `large` or `extra-large` (in any case) gives the default size.
pub proof fn lemma_font_size_reader(v: Seq<char>, w: Seq<char>)
    ensures
        lower_text(v) == lower_text(w) ==> ini_font_size(v) == ini_font_size(w),
        !(lower_text(v) == "small"@ || lower_text(v) == "medium"@ || lower_text(v) == "large"@
            || lower_text(v) == "extra-large"@) ==> ini_font_size(v) == default_config().font_size,
{
    reveal(ini_font_size);
}

/// Reading a language is exact and case-sensitive: only `en-US` gives
/// English and only `zh-CN` gives Simplified Chinese; any other text gives
/// the default language.
pub proof fn lemma_language_reader(v: Seq<char>)
    ensures
        ini_language(v) == Language::EnUS <==> v == "en-US"@,
        ini_language(v) == Language::ZhCN <==> v == "zh-CN"@,
        !(v == "en-US"@ || v == "zh-TW"@ || v == "zh-CN"@) ==> ini_language(v)
            == default_config().language,
{
    reveal(ini_language);
    reveal_strlit("en-US");
    reveal_strlit("zh-TW");
    reveal_strlit("zh-CN");
    assert("en-US"@[0] != "zh-CN"@[0]);
    assert("zh-TW"@[3] != "zh-CN"@[3]);
}

/// Reading a close behaviour ignores letter case: `quit` and `tray` (in any
/// case) give those behaviours, and any other text gives the default, to ask.
pub proof fn lemma_close_behavior_reader(v: Seq<char>, w: Seq<char>)
    ensures
        lower_text(v) == lower_text(w) ==> ini_close_behavior(v) == ini_close_behavior(w),
        ini_close_behavior(v) == CloseBehavior::Quit <==> lower_text(v) == "quit"@,
        ini_close_behavior(v) == CloseBehavior::Tray <==> lower_text(v) == "tray"@,
        !(lower_text(v) == "quit"@ || lower_text(v) == "tray"@) ==> ini_close_behavior(v)
            == default_config().close_behavior,
{
    reveal(ini_close_behavior);
    reveal_strlit("quit");
    reveal_strlit("tray");
    assert("quit"@[0] != "tray"@[0]);
}

pub proof fn lemma_read_i32(x: i32)
    ensures
        parse_i32_spec(int_text(x as int)) == Some(x),
        plain_value(int_text(x as int)),
{
    reveal(parse_i32_spec);
    lemma_int_text_reads_back(x as int, true);
}

pub proof fn lemma_read_u32(x: u32)
    ensures
        parse_u32_spec(int_text(x as int)) == Some(x),
        plain_value(int_text(x as int)),
{
    reveal(parse_u32_spec);
    lemma_int_text_reads_back(x as int, false);
}

// ---------------------------------------------------------------------------
// Changing one setting
// ---------------------------------------------------------------------------

/// `c` with `game_path` set to `v`.
#[verifier::opaque]
spec fn set_game_path(c: ConfigModel, v: Seq<char>) -> ConfigModel {
    ConfigModel { game_path: v, ..c }
}

/// `c` with `locale` set to `v`.
#[verifier::opaque]
spec fn set_locale(c: ConfigModel, v: Seq<char>) -> ConfigModel {
    ConfigModel { locale: v, ..c }
}

/// `c` with `theme` set to `v`.
#[verifier::opaque]
spec fn set_theme(c: ConfigModel, v: Theme) -> ConfigModel {
    ConfigModel { theme: v, ..c }
}

/// `c` with `language` set to `v`.
#[verifier::opaque]
spec fn set_language(c: ConfigModel, v: Language) -> ConfigModel {
    ConfigModel { language: v, ..c }
}

/// `c` with `auto_update` set to `v`.
#[verifier::opaque]
spec fn set_auto_update(c: ConfigModel, v: bool) -> ConfigModel {
    ConfigModel { auto_update: v, ..c }
}

/// `c` with `update_channel` set to `v`.
#[verifier::opaque]
spec fn set_update_channel(c: ConfigModel, v: UpdateChannel) -> ConfigModel {
    ConfigModel { update_channel: v, ..c }
}

/// `c` with `skip_play_confirm` set to `v`.
#[verifier::opaque]
spec fn set_skip_play_confirm(c: ConfigModel, v: bool) -> ConfigModel {
    ConfigModel { skip_play_confirm: v, ..c }
}

/// `c` with `auto_start` set to `v`.
#[verifier::opaque]
spec fn set_auto_start(c: ConfigModel, v: bool) -> ConfigModel {
    ConfigModel { auto_start: v, ..c }
}

/// `c` with `window_x` set to `v`.
#[verifier::opaque]
spec fn set_window_x(c: ConfigModel, v: Option<i32>) -> ConfigModel {
    ConfigModel { window_x: v, ..c }
}

/// `c` with `window_y` set to `v`.
#[verifier::opaque]
spec fn set_window_y(c: ConfigModel, v: Option<i32>) -> ConfigModel {
    ConfigModel { window_y: v, ..c }
}

/// `c` with `window_width` set to `v`.
#[verifier::opaque]
spec fn set_window_width(c: ConfigModel, v: Option<u32>) -> ConfigModel {
    ConfigModel { window_width: v, ..c }
}

/// `c` with `window_height` set to `v`.
#[verifier::opaque]
spec fn set_window_height(c: ConfigModel, v: Option<u32>) -> ConfigModel {
    ConfigModel { window_height: v, ..c }
}

/// `c` with `region` set to `v`.
#[verifier::opaque]
spec fn set_region(c: ConfigModel, v: Region) -> ConfigModel {
    ConfigModel { region: v, ..c }
}

/// `c` with `debug_logging` set to `v`.
#[verifier::opaque]
spec fn set_debug_logging(c: ConfigModel, v: bool) -> ConfigModel {
    ConfigModel { debug_logging: v, ..c }
}

/// `c` with `gamepass_incognito` set to `v`.
#[verifier::opaque]
spec fn set_gamepass_incognito(c: ConfigModel, v: bool) -> ConfigModel {
    ConfigModel { gamepass_incognito: v, ..c }
}

/// `c` with `font_size` set to `v`.
#[verifier::opaque]
spec fn set_font_size(c: ConfigModel, v: FontSize) -> ConfigModel {
    ConfigModel { font_size: v, ..c }
}

/// `c` with `traditional_login` set to `v`.
#[verifier::opaque]
spec fn set_traditional_login(c: ConfigModel, v: bool) -> ConfigModel {
    ConfigModel { traditional_login: v, ..c }
}

/// `c` with `auto_kill_patcher` set to `v`.
#[verifier::opaque]
spec fn set_auto_kill_patcher(c: ConfigModel, v: bool) -> ConfigModel {
    ConfigModel { auto_kill_patcher: v, ..c }
}

/// `c` with `account_view_mode` set to `v`.
#[verifier::opaque]
spec fn set_account_view_mode(c: ConfigModel, v: AccountViewMode) -> ConfigModel {
    ConfigModel { account_view_mode: v, ..c }
}

/// `c` with `auto_login` set to `v`.
#[verifier::opaque]
spec fn set_auto_login(c: ConfigModel, v: bool) -> ConfigModel {
    ConfigModel { auto_login: v, ..c }
}

/// `c` with `auto_launch_game` set to `v`.
#[verifier::opaque]
spec fn set_auto_launch_game(c: ConfigModel, v: bool) -> ConfigModel {
    ConfigModel { auto_launch_game: v, ..c }
}

/// `c` with `web_launch_auto_launch` set to `v`.
#[verifier::opaque]
spec fn set_web_launch_auto_launch(c: ConfigModel, v: bool) -> ConfigModel {
    ConfigModel { web_launch_auto_launch: v, ..c }
}

/// `c` with `web_launch_auto_paste` set to `v`.
#[verifier::opaque]
spec fn set_web_launch_auto_paste(c: ConfigModel, v: bool) -> ConfigModel {
    ConfigModel { web_launch_auto_paste: v, ..c }
}

/// `c` with `close_behavior` set to `v`.
#[verifier::opaque]
spec fn set_close_behavior(c: ConfigModel, v: CloseBehavior) -> ConfigModel {
    ConfigModel { close_behavior: v, ..c }
}

/// `c` with `hide_account_names` set to `v`.
#[verifier::opaque]
spec fn set_hide_account_names(c: ConfigModel, v: bool) -> ConfigModel {
    ConfigModel { hide_account_names: v, ..c }
}

/// `c` with `beanfun_rename_dismissed` set to `v`.
#[verifier::opaque]
spec fn set_beanfun_rename_dismissed(c: ConfigModel, v: bool) -> ConfigModel {
    ConfigModel { beanfun_rename_dismissed: v, ..c }
}

/// `c` with `cafe_mode` set to `v`.
#[verifier::opaque]
spec fn set_cafe_mode(c: ConfigModel, v: bool) -> ConfigModel {
    ConfigModel { cafe_mode: v, ..c }
}

/// `c` with `default_login_view` set to `v`.
#[verifier::opaque]
spec fn set_default_login_view(c: ConfigModel, v: DefaultLoginView) -> ConfigModel {
    ConfigModel { default_login_view: v, ..c }
}

// ---------------------------------------------------------------------------
// Effect of each entry the writer emits
// ---------------------------------------------------------------------------

#[verifier::spinoff_prover]
proof fn lemma_apply_game_path(c: ConfigModel, v: Seq<char>)
    ensures
        ini_apply(c, "game"@, "path"@, v) == set_game_path(c, v),
        plain_key("path"@),
{
    reveal(ini_apply);
    reveal(set_game_path);
    reveal(names_entry);
    reveal_strlit("general");
    assert("general"@.len() == 7);
    reveal_strlit("game");
    assert("game"@.len() == 4);
    reveal_strlit("appearance");
    assert("appearance"@.len() == 10);
    reveal_strlit("window");
    assert("window"@.len() == 6);
    reveal_strlit("path");
    assert("path"@.len() == 4);
    reveal_strlit("locale");
    assert("locale"@.len() == 6);
    reveal_strlit("skip_play_confirm");
    assert("skip_play_confirm"@.len() == 17);
    reveal_strlit("web_launch_auto_launch");
    assert("web_launch_auto_launch"@.len() == 22);
    reveal_strlit("web_launch_auto_paste");
    assert("web_launch_auto_paste"@.len() == 21);
}

#[verifier::spinoff_prover]
proof fn lemma_apply_locale(c: ConfigModel, v: Seq<char>)
    ensures
        ini_apply(c, "game"@, "locale"@, v) == set_locale(c, v),
        plain_key("locale"@),
{
    reveal(ini_apply);
    reveal(set_locale);
    reveal(names_entry);
    reveal_strlit("general");
    assert("general"@.len() == 7);
    reveal_strlit("game");
    assert("game"@.len() == 4);
    reveal_strlit("appearance");
    assert("appearance"@.len() == 10);
    reveal_strlit("window");
    assert("window"@.len() == 6);
    reveal_strlit("path");
    assert("path"@.len() == 4);
    reveal_strlit("locale");
    assert("locale"@.len() == 6);
    reveal_strlit("skip_play_confirm");
    assert("skip_play_confirm"@.len() == 17);
    reveal_strlit("web_launch_auto_launch");
    assert("web_launch_auto_launch"@.len() == 22);
    reveal_strlit("web_launch_auto_paste");
    assert("web_launch_auto_paste"@.len() == 21);
}

#[verifier::spinoff_prover]
proof fn lemma_apply_theme(c: ConfigModel, v: Seq<char>)
    ensures
        ini_apply(c, "appearance"@, "theme"@, v) == set_theme(c, ini_theme(v)),
        plain_key("theme"@),
{
    reveal(ini_apply);
    reveal(set_theme);
    reveal(names_entry);
    reveal_strlit("general");
    assert("general"@.len() == 7);
    reveal_strlit("game");
    assert("game"@.len() == 4);
    reveal_strlit("appearance");
    assert("appearance"@.len() == 10);
    reveal_strlit("window");
    assert("window"@.len() == 6);
    reveal_strlit("theme");
    assert("theme"@.len() == 5);
    reveal_strlit("font_size");
    assert("font_size"@.len() == 9);
    reveal_strlit("account_view_mode");
    assert("account_view_mode"@.len() == 17);
}

#[verifier::spinoff_prover]
proof fn lemma_apply_language(c: ConfigModel, v: Seq<char>)
    ensures
        ini_apply(c, "general"@, "language"@, v) == set_language(c, ini_language(v)),
        plain_key("language"@),
{
    reveal(ini_apply);
    reveal(set_language);
    reveal(names_entry);
    reveal_strlit("general");
    assert("general"@.len() == 7);
    reveal_strlit("game");
    assert("game"@.len() == 4);
    reveal_strlit("appearance");
    assert("appearance"@.len() == 10);
    reveal_strlit("window");
    assert("window"@.len() == 6);
    reveal_strlit("language");
    assert("language"@.len() == 8);
    reveal_strlit("auto_update");
    assert("auto_update"@.len() == 11);
    reveal_strlit("update_channel");
    assert("update_channel"@.len() == 14);
    reveal_strlit("auto_start");
    assert("auto_start"@.len() == 10);
    reveal_strlit("region");
    assert("region"@.len() == 6);
    reveal_strlit("debug_logging");
    assert("debug_logging"@.len() == 13);
    reveal_strlit("gamepass_incognito");
    assert("gamepass_incognito"@.len() == 18);
    reveal_strlit("traditional_login");
    assert("traditional_login"@.len() == 17);
    reveal_strlit("auto_kill_patcher");
    assert("auto_kill_patcher"@.len() == 17);
    reveal_strlit("auto_login");
    assert("auto_login"@.len() == 10);
    reveal_strlit("auto_launch_game");
    assert("auto_launch_game"@.len() == 16);
    reveal_strlit("close_behavior");
    assert("close_behavior"@.len() == 14);
    reveal_strlit("hide_account_names");
    assert("hide_account_names"@.len() == 18);
    reveal_strlit("beanfun_rename_dismissed");
    assert("beanfun_rename_dismissed"@.len() == 24);
    reveal_strlit("cafe_mode");
    assert("cafe_mode"@.len() == 9);
    reveal_strlit("default_login_view");
    assert("default_login_view"@.len() == 18);
}

#[verifier::spinoff_prover]
proof fn lemma_apply_auto_update(c: ConfigModel, v: Seq<char>)
    ensures
        ini_apply(c, "general"@, "auto_update"@, v) == set_auto_update(c, ini_bool(v, default_config().auto_update)),
        plain_key("auto_update"@),
{
    reveal(ini_apply);
    reveal(set_auto_update);
    reveal(names_entry);
    reveal_strlit("general");
    assert("general"@.len() == 7);
    reveal_strlit("game");
    assert("game"@.len() == 4);
    reveal_strlit("appearance");
    assert("appearance"@.len() == 10);
    reveal_strlit("window");
    assert("window"@.len() == 6);
    reveal_strlit("language");
    assert("language"@.len() == 8);
    reveal_strlit("auto_update");
    assert("auto_update"@.len() == 11);
    reveal_strlit("update_channel");
    assert("update_channel"@.len() == 14);
    reveal_strlit("auto_start");
    assert("auto_start"@.len() == 10);
    reveal_strlit("region");
    assert("region"@.len() == 6);
    reveal_strlit("debug_logging");
    assert("debug_logging"@.len() == 13);
    reveal_strlit("gamepass_incognito");
    assert("gamepass_incognito"@.len() == 18);
    reveal_strlit("traditional_login");
    assert("traditional_login"@.len() == 17);
    reveal_strlit("auto_kill_patcher");
    assert("auto_kill_patcher"@.len() == 17);
    reveal_strlit("auto_login");
    assert("auto_login"@.len() == 10);
    reveal_strlit("auto_launch_game");
    assert("auto_launch_game"@.len() == 16);
    reveal_strlit("close_behavior");
    assert("close_behavior"@.len() == 14);
    reveal_strlit("hide_account_names");
    assert("hide_account_names"@.len() == 18);
    reveal_strlit("beanfun_rename_dismissed");
    assert("beanfun_rename_dismissed"@.len() == 24);
    reveal_strlit("cafe_mode");
    assert("cafe_mode"@.len() == 9);
    reveal_strlit("default_login_view");
    assert("default_login_view"@.len() == 18);
}

#[verifier::spinoff_prover]
proof fn lemma_apply_update_channel(c: ConfigModel, v: Seq<char>)
    ensures
        ini_apply(c, "general"@, "update_channel"@, v) == set_update_channel(c, ini_update_channel(v)),
        plain_key("update_channel"@),
{
    reveal(ini_apply);
    reveal(set_update_channel);
    reveal(names_entry);
    reveal_strlit("general");
    assert("general"@.len() == 7);
    reveal_strlit("game");
    assert("game"@.len() == 4);
    reveal_strlit("appearance");
    assert("appearance"@.len() == 10);
    reveal_strlit("window");
    assert("window"@.len() == 6);
    reveal_strlit("language");
    assert("language"@.len() == 8);
    reveal_strlit("auto_update");
    assert("auto_update"@.len() == 11);
    reveal_strlit("update_channel");
    assert("update_channel"@.len() == 14);
    reveal_strlit("auto_start");
    assert("auto_start"@.len() == 10);
    reveal_strlit("region");
    assert("region"@.len() == 6);
    reveal_strlit("debug_logging");
    assert("debug_logging"@.len() == 13);
    reveal_strlit("gamepass_incognito");
    assert("gamepass_incognito"@.len() == 18);
    reveal_strlit("traditional_login");
    assert("traditional_login"@.len() == 17);
    reveal_strlit("auto_kill_patcher");
    assert("auto_kill_patcher"@.len() == 17);
    reveal_strlit("auto_login");
    assert("auto_login"@.len() == 10);
    reveal_strlit("auto_launch_game");
    assert("auto_launch_game"@.len() == 16);
    reveal_strlit("close_behavior");
    assert("close_behavior"@.len() == 14);
    reveal_strlit("hide_account_names");
    assert("hide_account_names"@.len() == 18);
    reveal_strlit("beanfun_rename_dismissed");
    assert("beanfun_rename_dismissed"@.len() == 24);
    reveal_strlit("cafe_mode");
    assert("cafe_mode"@.len() == 9);
    reveal_strlit("default_login_view");
    assert("default_login_view"@.len() == 18);
    assert("update_channel"@[0] != "close_behavior"@[0]);
}

#[verifier::spinoff_prover]
proof fn lemma_apply_skip_play_confirm(c: ConfigModel, v: Seq<char>)
    ensures
        ini_apply(c, "game"@, "skip_play_confirm"@, v) == set_skip_play_confirm(c, ini_bool(v, default_config().skip_play_confirm)),
        plain_key("skip_play_confirm"@),
{
    reveal(ini_apply);
    reveal(set_skip_play_confirm);
    reveal(names_entry);
    reveal_strlit("general");
    assert("general"@.len() == 7);
    reveal_strlit("game");
    assert("game"@.len() == 4);
    reveal_strlit("appearance");
    assert("appearance"@.len() == 10);
    reveal_strlit("window");
    assert("window"@.len() == 6);
    reveal_strlit("path");
    assert("path"@.len() == 4);
    reveal_strlit("locale");
    assert("locale"@.len() == 6);
    reveal_strlit("skip_play_confirm");
    assert("skip_play_confirm"@.len() == 17);
    reveal_strlit("web_launch_auto_launch");
    assert("web_launch_auto_launch"@.len() == 22);
    reveal_strlit("web_launch_auto_paste");
    assert("web_launch_auto_paste"@.len() == 21);
}

#[verifier::spinoff_prover]
proof fn lemma_apply_auto_start(c: ConfigModel, v: Seq<char>)
    ensures
        ini_apply(c, "general"@, "auto_start"@, v) == set_auto_start(c, ini_bool(v, default_config().auto_start)),
        plain_key("auto_start"@),
{
    reveal(ini_apply);
    reveal(set_auto_start);
    reveal(names_entry);
    reveal_strlit("general");
    assert("general"@.len() == 7);
    reveal_strlit("game");
    assert("game"@.len() == 4);
    reveal_strlit("appearance");
    assert("appearance"@.len() == 10);
    reveal_strlit("window");
    assert("window"@.len() == 6);
    reveal_strlit("language");
    assert("language"@.len() == 8);
    reveal_strlit("auto_update");
    assert("auto_update"@.len() == 11);
    reveal_strlit("update_channel");
    assert("update_channel"@.len() == 14);
    reveal_strlit("auto_start");
    assert("auto_start"@.len() == 10);
    reveal_strlit("region");
    assert("region"@.len() == 6);
    reveal_strlit("debug_logging");
    assert("debug_logging"@.len() == 13);
    reveal_strlit("gamepass_incognito");
    assert("gamepass_incognito"@.len() == 18);
    reveal_strlit("traditional_login");
    assert("traditional_login"@.len() == 17);
    reveal_strlit("auto_kill_patcher");
    assert("auto_kill_patcher"@.len() == 17);
    reveal_strlit("auto_login");
    assert("auto_login"@.len() == 10);
    reveal_strlit("auto_launch_game");
    assert("auto_launch_game"@.len() == 16);
    reveal_strlit("close_behavior");
    assert("close_behavior"@.len() == 14);
    reveal_strlit("hide_account_names");
    assert("hide_account_names"@.len() == 18);
    reveal_strlit("beanfun_rename_dismissed");
    assert("beanfun_rename_dismissed"@.len() == 24);
    reveal_strlit("cafe_mode");
    assert("cafe_mode"@.len() == 9);
    reveal_strlit("default_login_view");
    assert("default_login_view"@.len() == 18);
    assert("auto_start"@[5] != "auto_login"@[5]);
}

#[verifier::spinoff_prover]
proof fn lemma_apply_window_x(c: ConfigModel, v: Seq<char>)
    ensures
        ini_apply(c, "window"@, "x"@, v) == set_window_x(c, parse_i32_spec(v)),
        plain_key("x"@),
{
    reveal(ini_apply);
    reveal(set_window_x);
    reveal(names_entry);
    reveal_strlit("general");
    assert("general"@.len() == 7);
    reveal_strlit("game");
    assert("game"@.len() == 4);
    reveal_strlit("appearance");
    assert("appearance"@.len() == 10);
    reveal_strlit("window");
    assert("window"@.len() == 6);
    reveal_strlit("x");
    assert("x"@.len() == 1);
    reveal_strlit("y");
    assert("y"@.len() == 1);
    reveal_strlit("width");
    assert("width"@.len() == 5);
    reveal_strlit("height");
    assert("height"@.len() == 6);
    assert("x"@[0] != "y"@[0]);
}

#[verifier::spinoff_prover]
proof fn lemma_apply_window_y(c: ConfigModel, v: Seq<char>)
    ensures
        ini_apply(c, "window"@, "y"@, v) == set_window_y(c, parse_i32_spec(v)),
        plain_key("y"@),
{
    reveal(ini_apply);
    reveal(set_window_y);
    reveal(names_entry);
    reveal_strlit("general");
    assert("general"@.len() == 7);
    reveal_strlit("game");
    assert("game"@.len() == 4);
    reveal_strlit("appearance");
    assert("appearance"@.len() == 10);
    reveal_strlit("window");
    assert("window"@.len() == 6);
    reveal_strlit("x");
    assert("x"@.len() == 1);
    reveal_strlit("y");
    assert("y"@.len() == 1);
    reveal_strlit("width");
    assert("width"@.len() == 5);
    reveal_strlit("height");
    assert("height"@.len() == 6);
    assert("y"@[0] != "x"@[0]);
}

#[verifier::spinoff_prover]
proof fn lemma_apply_window_width(c: ConfigModel, v: Seq<char>)
    ensures
        ini_apply(c, "window"@, "width"@, v) == set_window_width(c, parse_u32_spec(v)),
        plain_key("width"@),
{
    reveal(ini_apply);
    reveal(set_window_width);
    reveal(names_entry);
    reveal_strlit("general");
    assert("general"@.len() == 7);
    reveal_strlit("game");
    assert("game"@.len() == 4);
    reveal_strlit("appearance");
    assert("appearance"@.len() == 10);
    reveal_strlit("window");
    assert("window"@.len() == 6);
    reveal_strlit("x");
    assert("x"@.len() == 1);
    reveal_strlit("y");
    assert("y"@.len() == 1);
    reveal_strlit("width");
    assert("width"@.len() == 5);
    reveal_strlit("height");
    assert("height"@.len() == 6);
}

#[verifier::spinoff_prover]
proof fn lemma_apply_window_height(c: ConfigModel, v: Seq<char>)
    ensures
        ini_apply(c, "window"@, "height"@, v) == set_window_height(c, parse_u32_spec(v)),
        plain_key("height"@),
{
    reveal(ini_apply);
    reveal(set_window_height);
    reveal(names_entry);
    reveal_strlit("general");
    assert("general"@.len() == 7);
    reveal_strlit("game");
    assert("game"@.len() == 4);
    reveal_strlit("appearance");
    assert("appearance"@.len() == 10);
    reveal_strlit("window");
    assert("window"@.len() == 6);
    reveal_strlit("x");
    assert("x"@.len() == 1);
    reveal_strlit("y");
    assert("y"@.len() == 1);
    reveal_strlit("width");
    assert("width"@.len() == 5);
    reveal_strlit("height");
    assert("height"@.len() == 6);
}

#[verifier::spinoff_prover]
proof fn lemma_apply_region(c: ConfigModel, v: Seq<char>)
    ensures
        ini_apply(c, "general"@, "region"@, v) == set_region(c, ini_region(v)),
        plain_key("region"@),
{
    reveal(ini_apply);
    reveal(set_region);
    reveal(names_entry);
    reveal_strlit("general");
    assert("general"@.len() == 7);
    reveal_strlit("game");
    assert("game"@.len() == 4);
    reveal_strlit("appearance");
    assert("appearance"@.len() == 10);
    reveal_strlit("window");
    assert("window"@.len() == 6);
    reveal_strlit("language");
    assert("language"@.len() == 8);
    reveal_strlit("auto_update");
    assert("auto_update"@.len() == 11);
    reveal_strlit("update_channel");
    assert("update_channel"@.len() == 14);
    reveal_strlit("auto_start");
    assert("auto_start"@.len() == 10);
    reveal_strlit("region");
    assert("region"@.len() == 6);
    reveal_strlit("debug_logging");
    assert("debug_logging"@.len() == 13);
    reveal_strlit("gamepass_incognito");
    assert("gamepass_incognito"@.len() == 18);
    reveal_strlit("traditional_login");
    assert("traditional_login"@.len() == 17);
    reveal_strlit("auto_kill_patcher");
    assert("auto_kill_patcher"@.len() == 17);
    reveal_strlit("auto_login");
    assert("auto_login"@.len() == 10);
    reveal_strlit("auto_launch_game");
    assert("auto_launch_game"@.len() == 16);
    reveal_strlit("close_behavior");
    assert("close_behavior"@.len() == 14);
    reveal_strlit("hide_account_names");
    assert("hide_account_names"@.len() == 18);
    reveal_strlit("beanfun_rename_dismissed");
    assert("beanfun_rename_dismissed"@.len() == 24);
    reveal_strlit("cafe_mode");
    assert("cafe_mode"@.len() == 9);
    reveal_strlit("default_login_view");
    assert("default_login_view"@.len() == 18);
}

#[verifier::spinoff_prover]
proof fn lemma_apply_debug_logging(c: ConfigModel, v: Seq<char>)
    ensures
        ini_apply(c, "general"@, "debug_logging"@, v) == set_debug_logging(c, ini_bool(v, default_config().debug_logging)),
        plain_key("debug_logging"@),
{
    reveal(ini_apply);
    reveal(set_debug_logging);
    reveal(names_entry);
    reveal_strlit("general");
    assert("general"@.len() == 7);
    reveal_strlit("game");
    assert("game"@.len() == 4);
    reveal_strlit("appearance");
    assert("appearance"@.len() == 10);
    reveal_strlit("window");
    assert("window"@.len() == 6);
    reveal_strlit("language");
    assert("language"@.len() == 8);
    reveal_strlit("auto_update");
    assert("auto_update"@.len() == 11);
    reveal_strlit("update_channel");
    assert("update_channel"@.len() == 14);
    reveal_strlit("auto_start");
    assert("auto_start"@.len() == 10);
    reveal_strlit("region");
    assert("region"@.len() == 6);
    reveal_strlit("debug_logging");
    assert("debug_logging"@.len() == 13);
    reveal_strlit("gamepass_incognito");
    assert("gamepass_incognito"@.len() == 18);
    reveal_strlit("traditional_login");
    assert("traditional_login"@.len() == 17);
    reveal_strlit("auto_kill_patcher");
    assert("auto_kill_patcher"@.len() == 17);
    reveal_strlit("auto_login");
    assert("auto_login"@.len() == 10);
    reveal_strlit("auto_launch_game");
    assert("auto_launch_game"@.len() == 16);
    reveal_strlit("close_behavior");
    assert("close_behavior"@.len() == 14);
    reveal_strlit("hide_account_names");
    assert("hide_account_names"@.len() == 18);
    reveal_strlit("beanfun_rename_dismissed");
    assert("beanfun_rename_dismissed"@.len() == 24);
    reveal_strlit("cafe_mode");
    assert("cafe_mode"@.len() == 9);
    reveal_strlit("default_login_view");
    assert("default_login_view"@.len() == 18);
}

#[verifier::spinoff_prover]
proof fn lemma_apply_gamepass_incognito(c: ConfigModel, v: Seq<char>)
    ensures
        ini_apply(c, "general"@, "gamepass_incognito"@, v) == set_gamepass_incognito(c, ini_bool(v, default_config().gamepass_incognito)),
        plain_key("gamepass_incognito"@),
{
    reveal(ini_apply);
    reveal(set_gamepass_incognito);
    reveal(names_entry);
    reveal_strlit("general");
    assert("general"@.len() == 7);
    reveal_strlit("game");
    assert("game"@.len() == 4);
    reveal_strlit("appearance");
    assert("appearance"@.len() == 10);
    reveal_strlit("window");
    assert("window"@.len() == 6);
    reveal_strlit("language");
    assert("language"@.len() == 8);
    reveal_strlit("auto_update");
    assert("auto_update"@.len() == 11);
    reveal_strlit("update_channel");
    assert("update_channel"@.len() == 14);
    reveal_strlit("auto_start");
    assert("auto_start"@.len() == 10);
    reveal_strlit("region");
    assert("region"@.len() == 6);
    reveal_strlit("debug_logging");
    assert("debug_logging"@.len() == 13);
    reveal_strlit("gamepass_incognito");
    assert("gamepass_incognito"@.len() == 18);
    reveal_strlit("traditional_login");
    assert("traditional_login"@.len() == 17);
    reveal_strlit("auto_kill_patcher");
    assert("auto_kill_patcher"@.len() == 17);
    reveal_strlit("auto_login");
    assert("auto_login"@.len() == 10);
    reveal_strlit("auto_launch_game");
    assert("auto_launch_game"@.len() == 16);
    reveal_strlit("close_behavior");
    assert("close_behavior"@.len() == 14);
    reveal_strlit("hide_account_names");
    assert("hide_account_names"@.len() == 18);
    reveal_strlit("beanfun_rename_dismissed");
    assert("beanfun_rename_dismissed"@.len() == 24);
    reveal_strlit("cafe_mode");
    assert("cafe_mode"@.len() == 9);
    reveal_strlit("default_login_view");
    assert("default_login_view"@.len() == 18);
    assert("gamepass_incognito"@[0] != "hide_account_names"@[0]);
    assert("gamepass_incognito"@[0] != "default_login_view"@[0]);
}

#[verifier::spinoff_prover]
proof fn lemma_apply_font_size(c: ConfigModel, v: Seq<char>)
    ensures
        ini_apply(c, "appearance"@, "font_size"@, v) == set_font_size(c, ini_font_size(v)),
        plain_key("font_size"@),
{
    reveal(ini_apply);
    reveal(set_font_size);
    reveal(names_entry);
    reveal_strlit("general");
    assert("general"@.len() == 7);
    reveal_strlit("game");
    assert("game"@.len() == 4);
    reveal_strlit("appearance");
    assert("appearance"@.len() == 10);
    reveal_strlit("window");
    assert("window"@.len() == 6);
    reveal_strlit("theme");
    assert("theme"@.len() == 5);
    reveal_strlit("font_size");
    assert("font_size"@.len() == 9);
    reveal_strlit("account_view_mode");
    assert("account_view_mode"@.len() == 17);
}

#[verifier::spinoff_prover]
proof fn lemma_apply_traditional_login(c: ConfigModel, v: Seq<char>)
    ensures
        ini_apply(c, "general"@, "traditional_login"@, v) == set_traditional_login(c, ini_bool(v, default_config().traditional_login)),
        plain_key("traditional_login"@),
{
    reveal(ini_apply);
    reveal(set_traditional_login);
    reveal(names_entry);
    reveal_strlit("general");
    assert("general"@.len() == 7);
    reveal_strlit("game");
    assert("game"@.len() == 4);
    reveal_strlit("appearance");
    assert("appearance"@.len() == 10);
    reveal_strlit("window");
    assert("window"@.len() == 6);
    reveal_strlit("language");
    assert("language"@.len() == 8);
    reveal_strlit("auto_update");
    assert("auto_update"@.len() == 11);
    reveal_strlit("update_channel");
    assert("update_channel"@.len() == 14);
    reveal_strlit("auto_start");
    assert("auto_start"@.len() == 10);
    reveal_strlit("region");
    assert("region"@.len() == 6);
    reveal_strlit("debug_logging");
    assert("debug_logging"@.len() == 13);
    reveal_strlit("gamepass_incognito");
    assert("gamepass_incognito"@.len() == 18);
    reveal_strlit("traditional_login");
    assert("traditional_login"@.len() == 17);
    reveal_strlit("auto_kill_patcher");
    assert("auto_kill_patcher"@.len() == 17);
    reveal_strlit("auto_login");
    assert("auto_login"@.len() == 10);
    reveal_strlit("auto_launch_game");
    assert("auto_launch_game"@.len() == 16);
    reveal_strlit("close_behavior");
    assert("close_behavior"@.len() == 14);
    reveal_strlit("hide_account_names");
    assert("hide_account_names"@.len() == 18);
    reveal_strlit("beanfun_rename_dismissed");
    assert("beanfun_rename_dismissed"@.len() == 24);
    reveal_strlit("cafe_mode");
    assert("cafe_mode"@.len() == 9);
    reveal_strlit("default_login_view");
    assert("default_login_view"@.len() == 18);
    assert("traditional_login"@[0] != "auto_kill_patcher"@[0]);
}

#[verifier::spinoff_prover]
proof fn lemma_apply_auto_kill_patcher(c: ConfigModel, v: Seq<char>)
    ensures
        ini_apply(c, "general"@, "auto_kill_patcher"@, v) == set_auto_kill_patcher(c, ini_bool(v, default_config().auto_kill_patcher)),
        plain_key("auto_kill_patcher"@),
{
    reveal(ini_apply);
    reveal(set_auto_kill_patcher);
    reveal(names_entry);
    reveal_strlit("general");
    assert("general"@.len() == 7);
    reveal_strlit("game");
    assert("game"@.len() == 4);
    reveal_strlit("appearance");
    assert("appearance"@.len() == 10);
    reveal_strlit("window");
    assert("window"@.len() == 6);
    reveal_strlit("language");
    assert("language"@.len() == 8);
    reveal_strlit("auto_update");
    assert("auto_update"@.len() == 11);
    reveal_strlit("update_channel");
    assert("update_channel"@.len() == 14);
    reveal_strlit("auto_start");
    assert("auto_start"@.len() == 10);
    reveal_strlit("region");
    assert("region"@.len() == 6);
    reveal_strlit("debug_logging");
    assert("debug_logging"@.len() == 13);
    reveal_strlit("gamepass_incognito");
    assert("gamepass_incognito"@.len() == 18);
    reveal_strlit("traditional_login");
    assert("traditional_login"@.len() == 17);
    reveal_strlit("auto_kill_patcher");
    assert("auto_kill_patcher"@.len() == 17);
    reveal_strlit("auto_login");
    assert("auto_login"@.len() == 10);
    reveal_strlit("auto_launch_game");
    assert("auto_launch_game"@.len() == 16);
    reveal_strlit("close_behavior");
    assert("close_behavior"@.len() == 14);
    reveal_strlit("hide_account_names");
    assert("hide_account_names"@.len() == 18);
    reveal_strlit("beanfun_rename_dismissed");
    assert("beanfun_rename_dismissed"@.len() == 24);
    reveal_strlit("cafe_mode");
    assert("cafe_mode"@.len() == 9);
    reveal_strlit("default_login_view");
    assert("default_login_view"@.len() == 18);
    assert("auto_kill_patcher"@[0] != "traditional_login"@[0]);
}

#[verifier::spinoff_prover]
proof fn lemma_apply_account_view_mode(c: ConfigModel, v: Seq<char>)
    ensures
        ini_apply(c, "appearance"@, "account_view_mode"@, v) == set_account_view_mode(c, ini_account_view_mode(v)),
        plain_key("account_view_mode"@),
{
    reveal(ini_apply);
    reveal(set_account_view_mode);
    reveal(names_entry);
    reveal_strlit("general");
    assert("general"@.len() == 7);
    reveal_strlit("game");
    assert("game"@.len() == 4);
    reveal_strlit("appearance");
    assert("appearance"@.len() == 10);
    reveal_strlit("window");
    assert("window"@.len() == 6);
    reveal_strlit("theme");
    assert("theme"@.len() == 5);
    reveal_strlit("font_size");
    assert("font_size"@.len() == 9);
    reveal_strlit("account_view_mode");
    assert("account_view_mode"@.len() == 17);
}

#[verifier::spinoff_prover]
proof fn lemma_apply_auto_login(c: ConfigModel, v: Seq<char>)
    ensures
        ini_apply(c, "general"@, "auto_login"@, v) == set_auto_login(c, ini_bool(v, default_config().auto_login)),
        plain_key("auto_login"@),
{
    reveal(ini_apply);
    reveal(set_auto_login);
    reveal(names_entry);
    reveal_strlit("general");
    assert("general"@.len() == 7);
    reveal_strlit("game");
    assert("game"@.len() == 4);
    reveal_strlit("appearance");
    assert("appearance"@.len() == 10);
    reveal_strlit("window");
    assert("window"@.len() == 6);
    reveal_strlit("language");
    assert("language"@.len() == 8);
    reveal_strlit("auto_update");
    assert("auto_update"@.len() == 11);
    reveal_strlit("update_channel");
    assert("update_channel"@.len() == 14);
    reveal_strlit("auto_start");
    assert("auto_start"@.len() == 10);
    reveal_strlit("region");
    assert("region"@.len() == 6);
    reveal_strlit("debug_logging");
    assert("debug_logging"@.len() == 13);
    reveal_strlit("gamepass_incognito");
    assert("gamepass_incognito"@.len() == 18);
    reveal_strlit("traditional_login");
    assert("traditional_login"@.len() == 17);
    reveal_strlit("auto_kill_patcher");
    assert("auto_kill_patcher"@.len() == 17);
    reveal_strlit("auto_login");
    assert("auto_login"@.len() == 10);
    reveal_strlit("auto_launch_game");
    assert("auto_launch_game"@.len() == 16);
    reveal_strlit("close_behavior");
    assert("close_behavior"@.len() == 14);
    reveal_strlit("hide_account_names");
    assert("hide_account_names"@.len() == 18);
    reveal_strlit("beanfun_rename_dismissed");
    assert("beanfun_rename_dismissed"@.len() == 24);
    reveal_strlit("cafe_mode");
    assert("cafe_mode"@.len() == 9);
    reveal_strlit("default_login_view");
    assert("default_login_view"@.len() == 18);
    assert("auto_login"@[5] != "auto_start"@[5]);
}

#[verifier::spinoff_prover]
proof fn lemma_apply_auto_launch_game(c: ConfigModel, v: Seq<char>)
    ensures
        ini_apply(c, "general"@, "auto_launch_game"@, v) == set_auto_launch_game(c, ini_bool(v, default_config().auto_launch_game)),
        plain_key("auto_launch_game"@),
{
    reveal(ini_apply);
    reveal(set_auto_launch_game);
    reveal(names_entry);
    reveal_strlit("general");
    assert("general"@.len() == 7);
    reveal_strlit("game");
    assert("game"@.len() == 4);
    reveal_strlit("appearance");
    assert("appearance"@.len() == 10);
    reveal_strlit("window");
    assert("window"@.len() == 6);
    reveal_strlit("language");
    assert("language"@.len() == 8);
    reveal_strlit("auto_update");
    assert("auto_update"@.len() == 11);
    reveal_strlit("update_channel");
    assert("update_channel"@.len() == 14);
    reveal_strlit("auto_start");
    assert("auto_start"@.len() == 10);
    reveal_strlit("region");
    assert("region"@.len() == 6);
    reveal_strlit("debug_logging");
    assert("debug_logging"@.len() == 13);
    reveal_strlit("gamepass_incognito");
    assert("gamepass_incognito"@.len() == 18);
    reveal_strlit("traditional_login");
    assert("traditional_login"@.len() == 17);
    reveal_strlit("auto_kill_patcher");
    assert("auto_kill_patcher"@.len() == 17);
    reveal_strlit("auto_login");
    assert("auto_login"@.len() == 10);
    reveal_strlit("auto_launch_game");
    assert("auto_launch_game"@.len() == 16);
    reveal_strlit("close_behavior");
    assert("close_behavior"@.len() == 14);
    reveal_strlit("hide_account_names");
    assert("hide_account_names"@.len() == 18);
    reveal_strlit("beanfun_rename_dismissed");
    assert("beanfun_rename_dismissed"@.len() == 24);
    reveal_strlit("cafe_mode");
    assert("cafe_mode"@.len() == 9);
    reveal_strlit("default_login_view");
    assert("default_login_view"@.len() == 18);
}

#[verifier::spinoff_prover]
proof fn lemma_apply_web_launch_auto_launch(c: ConfigModel, v: Seq<char>)
    ensures
        ini_apply(c, "game"@, "web_launch_auto_launch"@, v) == set_web_launch_auto_launch(c, ini_bool(v, default_config().web_launch_auto_launch)),
        plain_key("web_launch_auto_launch"@),
{
    reveal(ini_apply);
    reveal(set_web_launch_auto_launch);
    reveal(names_entry);
    reveal_strlit("general");
    assert("general"@.len() == 7);
    reveal_strlit("game");
    assert("game"@.len() == 4);
    reveal_strlit("appearance");
    assert("appearance"@.len() == 10);
    reveal_strlit("window");
    assert("window"@.len() == 6);
    reveal_strlit("path");
    assert("path"@.len() == 4);
    reveal_strlit("locale");
    assert("locale"@.len() == 6);
    reveal_strlit("skip_play_confirm");
    assert("skip_play_confirm"@.len() == 17);
    reveal_strlit("web_launch_auto_launch");
    assert("web_launch_auto_launch"@.len() == 22);
    reveal_strlit("web_launch_auto_paste");
    assert("web_launch_auto_paste"@.len() == 21);
}

#[verifier::spinoff_prover]
proof fn lemma_apply_web_launch_auto_paste(c: ConfigModel, v: Seq<char>)
    ensures
        ini_apply(c, "game"@, "web_launch_auto_paste"@, v) == set_web_launch_auto_paste(c, ini_bool(v, default_config().web_launch_auto_paste)),
        plain_key("web_launch_auto_paste"@),
{
    reveal(ini_apply);
    reveal(set_web_launch_auto_paste);
    reveal(names_entry);
    reveal_strlit("general");
    assert("general"@.len() == 7);
    reveal_strlit("game");
    assert("game"@.len() == 4);
    reveal_strlit("appearance");
    assert("appearance"@.len() == 10);
    reveal_strlit("window");
    assert("window"@.len() == 6);
    reveal_strlit("path");
    assert("path"@.len() == 4);
    reveal_strlit("locale");
    assert("locale"@.len() == 6);
    reveal_strlit("skip_play_confirm");
    assert("skip_play_confirm"@.len() == 17);
    reveal_strlit("web_launch_auto_launch");
    assert("web_launch_auto_launch"@.len() == 22);
    reveal_strlit("web_launch_auto_paste");
    assert("web_launch_auto_paste"@.len() == 21);
}

#[verifier::spinoff_prover]
proof fn lemma_apply_close_behavior(c: ConfigModel, v: Seq<char>)
    ensures
        ini_apply(c, "general"@, "close_behavior"@, v) == set_close_behavior(c, ini_close_behavior(v)),
        plain_key("close_behavior"@),
{
    reveal(ini_apply);
    reveal(set_close_behavior);
    reveal(names_entry);
    reveal_strlit("general");
    assert("general"@.len() == 7);
    reveal_strlit("game");
    assert("game"@.len() == 4);
    reveal_strlit("appearance");
    assert("appearance"@.len() == 10);
    reveal_strlit("window");
    assert("window"@.len() == 6);
    reveal_strlit("language");
    assert("language"@.len() == 8);
    reveal_strlit("auto_update");
    assert("auto_update"@.len() == 11);
    reveal_strlit("update_channel");
    assert("update_channel"@.len() == 14);
    reveal_strlit("auto_start");
    assert("auto_start"@.len() == 10);
    reveal_strlit("region");
    assert("region"@.len() == 6);
    reveal_strlit("debug_logging");
    assert("debug_logging"@.len() == 13);
    reveal_strlit("gamepass_incognito");
    assert("gamepass_incognito"@.len() == 18);
    reveal_strlit("traditional_login");
    assert("traditional_login"@.len() == 17);
    reveal_strlit("auto_kill_patcher");
    assert("auto_kill_patcher"@.len() == 17);
    reveal_strlit("auto_login");
    assert("auto_login"@.len() == 10);
    reveal_strlit("auto_launch_game");
    assert("auto_launch_game"@.len() == 16);
    reveal_strlit("close_behavior");
    assert("close_behavior"@.len() == 14);
    reveal_strlit("hide_account_names");
    assert("hide_account_names"@.len() == 18);
    reveal_strlit("beanfun_rename_dismissed");
    assert("beanfun_rename_dismissed"@.len() == 24);
    reveal_strlit("cafe_mode");
    assert("cafe_mode"@.len() == 9);
    reveal_strlit("default_login_view");
    assert("default_login_view"@.len() == 18);
    assert("close_behavior"@[0] != "update_channel"@[0]);
}

#[verifier::spinoff_prover]
proof fn lemma_apply_hide_account_names(c: ConfigModel, v: Seq<char>)
    ensures
        ini_apply(c, "general"@, "hide_account_names"@, v) == set_hide_account_names(c, ini_bool(v, default_config().hide_account_names)),
        plain_key("hide_account_names"@),
{
    reveal(ini_apply);
    reveal(set_hide_account_names);
    reveal(names_entry);
    reveal_strlit("general");
    assert("general"@.len() == 7);
    reveal_strlit("game");
    assert("game"@.len() == 4);
    reveal_strlit("appearance");
    assert("appearance"@.len() == 10);
    reveal_strlit("window");
    assert("window"@.len() == 6);
    reveal_strlit("language");
    assert("language"@.len() == 8);
    reveal_strlit("auto_update");
    assert("auto_update"@.len() == 11);
    reveal_strlit("update_channel");
    assert("update_channel"@.len() == 14);
    reveal_strlit("auto_start");
    assert("auto_start"@.len() == 10);
    reveal_strlit("region");
    assert("region"@.len() == 6);
    reveal_strlit("debug_logging");
    assert("debug_logging"@.len() == 13);
    reveal_strlit("gamepass_incognito");
    assert("gamepass_incognito"@.len() == 18);
    reveal_strlit("traditional_login");
    assert("traditional_login"@.len() == 17);
    reveal_strlit("auto_kill_patcher");
    assert("auto_kill_patcher"@.len() == 17);
    reveal_strlit("auto_login");
    assert("auto_login"@.len() == 10);
    reveal_strlit("auto_launch_game");
    assert("auto_launch_game"@.len() == 16);
    reveal_strlit("close_behavior");
    assert("close_behavior"@.len() == 14);
    reveal_strlit("hide_account_names");
    assert("hide_account_names"@.len() == 18);
    reveal_strlit("beanfun_rename_dismissed");
    assert("beanfun_rename_dismissed"@.len() == 24);
    reveal_strlit("cafe_mode");
    assert("cafe_mode"@.len() == 9);
    reveal_strlit("default_login_view");
    assert("default_login_view"@.len() == 18);
    assert("hide_account_names"@[0] != "gamepass_incognito"@[0]);
    assert("hide_account_names"@[0] != "default_login_view"@[0]);
}

#[verifier::spinoff_prover]
proof fn lemma_apply_beanfun_rename_dismissed(c: ConfigModel, v: Seq<char>)
    ensures
        ini_apply(c, "general"@, "beanfun_rename_dismissed"@, v) == set_beanfun_rename_dismissed(c, ini_bool(v, default_config().beanfun_rename_dismissed)),
        plain_key("beanfun_rename_dismissed"@),
{
    reveal(ini_apply);
    reveal(set_beanfun_rename_dismissed);
    reveal(names_entry);
    reveal_strlit("general");
    assert("general"@.len() == 7);
    reveal_strlit("game");
    assert("game"@.len() == 4);
    reveal_strlit("appearance");
    assert("appearance"@.len() == 10);
    reveal_strlit("window");
    assert("window"@.len() == 6);
    reveal_strlit("language");
    assert("language"@.len() == 8);
    reveal_strlit("auto_update");
    assert("auto_update"@.len() == 11);
    reveal_strlit("update_channel");
    assert("update_channel"@.len() == 14);
    reveal_strlit("auto_start");
    assert("auto_start"@.len() == 10);
    reveal_strlit("region");
    assert("region"@.len() == 6);
    reveal_strlit("debug_logging");
    assert("debug_logging"@.len() == 13);
    reveal_strlit("gamepass_incognito");
    assert("gamepass_incognito"@.len() == 18);
    reveal_strlit("traditional_login");
    assert("traditional_login"@.len() == 17);
    reveal_strlit("auto_kill_patcher");
    assert("auto_kill_patcher"@.len() == 17);
    reveal_strlit("auto_login");
    assert("auto_login"@.len() == 10);
    reveal_strlit("auto_launch_game");
    assert("auto_launch_game"@.len() == 16);
    reveal_strlit("close_behavior");
    assert("close_behavior"@.len() == 14);
    reveal_strlit("hide_account_names");
    assert("hide_account_names"@.len() == 18);
    reveal_strlit("beanfun_rename_dismissed");
    assert("beanfun_rename_dismissed"@.len() == 24);
    reveal_strlit("cafe_mode");
    assert("cafe_mode"@.len() == 9);
    reveal_strlit("default_login_view");
    assert("default_login_view"@.len() == 18);
}

#[verifier::spinoff_prover]
proof fn lemma_apply_cafe_mode(c: ConfigModel, v: Seq<char>)
    ensures
        ini_apply(c, "general"@, "cafe_mode"@, v) == set_cafe_mode(c, ini_bool(v, default_config().cafe_mode)),
        plain_key("cafe_mode"@),
{
    reveal(ini_apply);
    reveal(set_cafe_mode);
    reveal(names_entry);
    reveal_strlit("general");
    assert("general"@.len() == 7);
    reveal_strlit("game");
    assert("game"@.len() == 4);
    reveal_strlit("appearance");
    assert("appearance"@.len() == 10);
    reveal_strlit("window");
    assert("window"@.len() == 6);
    reveal_strlit("language");
    assert("language"@.len() == 8);
    reveal_strlit("auto_update");
    assert("auto_update"@.len() == 11);
    reveal_strlit("update_channel");
    assert("update_channel"@.len() == 14);
    reveal_strlit("auto_start");
    assert("auto_start"@.len() == 10);
    reveal_strlit("region");
    assert("region"@.len() == 6);
    reveal_strlit("debug_logging");
    assert("debug_logging"@.len() == 13);
    reveal_strlit("gamepass_incognito");
    assert("gamepass_incognito"@.len() == 18);
    reveal_strlit("traditional_login");
    assert("traditional_login"@.len() == 17);
    reveal_strlit("auto_kill_patcher");
    assert("auto_kill_patcher"@.len() == 17);
    reveal_strlit("auto_login");
    assert("auto_login"@.len() == 10);
    reveal_strlit("auto_launch_game");
    assert("auto_launch_game"@.len() == 16);
    reveal_strlit("close_behavior");
    assert("close_behavior"@.len() == 14);
    reveal_strlit("hide_account_names");
    assert("hide_account_names"@.len() == 18);
    reveal_strlit("beanfun_rename_dismissed");
    assert("beanfun_rename_dismissed"@.len() == 24);
    reveal_strlit("cafe_mode");
    assert("cafe_mode"@.len() == 9);
    reveal_strlit("default_login_view");
    assert("default_login_view"@.len() == 18);
}

#[verifier::spinoff_prover]
proof fn lemma_apply_default_login_view(c: ConfigModel, v: Seq<char>)
    ensures
        ini_apply(c, "general"@, "default_login_view"@, v) == set_default_login_view(c, ini_default_login_view(v)),
        plain_key("default_login_view"@),
{
    reveal(ini_apply);
    reveal(set_default_login_view);
    reveal(names_entry);
    reveal_strlit("general");
    assert("general"@.len() == 7);
    reveal_strlit("game");
    assert("game"@.len() == 4);
    reveal_strlit("appearance");
    assert("appearance"@.len() == 10);
    reveal_strlit("window");
    assert("window"@.len() == 6);
    reveal_strlit("language");
    assert("language"@.len() == 8);
    reveal_strlit("auto_update");
    assert("auto_update"@.len() == 11);
    reveal_strlit("update_channel");
    assert("update_channel"@.len() == 14);
    reveal_strlit("auto_start");
    assert("auto_start"@.len() == 10);
    reveal_strlit("region");
    assert("region"@.len() == 6);
    reveal_strlit("debug_logging");
    assert("debug_logging"@.len() == 13);
    reveal_strlit("gamepass_incognito");
    assert("gamepass_incognito"@.len() == 18);
    reveal_strlit("traditional_login");
    assert("traditional_login"@.len() == 17);
    reveal_strlit("auto_kill_patcher");
    assert("auto_kill_patcher"@.len() == 17);
    reveal_strlit("auto_login");
    assert("auto_login"@.len() == 10);
    reveal_strlit("auto_launch_game");
    assert("auto_launch_game"@.len() == 16);
    reveal_strlit("close_behavior");
    assert("close_behavior"@.len() == 14);
    reveal_strlit("hide_account_names");
    assert("hide_account_names"@.len() == 18);
    reveal_strlit("beanfun_rename_dismissed");
    assert("beanfun_rename_dismissed"@.len() == 24);
    reveal_strlit("cafe_mode");
    assert("cafe_mode"@.len() == 9);
    reveal_strlit("default_login_view");
    assert("default_login_view"@.len() == 18);
    assert("default_login_view"@[0] != "gamepass_incognito"@[0]);
    assert("default_login_view"@[0] != "hide_account_names"@[0]);
}

// ---------------------------------------------------------------------------
// Reading back each block the writer emits
// ---------------------------------------------------------------------------

/// A text that fits on one line and has no surrounding whitespace.
pub open spec fn single_line_trimmed(t: Seq<char>) -> bool {
    trim(t) == t && !t.contains('\n')
}

proof fn lemma_kv_single(key: Seq<char>, v: Seq<char>)
    requires
        plain_key(key),
        !v.contains('\n'),
    ensures
        !kv_line(key, v).contains('\n'),
{
    reveal_strlit(" = ");
    let line = kv_line(key, v);
    assert(line =~= key + seq![' ', '=', ' '] + v);
    if line.contains('\n') {
        let i = choose|i: int| 0 <= i < line.len() && line[i] == '\n';
        if i < key.len() {
            assert(line[i] == key[i]);
        } else if i >= key.len() + 3 {
            assert(line[i] == v[i - key.len() - 3]);
            assert(v.contains('\n'));
        }
    }
}

proof fn lemma_single_append(a: Seq<Seq<char>>, b: Seq<Seq<char>>)
    requires
        single_lines(a),
        single_lines(b),
    ensures
        single_lines(a + b),
{
    assert forall|i: int| 0 <= i < (a + b).len() implies !(#[trigger] (a + b)[i]).contains('\n') by {
        if i < a.len() {
            assert((a + b)[i] == a[i]);
        } else {
            assert((a + b)[i] == b[i - a.len()]);
        }
    }
}

proof fn lemma_header_single(name: Seq<char>)
    requires
        forall|i: int| 0 <= i < name.len() ==> !is_ws(#[trigger] name[i]),
    ensures
        !(seq!['['] + name + seq![']']).contains('\n'),
{
    let line = seq!['['] + name + seq![']'];
    if line.contains('\n') {
        let i = choose|i: int| 0 <= i < line.len() && line[i] == '\n';
        if 0 < i < line.len() - 1 {
            assert(line[i] == name[i - 1]);
        }
    }
}

/// Reading the line the writer emits for `region`.
#[verifier::spinoff_prover]
proof fn lemma_step_region(ls: Seq<Seq<char>>, i: int, x: ConfigModel, c: ConfigModel)
    requires
        0 <= i < ls.len(),
        ls[i] == kv_line("region"@, region_text(x.region)),
    ensures
        ini_fold(ls.skip(i), "general"@, c) == ini_fold(ls.skip(i + 1), "general"@, set_region(c, x.region)),
        !ls[i].contains('\n'),
{
    reveal_strlit("general");
    assert("general"@.len() == 7);
    lemma_read_region(x.region);
    lemma_plain_value(region_text(x.region));
    lemma_apply_region(c, region_text(x.region));
    lemma_kv_line(c, "general"@, "region"@, region_text(x.region));
    lemma_kv_single("region"@, region_text(x.region));
    lemma_fold_step(ls, i, "general"@, c);
}

/// Reading the line the writer emits for `language`.
#[verifier::spinoff_prover]
proof fn lemma_step_language(ls: Seq<Seq<char>>, i: int, x: ConfigModel, c: ConfigModel)
    requires
        0 <= i < ls.len(),
        ls[i] == kv_line("language"@, language_text(x.language)),
    ensures
        ini_fold(ls.skip(i), "general"@, c) == ini_fold(ls.skip(i + 1), "general"@, set_language(c, x.language)),
        !ls[i].contains('\n'),
{
    reveal_strlit("general");
    assert("general"@.len() == 7);
    lemma_read_language(x.language);
    lemma_plain_value(language_text(x.language));
    lemma_apply_language(c, language_text(x.language));
    lemma_kv_line(c, "general"@, "language"@, language_text(x.language));
    lemma_kv_single("language"@, language_text(x.language));
    lemma_fold_step(ls, i, "general"@, c);
}

/// Reading the line the writer emits for `auto_update`.
#[verifier::spinoff_prover]
proof fn lemma_step_auto_update(ls: Seq<Seq<char>>, i: int, x: ConfigModel, c: ConfigModel)
    requires
        0 <= i < ls.len(),
        ls[i] == kv_line("auto_update"@, bool_text(x.auto_update)),
    ensures
        ini_fold(ls.skip(i), "general"@, c) == ini_fold(ls.skip(i + 1), "general"@, set_auto_update(c, x.auto_update)),
        !ls[i].contains('\n'),
{
    reveal_strlit("general");
    assert("general"@.len() == 7);
    lemma_read_bool(x.auto_update, default_config().auto_update);
    lemma_plain_value(bool_text(x.auto_update));
    lemma_apply_auto_update(c, bool_text(x.auto_update));
    lemma_kv_line(c, "general"@, "auto_update"@, bool_text(x.auto_update));
    lemma_kv_single("auto_update"@, bool_text(x.auto_update));
    lemma_fold_step(ls, i, "general"@, c);
}

/// Reading the line the writer emits for `auto_start`.
#[verifier::spinoff_prover]
proof fn lemma_step_auto_start(ls: Seq<Seq<char>>, i: int, x: ConfigModel, c: ConfigModel)
    requires
        0 <= i < ls.len(),
        ls[i] == kv_line("auto_start"@, bool_text(x.auto_start)),
    ensures
        ini_fold(ls.skip(i), "general"@, c) == ini_fold(ls.skip(i + 1), "general"@, set_auto_start(c, x.auto_start)),
        !ls[i].contains('\n'),
{
    reveal_strlit("general");
    assert("general"@.len() == 7);
    lemma_read_bool(x.auto_start, default_config().auto_start);
    lemma_plain_value(bool_text(x.auto_start));
    lemma_apply_auto_start(c, bool_text(x.auto_start));
    lemma_kv_line(c, "general"@, "auto_start"@, bool_text(x.auto_start));
    lemma_kv_single("auto_start"@, bool_text(x.auto_start));
    lemma_fold_step(ls, i, "general"@, c);
}

/// Reading the line the writer emits for `debug_logging`.
#[verifier::spinoff_prover]
proof fn lemma_step_debug_logging(ls: Seq<Seq<char>>, i: int, x: ConfigModel, c: ConfigModel)
    requires
        0 <= i < ls.len(),
        ls[i] == kv_line("debug_logging"@, bool_text(x.debug_logging)),
    ensures
        ini_fold(ls.skip(i), "general"@, c) == ini_fold(ls.skip(i + 1), "general"@, set_debug_logging(c, x.debug_logging)),
        !ls[i].contains('\n'),
{
    reveal_strlit("general");
    assert("general"@.len() == 7);
    lemma_read_bool(x.debug_logging, default_config().debug_logging);
    lemma_plain_value(bool_text(x.debug_logging));
    lemma_apply_debug_logging(c, bool_text(x.debug_logging));
    lemma_kv_line(c, "general"@, "debug_logging"@, bool_text(x.debug_logging));
    lemma_kv_single("debug_logging"@, bool_text(x.debug_logging));
    lemma_fold_step(ls, i, "general"@, c);
}

/// Reading the line the writer emits for `update_channel`.
#[verifier::spinoff_prover]
proof fn lemma_step_update_channel(ls: Seq<Seq<char>>, i: int, x: ConfigModel, c: ConfigModel)
    requires
        0 <= i < ls.len(),
        ls[i] == kv_line("update_channel"@, update_channel_text(x.update_channel)),
    ensures
        ini_fold(ls.skip(i), "general"@, c) == ini_fold(ls.skip(i + 1), "general"@, set_update_channel(c, x.update_channel)),
        !ls[i].contains('\n'),
{
    reveal_strlit("general");
    assert("general"@.len() == 7);
    lemma_read_update_channel(x.update_channel);
    lemma_plain_value(update_channel_text(x.update_channel));
    lemma_apply_update_channel(c, update_channel_text(x.update_channel));
    lemma_kv_line(c, "general"@, "update_channel"@, update_channel_text(x.update_channel));
    lemma_kv_single("update_channel"@, update_channel_text(x.update_channel));
    lemma_fold_step(ls, i, "general"@, c);
}

/// Reading the line the writer emits for `gamepass_incognito`.
#[verifier::spinoff_prover]
proof fn lemma_step_gamepass_incognito(ls: Seq<Seq<char>>, i: int, x: ConfigModel, c: ConfigModel)
    requires
        0 <= i < ls.len(),
        ls[i] == kv_line("gamepass_incognito"@, bool_text(x.gamepass_incognito)),
    ensures
        ini_fold(ls.skip(i), "general"@, c) == ini_fold(ls.skip(i + 1), "general"@, set_gamepass_incognito(c, x.gamepass_incognito)),
        !ls[i].contains('\n'),
{
    reveal_strlit("general");
    assert("general"@.len() == 7);
    lemma_read_bool(x.gamepass_incognito, default_config().gamepass_incognito);
    lemma_plain_value(bool_text(x.gamepass_incognito));
    lemma_apply_gamepass_incognito(c, bool_text(x.gamepass_incognito));
    lemma_kv_line(c, "general"@, "gamepass_incognito"@, bool_text(x.gamepass_incognito));
    lemma_kv_single("gamepass_incognito"@, bool_text(x.gamepass_incognito));
    lemma_fold_step(ls, i, "general"@, c);
}

/// Reading the line the writer emits for `traditional_login`.
#[verifier::spinoff_prover]
proof fn lemma_step_traditional_login(ls: Seq<Seq<char>>, i: int, x: ConfigModel, c: ConfigModel)
    requires
        0 <= i < ls.len(),
        ls[i] == kv_line("traditional_login"@, bool_text(x.traditional_login)),
    ensures
        ini_fold(ls.skip(i), "general"@, c) == ini_fold(ls.skip(i + 1), "general"@, set_traditional_login(c, x.traditional_login)),
        !ls[i].contains('\n'),
{
    reveal_strlit("general");
    assert("general"@.len() == 7);
    lemma_read_bool(x.traditional_login, default_config().traditional_login);
    lemma_plain_value(bool_text(x.traditional_login));
    lemma_apply_traditional_login(c, bool_text(x.traditional_login));
    lemma_kv_line(c, "general"@, "traditional_login"@, bool_text(x.traditional_login));
    lemma_kv_single("traditional_login"@, bool_text(x.traditional_login));
    lemma_fold_step(ls, i, "general"@, c);
}

/// Reading the line the writer emits for `auto_kill_patcher`.
#[verifier::spinoff_prover]
proof fn lemma_step_auto_kill_patcher(ls: Seq<Seq<char>>, i: int, x: ConfigModel, c: ConfigModel)
    requires
        0 <= i < ls.len(),
        ls[i] == kv_line("auto_kill_patcher"@, bool_text(x.auto_kill_patcher)),
    ensures
        ini_fold(ls.skip(i), "general"@, c) == ini_fold(ls.skip(i + 1), "general"@, set_auto_kill_patcher(c, x.auto_kill_patcher)),
        !ls[i].contains('\n'),
{
    reveal_strlit("general");
    assert("general"@.len() == 7);
    lemma_read_bool(x.auto_kill_patcher, default_config().auto_kill_patcher);
    lemma_plain_value(bool_text(x.auto_kill_patcher));
    lemma_apply_auto_kill_patcher(c, bool_text(x.auto_kill_patcher));
    lemma_kv_line(c, "general"@, "auto_kill_patcher"@, bool_text(x.auto_kill_patcher));
    lemma_kv_single("auto_kill_patcher"@, bool_text(x.auto_kill_patcher));
    lemma_fold_step(ls, i, "general"@, c);
}

/// Reading the line the writer emits for `auto_login`.
#[verifier::spinoff_prover]
proof fn lemma_step_auto_login(ls: Seq<Seq<char>>, i: int, x: ConfigModel, c: ConfigModel)
    requires
        0 <= i < ls.len(),
        ls[i] == kv_line("auto_login"@, bool_text(x.auto_login)),
    ensures
        ini_fold(ls.skip(i), "general"@, c) == ini_fold(ls.skip(i + 1), "general"@, set_auto_login(c, x.auto_login)),
        !ls[i].contains('\n'),
{
    reveal_strlit("general");
    assert("general"@.len() == 7);
    lemma_read_bool(x.auto_login, default_config().auto_login);
    lemma_plain_value(bool_text(x.auto_login));
    lemma_apply_auto_login(c, bool_text(x.auto_login));
    lemma_kv_line(c, "general"@, "auto_login"@, bool_text(x.auto_login));
    lemma_kv_single("auto_login"@, bool_text(x.auto_login));
    lemma_fold_step(ls, i, "general"@, c);
}

/// Reading the line the writer emits for `auto_launch_game`.
#[verifier::spinoff_prover]
proof fn lemma_step_auto_launch_game(ls: Seq<Seq<char>>, i: int, x: ConfigModel, c: ConfigModel)
    requires
        0 <= i < ls.len(),
        ls[i] == kv_line("auto_launch_game"@, bool_text(x.auto_launch_game)),
    ensures
        ini_fold(ls.skip(i), "general"@, c) == ini_fold(ls.skip(i + 1), "general"@, set_auto_launch_game(c, x.auto_launch_game)),
        !ls[i].contains('\n'),
{
    reveal_strlit("general");
    assert("general"@.len() == 7);
    lemma_read_bool(x.auto_launch_game, default_config().auto_launch_game);
    lemma_plain_value(bool_text(x.auto_launch_game));
    lemma_apply_auto_launch_game(c, bool_text(x.auto_launch_game));
    lemma_kv_line(c, "general"@, "auto_launch_game"@, bool_text(x.auto_launch_game));
    lemma_kv_single("auto_launch_game"@, bool_text(x.auto_launch_game));
    lemma_fold_step(ls, i, "general"@, c);
}

/// Reading the line the writer emits for `close_behavior`.
#[verifier::spinoff_prover]
proof fn lemma_step_close_behavior(ls: Seq<Seq<char>>, i: int, x: ConfigModel, c: ConfigModel)
    requires
        0 <= i < ls.len(),
        ls[i] == kv_line("close_behavior"@, close_behavior_text(x.close_behavior)),
    ensures
        ini_fold(ls.skip(i), "general"@, c) == ini_fold(ls.skip(i + 1), "general"@, set_close_behavior(c, x.close_behavior)),
        !ls[i].contains('\n'),
{
    reveal_strlit("general");
    assert("general"@.len() == 7);
    lemma_read_close_behavior(x.close_behavior);
    lemma_plain_value(close_behavior_text(x.close_behavior));
    lemma_apply_close_behavior(c, close_behavior_text(x.close_behavior));
    lemma_kv_line(c, "general"@, "close_behavior"@, close_behavior_text(x.close_behavior));
    lemma_kv_single("close_behavior"@, close_behavior_text(x.close_behavior));
    lemma_fold_step(ls, i, "general"@, c);
}

/// Reading the line the writer emits for `hide_account_names`.
#[verifier::spinoff_prover]
proof fn lemma_step_hide_account_names(ls: Seq<Seq<char>>, i: int, x: ConfigModel, c: ConfigModel)
    requires
        0 <= i < ls.len(),
        ls[i] == kv_line("hide_account_names"@, bool_text(x.hide_account_names)),
    ensures
        ini_fold(ls.skip(i), "general"@, c) == ini_fold(ls.skip(i + 1), "general"@, set_hide_account_names(c, x.hide_account_names)),
        !ls[i].contains('\n'),
{
    reveal_strlit("general");
    assert("general"@.len() == 7);
    lemma_read_bool(x.hide_account_names, default_config().hide_account_names);
    lemma_plain_value(bool_text(x.hide_account_names));
    lemma_apply_hide_account_names(c, bool_text(x.hide_account_names));
    lemma_kv_line(c, "general"@, "hide_account_names"@, bool_text(x.hide_account_names));
    lemma_kv_single("hide_account_names"@, bool_text(x.hide_account_names));
    lemma_fold_step(ls, i, "general"@, c);
}

/// Reading the line the writer emits for `beanfun_rename_dismissed`.
#[verifier::spinoff_prover]
proof fn lemma_step_beanfun_rename_dismissed(ls: Seq<Seq<char>>, i: int, x: ConfigModel, c: ConfigModel)
    requires
        0 <= i < ls.len(),
        ls[i] == kv_line("beanfun_rename_dismissed"@, bool_text(x.beanfun_rename_dismissed)),
    ensures
        ini_fold(ls.skip(i), "general"@, c) == ini_fold(ls.skip(i + 1), "general"@, set_beanfun_rename_dismissed(c, x.beanfun_rename_dismissed)),
        !ls[i].contains('\n'),
{
    reveal_strlit("general");
    assert("general"@.len() == 7);
    lemma_read_bool(x.beanfun_rename_dismissed, default_config().beanfun_rename_dismissed);
    lemma_plain_value(bool_text(x.beanfun_rename_dismissed));
    lemma_apply_beanfun_rename_dismissed(c, bool_text(x.beanfun_rename_dismissed));
    lemma_kv_line(c, "general"@, "beanfun_rename_dismissed"@, bool_text(x.beanfun_rename_dismissed));
    lemma_kv_single("beanfun_rename_dismissed"@, bool_text(x.beanfun_rename_dismissed));
    lemma_fold_step(ls, i, "general"@, c);
}

/// Reading the line the writer emits for `cafe_mode`.
#[verifier::spinoff_prover]
proof fn lemma_step_cafe_mode(ls: Seq<Seq<char>>, i: int, x: ConfigModel, c: ConfigModel)
    requires
        0 <= i < ls.len(),
        ls[i] == kv_line("cafe_mode"@, bool_text(x.cafe_mode)),
    ensures
        ini_fold(ls.skip(i), "general"@, c) == ini_fold(ls.skip(i + 1), "general"@, set_cafe_mode(c, x.cafe_mode)),
        !ls[i].contains('\n'),
{
    reveal_strlit("general");
    assert("general"@.len() == 7);
    lemma_read_bool(x.cafe_mode, default_config().cafe_mode);
    lemma_plain_value(bool_text(x.cafe_mode));
    lemma_apply_cafe_mode(c, bool_text(x.cafe_mode));
    lemma_kv_line(c, "general"@, "cafe_mode"@, bool_text(x.cafe_mode));
    lemma_kv_single("cafe_mode"@, bool_text(x.cafe_mode));
    lemma_fold_step(ls, i, "general"@, c);
}

/// Reading the line the writer emits for `default_login_view`.
#[verifier::spinoff_prover]
proof fn lemma_step_default_login_view(ls: Seq<Seq<char>>, i: int, x: ConfigModel, c: ConfigModel)
    requires
        0 <= i < ls.len(),
        ls[i] == kv_line("default_login_view"@, default_login_view_text(x.default_login_view)),
    ensures
        ini_fold(ls.skip(i), "general"@, c) == ini_fold(ls.skip(i + 1), "general"@, set_default_login_view(c, x.default_login_view)),
        !ls[i].contains('\n'),
{
    reveal_strlit("general");
    assert("general"@.len() == 7);
    lemma_read_default_login_view(x.default_login_view);
    lemma_plain_value(default_login_view_text(x.default_login_view));
    lemma_apply_default_login_view(c, default_login_view_text(x.default_login_view));
    lemma_kv_line(c, "general"@, "default_login_view"@, default_login_view_text(x.default_login_view));
    lemma_kv_single("default_login_view"@, default_login_view_text(x.default_login_view));
    lemma_fold_step(ls, i, "general"@, c);
}

/// Reading the line the writer emits for `game_path`.
#[verifier::spinoff_prover]
proof fn lemma_step_game_path(ls: Seq<Seq<char>>, i: int, x: ConfigModel, c: ConfigModel)
    requires
        0 <= i < ls.len(),
        ls[i] == kv_line("path"@, x.game_path),
        single_line_trimmed(x.game_path),
    ensures
        ini_fold(ls.skip(i), "game"@, c) == ini_fold(ls.skip(i + 1), "game"@, set_game_path(c, x.game_path)),
        !ls[i].contains('\n'),
{
    reveal_strlit("game");
    assert("game"@.len() == 4);
    lemma_apply_game_path(c, x.game_path);
    lemma_kv_line(c, "game"@, "path"@, x.game_path);
    lemma_kv_single("path"@, x.game_path);
    lemma_fold_step(ls, i, "game"@, c);
}

/// Reading the line the writer emits for `locale`.
#[verifier::spinoff_prover]
proof fn lemma_step_locale(ls: Seq<Seq<char>>, i: int, x: ConfigModel, c: ConfigModel)
    requires
        0 <= i < ls.len(),
        ls[i] == kv_line("locale"@, x.locale),
        single_line_trimmed(x.locale),
    ensures
        ini_fold(ls.skip(i), "game"@, c) == ini_fold(ls.skip(i + 1), "game"@, set_locale(c, x.locale)),
        !ls[i].contains('\n'),
{
    reveal_strlit("game");
    assert("game"@.len() == 4);
    lemma_apply_locale(c, x.locale);
    lemma_kv_line(c, "game"@, "locale"@, x.locale);
    lemma_kv_single("locale"@, x.locale);
    lemma_fold_step(ls, i, "game"@, c);
}

/// Reading the line the writer emits for `skip_play_confirm`.
#[verifier::spinoff_prover]
proof fn lemma_step_skip_play_confirm(ls: Seq<Seq<char>>, i: int, x: ConfigModel, c: ConfigModel)
    requires
        0 <= i < ls.len(),
        ls[i] == kv_line("skip_play_confirm"@, bool_text(x.skip_play_confirm)),
    ensures
        ini_fold(ls.skip(i), "game"@, c) == ini_fold(ls.skip(i + 1), "game"@, set_skip_play_confirm(c, x.skip_play_confirm)),
        !ls[i].contains('\n'),
{
    reveal_strlit("game");
    assert("game"@.len() == 4);
    lemma_read_bool(x.skip_play_confirm, default_config().skip_play_confirm);
    lemma_plain_value(bool_text(x.skip_play_confirm));
    lemma_apply_skip_play_confirm(c, bool_text(x.skip_play_confirm));
    lemma_kv_line(c, "game"@, "skip_play_confirm"@, bool_text(x.skip_play_confirm));
    lemma_kv_single("skip_play_confirm"@, bool_text(x.skip_play_confirm));
    lemma_fold_step(ls, i, "game"@, c);
}

/// Reading the line the writer emits for `web_launch_auto_launch`.
#[verifier::spinoff_prover]
proof fn lemma_step_web_launch_auto_launch(ls: Seq<Seq<char>>, i: int, x: ConfigModel, c: ConfigModel)
    requires
        0 <= i < ls.len(),
        ls[i] == kv_line("web_launch_auto_launch"@, bool_text(x.web_launch_auto_launch)),
    ensures
        ini_fold(ls.skip(i), "game"@, c) == ini_fold(ls.skip(i + 1), "game"@, set_web_launch_auto_launch(c, x.web_launch_auto_launch)),
        !ls[i].contains('\n'),
{
    reveal_strlit("game");
    assert("game"@.len() == 4);
    lemma_read_bool(x.web_launch_auto_launch, default_config().web_launch_auto_launch);
    lemma_plain_value(bool_text(x.web_launch_auto_launch));
    lemma_apply_web_launch_auto_launch(c, bool_text(x.web_launch_auto_launch));
    lemma_kv_line(c, "game"@, "web_launch_auto_launch"@, bool_text(x.web_launch_auto_launch));
    lemma_kv_single("web_launch_auto_launch"@, bool_text(x.web_launch_auto_launch));
    lemma_fold_step(ls, i, "game"@, c);
}

/// Reading the line the writer emits for `web_launch_auto_paste`.
#[verifier::spinoff_prover]
proof fn lemma_step_web_launch_auto_paste(ls: Seq<Seq<char>>, i: int, x: ConfigModel, c: ConfigModel)
    requires
        0 <= i < ls.len(),
        ls[i] == kv_line("web_launch_auto_paste"@, bool_text(x.web_launch_auto_paste)),
    ensures
        ini_fold(ls.skip(i), "game"@, c) == ini_fold(ls.skip(i + 1), "game"@, set_web_launch_auto_paste(c, x.web_launch_auto_paste)),
        !ls[i].contains('\n'),
{
    reveal_strlit("game");
    assert("game"@.len() == 4);
    lemma_read_bool(x.web_launch_auto_paste, default_config().web_launch_auto_paste);
    lemma_plain_value(bool_text(x.web_launch_auto_paste));
    lemma_apply_web_launch_auto_paste(c, bool_text(x.web_launch_auto_paste));
    lemma_kv_line(c, "game"@, "web_launch_auto_paste"@, bool_text(x.web_launch_auto_paste));
    lemma_kv_single("web_launch_auto_paste"@, bool_text(x.web_launch_auto_paste));
    lemma_fold_step(ls, i, "game"@, c);
}

/// Reading the line the writer emits for `theme`.
#[verifier::spinoff_prover]
proof fn lemma_step_theme(ls: Seq<Seq<char>>, i: int, x: ConfigModel, c: ConfigModel)
    requires
        0 <= i < ls.len(),
        ls[i] == kv_line("theme"@, theme_text(x.theme)),
    ensures
        ini_fold(ls.skip(i), "appearance"@, c) == ini_fold(ls.skip(i + 1), "appearance"@, set_theme(c, x.theme)),
        !ls[i].contains('\n'),
{
    reveal_strlit("appearance");
    assert("appearance"@.len() == 10);
    lemma_read_theme(x.theme);
    lemma_plain_value(theme_text(x.theme));
    lemma_apply_theme(c, theme_text(x.theme));
    lemma_kv_line(c, "appearance"@, "theme"@, theme_text(x.theme));
    lemma_kv_single("theme"@, theme_text(x.theme));
    lemma_fold_step(ls, i, "appearance"@, c);
}

/// Reading the line the writer emits for `font_size`.
#[verifier::spinoff_prover]
proof fn lemma_step_font_size(ls: Seq<Seq<char>>, i: int, x: ConfigModel, c: ConfigModel)
    requires
        0 <= i < ls.len(),
        ls[i] == kv_line("font_size"@, font_size_text(x.font_size)),
    ensures
        ini_fold(ls.skip(i), "appearance"@, c) == ini_fold(ls.skip(i + 1), "appearance"@, set_font_size(c, x.font_size)),
        !ls[i].contains('\n'),
{
    reveal_strlit("appearance");
    assert("appearance"@.len() == 10);
    lemma_read_font_size(x.font_size);
    lemma_plain_value(font_size_text(x.font_size));
    lemma_apply_font_size(c, font_size_text(x.font_size));
    lemma_kv_line(c, "appearance"@, "font_size"@, font_size_text(x.font_size));
    lemma_kv_single("font_size"@, font_size_text(x.font_size));
    lemma_fold_step(ls, i, "appearance"@, c);
}

/// Reading the line the writer emits for `account_view_mode`.
#[verifier::spinoff_prover]
proof fn lemma_step_account_view_mode(ls: Seq<Seq<char>>, i: int, x: ConfigModel, c: ConfigModel)
    requires
        0 <= i < ls.len(),
        ls[i] == kv_line("account_view_mode"@, account_view_mode_text(x.account_view_mode)),
    ensures
        ini_fold(ls.skip(i), "appearance"@, c) == ini_fold(ls.skip(i + 1), "appearance"@, set_account_view_mode(c, x.account_view_mode)),
        !ls[i].contains('\n'),
{
    reveal_strlit("appearance");
    assert("appearance"@.len() == 10);
    lemma_read_account_view_mode(x.account_view_mode);
    lemma_plain_value(account_view_mode_text(x.account_view_mode));
    lemma_apply_account_view_mode(c, account_view_mode_text(x.account_view_mode));
    lemma_kv_line(c, "appearance"@, "account_view_mode"@, account_view_mode_text(x.account_view_mode));
    lemma_kv_single("account_view_mode"@, account_view_mode_text(x.account_view_mode));
    lemma_fold_step(ls, i, "appearance"@, c);
}

/// `cfg` with the `[general]` settings of `x`.
spec fn with_general(cfg: ConfigModel, x: ConfigModel) -> ConfigModel {
    with_general_tail(with_general_head(cfg, x), x)
}

/// `cfg` with the first half of the `[general]` settings of `x`.
spec fn with_general_head(cfg: ConfigModel, x: ConfigModel) -> ConfigModel {
    set_traditional_login(set_gamepass_incognito(set_update_channel(set_debug_logging(set_auto_start(set_auto_update(set_language(set_region(cfg, x.region), x.language), x.auto_update), x.auto_start), x.debug_logging), x.update_channel), x.gamepass_incognito), x.traditional_login)
}

/// `cfg` with the second half of the `[general]` settings of `x`.
spec fn with_general_tail(cfg: ConfigModel, x: ConfigModel) -> ConfigModel {
    set_default_login_view(set_cafe_mode(set_beanfun_rename_dismissed(set_hide_account_names(set_close_behavior(set_auto_launch_game(set_auto_login(set_auto_kill_patcher(cfg, x.auto_kill_patcher), x.auto_login), x.auto_launch_game), x.close_behavior), x.hide_account_names), x.beanfun_rename_dismissed), x.cafe_mode), x.default_login_view)
}

/// Reading the `[general]` block takes over its settings and opens the section.
#[verifier::spinoff_prover]
proof fn lemma_general_block(x: ConfigModel, section: Seq<char>, cfg: ConfigModel)
    ensures
        ini_fold(general_lines(x), section, cfg) == (with_general(cfg, x), "general"@),
        single_lines(general_lines(x)),
{
    let ls = general_lines(x);
    reveal_strlit("[general]");
    assert("[general]"@.len() == 9);
    reveal_strlit("general");
    assert("general"@.len() == 7);
    assert("[general]"@ =~= seq!['['] + "general"@ + seq![']']);
    assert(ls[0] == seq!['['] + "general"@ + seq![']']);
    lemma_header_line(cfg, section, "general"@);
    lemma_header_single("general"@);
    assert(ls.skip(0) =~= ls);
    lemma_fold_step(ls, 0, section, cfg);
    let ghost c0 = cfg;
    lemma_step_region(ls, 1, x, c0);
    let ghost c1 = set_region(c0, x.region);
    lemma_step_language(ls, 2, x, c1);
    let ghost c2 = set_language(c1, x.language);
    lemma_step_auto_update(ls, 3, x, c2);
    let ghost c3 = set_auto_update(c2, x.auto_update);
    lemma_step_auto_start(ls, 4, x, c3);
    let ghost c4 = set_auto_start(c3, x.auto_start);
    lemma_step_debug_logging(ls, 5, x, c4);
    let ghost c5 = set_debug_logging(c4, x.debug_logging);
    lemma_step_update_channel(ls, 6, x, c5);
    let ghost c6 = set_update_channel(c5, x.update_channel);
    lemma_step_gamepass_incognito(ls, 7, x, c6);
    let ghost c7 = set_gamepass_incognito(c6, x.gamepass_incognito);
    lemma_step_traditional_login(ls, 8, x, c7);
    let ghost c8 = set_traditional_login(c7, x.traditional_login);
    lemma_step_auto_kill_patcher(ls, 9, x, c8);
    let ghost c9 = set_auto_kill_patcher(c8, x.auto_kill_patcher);
    lemma_step_auto_login(ls, 10, x, c9);
    let ghost c10 = set_auto_login(c9, x.auto_login);
    lemma_step_auto_launch_game(ls, 11, x, c10);
    let ghost c11 = set_auto_launch_game(c10, x.auto_launch_game);
    lemma_step_close_behavior(ls, 12, x, c11);
    let ghost c12 = set_close_behavior(c11, x.close_behavior);
    lemma_step_hide_account_names(ls, 13, x, c12);
    let ghost c13 = set_hide_account_names(c12, x.hide_account_names);
    lemma_step_beanfun_rename_dismissed(ls, 14, x, c13);
    let ghost c14 = set_beanfun_rename_dismissed(c13, x.beanfun_rename_dismissed);
    lemma_step_cafe_mode(ls, 15, x, c14);
    let ghost c15 = set_cafe_mode(c14, x.cafe_mode);
    lemma_step_default_login_view(ls, 16, x, c15);
    let ghost c16 = set_default_login_view(c15, x.default_login_view);
    assert(ls[17] == Seq::<char>::empty());
    lemma_blank_line(c16, "general"@);
    lemma_fold_step(ls, 17, "general"@, c16);
    assert(ls.skip(18) =~= Seq::<Seq<char>>::empty());
    lemma_fold_empty("general"@, c16);
    assert(c16 == with_general(cfg, x));
    assert forall|i: int| 0 <= i < ls.len() implies !(#[trigger] ls[i]).contains('\n') by {
        if i == 17 {
            assert(ls[17] =~= Seq::<char>::empty());
        }
    }
}

/// `cfg` with the `[game]` settings of `x`.
spec fn with_game(cfg: ConfigModel, x: ConfigModel) -> ConfigModel {
    set_web_launch_auto_paste(set_web_launch_auto_launch(set_skip_play_confirm(set_locale(set_game_path(cfg, x.game_path), x.locale), x.skip_play_confirm), x.web_launch_auto_launch), x.web_launch_auto_paste)
}

/// Reading the `[game]` block takes over its settings and opens the section.
#[verifier::spinoff_prover]
proof fn lemma_game_block(x: ConfigModel, section: Seq<char>, cfg: ConfigModel)
    requires
        single_line_trimmed(x.game_path),
        single_line_trimmed(x.locale),
    ensures
        ini_fold(game_lines(x), section, cfg) == (with_game(cfg, x), "game"@),
        single_lines(game_lines(x)),
{
    let ls = game_lines(x);
    reveal_strlit("[game]");
    assert("[game]"@.len() == 6);
    reveal_strlit("game");
    assert("game"@.len() == 4);
    assert("[game]"@ =~= seq!['['] + "game"@ + seq![']']);
    assert(ls[0] == seq!['['] + "game"@ + seq![']']);
    lemma_header_line(cfg, section, "game"@);
    lemma_header_single("game"@);
    assert(ls.skip(0) =~= ls);
    lemma_fold_step(ls, 0, section, cfg);
    let ghost c0 = cfg;
    lemma_step_game_path(ls, 1, x, c0);
    let ghost c1 = set_game_path(c0, x.game_path);
    lemma_step_locale(ls, 2, x, c1);
    let ghost c2 = set_locale(c1, x.locale);
    lemma_step_skip_play_confirm(ls, 3, x, c2);
    let ghost c3 = set_skip_play_confirm(c2, x.skip_play_confirm);
    lemma_step_web_launch_auto_launch(ls, 4, x, c3);
    let ghost c4 = set_web_launch_auto_launch(c3, x.web_launch_auto_launch);
    lemma_step_web_launch_auto_paste(ls, 5, x, c4);
    let ghost c5 = set_web_launch_auto_paste(c4, x.web_launch_auto_paste);
    assert(ls[6] == Seq::<char>::empty());
    lemma_blank_line(c5, "game"@);
    lemma_fold_step(ls, 6, "game"@, c5);
    assert(ls.skip(7) =~= Seq::<Seq<char>>::empty());
    lemma_fold_empty("game"@, c5);
    assert(c5 == with_game(cfg, x));
    assert forall|i: int| 0 <= i < ls.len() implies !(#[trigger] ls[i]).contains('\n') by {
        if i == 6 {
            assert(ls[6] =~= Seq::<char>::empty());
        }
    }
}

/// `cfg` with the `[appearance]` settings of `x`.
spec fn with_appearance(cfg: ConfigModel, x: ConfigModel) -> ConfigModel {
    set_account_view_mode(set_font_size(set_theme(cfg, x.theme), x.font_size), x.account_view_mode)
}

/// Reading the `[appearance]` block takes over its settings and opens the section.
#[verifier::spinoff_prover]
proof fn lemma_appearance_block(x: ConfigModel, section: Seq<char>, cfg: ConfigModel)
    ensures
        ini_fold(appearance_lines(x), section, cfg) == (with_appearance(cfg, x), "appearance"@),
        single_lines(appearance_lines(x)),
{
    let ls = appearance_lines(x);
    reveal_strlit("[appearance]");
    assert("[appearance]"@.len() == 12);
    reveal_strlit("appearance");
    assert("appearance"@.len() == 10);
    assert("[appearance]"@ =~= seq!['['] + "appearance"@ + seq![']']);
    assert(ls[0] == seq!['['] + "appearance"@ + seq![']']);
    lemma_header_line(cfg, section, "appearance"@);
    lemma_header_single("appearance"@);
    assert(ls.skip(0) =~= ls);
    lemma_fold_step(ls, 0, section, cfg);
    let ghost c0 = cfg;
    lemma_step_theme(ls, 1, x, c0);
    let ghost c1 = set_theme(c0, x.theme);
    lemma_step_font_size(ls, 2, x, c1);
    let ghost c2 = set_font_size(c1, x.font_size);
    lemma_step_account_view_mode(ls, 3, x, c2);
    let ghost c3 = set_account_view_mode(c2, x.account_view_mode);
    assert(ls[4] == Seq::<char>::empty());
    lemma_blank_line(c3, "appearance"@);
    lemma_fold_step(ls, 4, "appearance"@, c3);
    assert(ls.skip(5) =~= Seq::<Seq<char>>::empty());
    lemma_fold_empty("appearance"@, c3);
    assert(c3 == with_appearance(cfg, x));
    assert forall|i: int| 0 <= i < ls.len() implies !(#[trigger] ls[i]).contains('\n') by {
        if i == 4 {
            assert(ls[4] =~= Seq::<char>::empty());
        }
    }
}

/// `cfg` with the `[window]` settings of `x` that are set.
spec fn with_window(cfg: ConfigModel, x: ConfigModel) -> ConfigModel {
    let c1 = set_window_x(cfg, if x.window_x is Some { x.window_x } else { cfg.window_x });
    let c2 = set_window_y(c1, if x.window_y is Some { x.window_y } else { c1.window_y });
    let c3 = set_window_width(c2, if x.window_width is Some { x.window_width } else { c2.window_width });
    set_window_height(c3, if x.window_height is Some { x.window_height } else { c3.window_height })
}

#[verifier::spinoff_prover]
proof fn lemma_window_x_line(o: Option<i32>, cfg: ConfigModel)
    ensures
        ini_fold(opt_i32_line("x"@, o), "window"@, cfg) == (set_window_x(cfg, if o is Some { o } else { cfg.window_x }), "window"@),
        single_lines(opt_i32_line("x"@, o)),
{
    reveal(set_window_x);
    reveal_strlit("window");
    assert("window"@.len() == 6);
    if let Some(n) = o {
        let ls = opt_i32_line("x"@, o);
        lemma_read_i32(n);
        lemma_plain_value(int_text(n as int));
        lemma_apply_window_x(cfg, int_text(n as int));
        lemma_kv_line(cfg, "window"@, "x"@, int_text(n as int));
        lemma_kv_single("x"@, int_text(n as int));
        assert(ls.skip(0) =~= ls);
        lemma_fold_step(ls, 0, "window"@, cfg);
        assert(ls.skip(1) =~= Seq::<Seq<char>>::empty());
        lemma_fold_empty("window"@, ini_apply(cfg, "window"@, "x"@, int_text(n as int)));
    } else {
        lemma_fold_empty("window"@, cfg);
    }
}

#[verifier::spinoff_prover]
proof fn lemma_window_y_line(o: Option<i32>, cfg: ConfigModel)
    ensures
        ini_fold(opt_i32_line("y"@, o), "window"@, cfg) == (set_window_y(cfg, if o is Some { o } else { cfg.window_y }), "window"@),
        single_lines(opt_i32_line("y"@, o)),
{
    reveal(set_window_y);
    reveal_strlit("window");
    assert("window"@.len() == 6);
    if let Some(n) = o {
        let ls = opt_i32_line("y"@, o);
        lemma_read_i32(n);
        lemma_plain_value(int_text(n as int));
        lemma_apply_window_y(cfg, int_text(n as int));
        lemma_kv_line(cfg, "window"@, "y"@, int_text(n as int));
        lemma_kv_single("y"@, int_text(n as int));
        assert(ls.skip(0) =~= ls);
        lemma_fold_step(ls, 0, "window"@, cfg);
        assert(ls.skip(1) =~= Seq::<Seq<char>>::empty());
        lemma_fold_empty("window"@, ini_apply(cfg, "window"@, "y"@, int_text(n as int)));
    } else {
        lemma_fold_empty("window"@, cfg);
    }
}

#[verifier::spinoff_prover]
proof fn lemma_window_width_line(o: Option<u32>, cfg: ConfigModel)
    ensures
        ini_fold(opt_u32_line("width"@, o), "window"@, cfg) == (set_window_width(cfg, if o is Some { o } else { cfg.window_width }), "window"@),
        single_lines(opt_u32_line("width"@, o)),
{
    reveal(set_window_width);
    reveal_strlit("window");
    assert("window"@.len() == 6);
    if let Some(n) = o {
        let ls = opt_u32_line("width"@, o);
        lemma_read_u32(n);
        lemma_plain_value(int_text(n as int));
        lemma_apply_window_width(cfg, int_text(n as int));
        lemma_kv_line(cfg, "window"@, "width"@, int_text(n as int));
        lemma_kv_single("width"@, int_text(n as int));
        assert(ls.skip(0) =~= ls);
        lemma_fold_step(ls, 0, "window"@, cfg);
        assert(ls.skip(1) =~= Seq::<Seq<char>>::empty());
        lemma_fold_empty("window"@, ini_apply(cfg, "window"@, "width"@, int_text(n as int)));
    } else {
        lemma_fold_empty("window"@, cfg);
    }
}

#[verifier::spinoff_prover]
proof fn lemma_window_height_line(o: Option<u32>, cfg: ConfigModel)
    ensures
        ini_fold(opt_u32_line("height"@, o), "window"@, cfg) == (set_window_height(cfg, if o is Some { o } else { cfg.window_height }), "window"@),
        single_lines(opt_u32_line("height"@, o)),
{
    reveal(set_window_height);
    reveal_strlit("window");
    assert("window"@.len() == 6);
    if let Some(n) = o {
        let ls = opt_u32_line("height"@, o);
        lemma_read_u32(n);
        lemma_plain_value(int_text(n as int));
        lemma_apply_window_height(cfg, int_text(n as int));
        lemma_kv_line(cfg, "window"@, "height"@, int_text(n as int));
        lemma_kv_single("height"@, int_text(n as int));
        assert(ls.skip(0) =~= ls);
        lemma_fold_step(ls, 0, "window"@, cfg);
        assert(ls.skip(1) =~= Seq::<Seq<char>>::empty());
        lemma_fold_empty("window"@, ini_apply(cfg, "window"@, "height"@, int_text(n as int)));
    } else {
        lemma_fold_empty("window"@, cfg);
    }
}

/// Reading the `[window]` block takes over the positions and sizes that are set.
#[verifier::spinoff_prover]
proof fn lemma_window_block(x: ConfigModel, section: Seq<char>, cfg: ConfigModel)
    ensures
        ini_fold(window_lines(x), section, cfg) == (with_window(cfg, x), "window"@),
        single_lines(window_lines(x)),
{
    reveal_strlit("[window]");
    assert("[window]"@.len() == 8);
    reveal_strlit("window");
    assert("window"@.len() == 6);
    assert("[window]"@ =~= seq!['['] + "window"@ + seq![']']);
    lemma_header_line(cfg, section, "window"@);
    lemma_header_single("window"@);
    let h: Seq<Seq<char>> = seq!["[window]"@];
    let lx = opt_i32_line("x"@, x.window_x);
    let ly = opt_i32_line("y"@, x.window_y);
    let lw = opt_u32_line("width"@, x.window_width);
    let lh = opt_u32_line("height"@, x.window_height);
    assert(h.skip(0) =~= h);
    lemma_fold_step(h, 0, section, cfg);
    assert(h.skip(1) =~= Seq::<Seq<char>>::empty());
    lemma_fold_empty("window"@, cfg);
    assert(single_lines(h));
    let c1 = cfg;
    lemma_window_x_line(x.window_x, c1);
    let c2 = set_window_x(c1, if x.window_x is Some { x.window_x } else { c1.window_x });
    lemma_window_y_line(x.window_y, c2);
    let c3 = set_window_y(c2, if x.window_y is Some { x.window_y } else { c2.window_y });
    lemma_window_width_line(x.window_width, c3);
    let c4 = set_window_width(c3, if x.window_width is Some { x.window_width } else { c3.window_width });
    lemma_window_height_line(x.window_height, c4);
    lemma_fold_append(h, lx, section, cfg);
    lemma_fold_append(h + lx, ly, section, cfg);
    lemma_fold_append(h + lx + ly, lw, section, cfg);
    lemma_fold_append(h + lx + ly + lw, lh, section, cfg);
    lemma_single_append(h, lx);
    lemma_single_append(h + lx, ly);
    lemma_single_append(h + lx + ly, lw);
    lemma_single_append(h + lx + ly + lw, lh);
    assert(window_lines(x) == h + lx + ly + lw + lh);
}

/// What [`with_general_head`] holds, field by field.
#[verifier::spinoff_prover]
proof fn lemma_with_general_head_fields(cfg: ConfigModel, x: ConfigModel)
    ensures
        with_general_head(cfg, x).game_path == cfg.game_path,
        with_general_head(cfg, x).locale == cfg.locale,
        with_general_head(cfg, x).theme == cfg.theme,
        with_general_head(cfg, x).language == x.language,
        with_general_head(cfg, x).auto_update == x.auto_update,
        with_general_head(cfg, x).update_channel == x.update_channel,
        with_general_head(cfg, x).skip_play_confirm == cfg.skip_play_confirm,
        with_general_head(cfg, x).auto_start == x.auto_start,
        with_general_head(cfg, x).window_x == cfg.window_x,
        with_general_head(cfg, x).window_y == cfg.window_y,
        with_general_head(cfg, x).window_width == cfg.window_width,
        with_general_head(cfg, x).window_height == cfg.window_height,
        with_general_head(cfg, x).region == x.region,
        with_general_head(cfg, x).debug_logging == x.debug_logging,
        with_general_head(cfg, x).gamepass_incognito == x.gamepass_incognito,
        with_general_head(cfg, x).font_size == cfg.font_size,
        with_general_head(cfg, x).traditional_login == x.traditional_login,
        with_general_head(cfg, x).auto_kill_patcher == cfg.auto_kill_patcher,
        with_general_head(cfg, x).account_view_mode == cfg.account_view_mode,
        with_general_head(cfg, x).auto_login == cfg.auto_login,
        with_general_head(cfg, x).auto_launch_game == cfg.auto_launch_game,
        with_general_head(cfg, x).web_launch_auto_launch == cfg.web_launch_auto_launch,
        with_general_head(cfg, x).web_launch_auto_paste == cfg.web_launch_auto_paste,
        with_general_head(cfg, x).close_behavior == cfg.close_behavior,
        with_general_head(cfg, x).hide_account_names == cfg.hide_account_names,
        with_general_head(cfg, x).beanfun_rename_dismissed == cfg.beanfun_rename_dismissed,
        with_general_head(cfg, x).cafe_mode == cfg.cafe_mode,
        with_general_head(cfg, x).default_login_view == cfg.default_login_view,
{
    reveal(set_region);
    reveal(set_language);
    reveal(set_auto_update);
    reveal(set_auto_start);
    reveal(set_debug_logging);
    reveal(set_update_channel);
    reveal(set_gamepass_incognito);
    reveal(set_traditional_login);
}

/// What [`with_general_tail`] holds, field by field.
#[verifier::spinoff_prover]
proof fn lemma_with_general_tail_fields(cfg: ConfigModel, x: ConfigModel)
    ensures
        with_general_tail(cfg, x).game_path == cfg.game_path,
        with_general_tail(cfg, x).locale == cfg.locale,
        with_general_tail(cfg, x).theme == cfg.theme,
        with_general_tail(cfg, x).language == cfg.language,
        with_general_tail(cfg, x).auto_update == cfg.auto_update,
        with_general_tail(cfg, x).update_channel == cfg.update_channel,
        with_general_tail(cfg, x).skip_play_confirm == cfg.skip_play_confirm,
        with_general_tail(cfg, x).auto_start == cfg.auto_start,
        with_general_tail(cfg, x).window_x == cfg.window_x,
        with_general_tail(cfg, x).window_y == cfg.window_y,
        with_general_tail(cfg, x).window_width == cfg.window_width,
        with_general_tail(cfg, x).window_height == cfg.window_height,
        with_general_tail(cfg, x).region == cfg.region,
        with_general_tail(cfg, x).debug_logging == cfg.debug_logging,
        with_general_tail(cfg, x).gamepass_incognito == cfg.gamepass_incognito,
        with_general_tail(cfg, x).font_size == cfg.font_size,
        with_general_tail(cfg, x).traditional_login == cfg.traditional_login,
        with_general_tail(cfg, x).auto_kill_patcher == x.auto_kill_patcher,
        with_general_tail(cfg, x).account_view_mode == cfg.account_view_mode,
        with_general_tail(cfg, x).auto_login == x.auto_login,
        with_general_tail(cfg, x).auto_launch_game == x.auto_launch_game,
        with_general_tail(cfg, x).web_launch_auto_launch == cfg.web_launch_auto_launch,
        with_general_tail(cfg, x).web_launch_auto_paste == cfg.web_launch_auto_paste,
        with_general_tail(cfg, x).close_behavior == x.close_behavior,
        with_general_tail(cfg, x).hide_account_names == x.hide_account_names,
        with_general_tail(cfg, x).beanfun_rename_dismissed == x.beanfun_rename_dismissed,
        with_general_tail(cfg, x).cafe_mode == x.cafe_mode,
        with_general_tail(cfg, x).default_login_view == x.default_login_view,
{
    reveal(set_auto_kill_patcher);
    reveal(set_auto_login);
    reveal(set_auto_launch_game);
    reveal(set_close_behavior);
    reveal(set_hide_account_names);
    reveal(set_beanfun_rename_dismissed);
    reveal(set_cafe_mode);
    reveal(set_default_login_view);
}

/// What [`with_general`] holds, field by field.
proof fn lemma_with_general_fields(cfg: ConfigModel, x: ConfigModel)
    ensures
        with_general(cfg, x).game_path == cfg.game_path,
        with_general(cfg, x).locale == cfg.locale,
        with_general(cfg, x).theme == cfg.theme,
        with_general(cfg, x).language == x.language,
        with_general(cfg, x).auto_update == x.auto_update,
        with_general(cfg, x).update_channel == x.update_channel,
        with_general(cfg, x).skip_play_confirm == cfg.skip_play_confirm,
        with_general(cfg, x).auto_start == x.auto_start,
        with_general(cfg, x).window_x == cfg.window_x,
        with_general(cfg, x).window_y == cfg.window_y,
        with_general(cfg, x).window_width == cfg.window_width,
        with_general(cfg, x).window_height == cfg.window_height,
        with_general(cfg, x).region == x.region,
        with_general(cfg, x).debug_logging == x.debug_logging,
        with_general(cfg, x).gamepass_incognito == x.gamepass_incognito,
        with_general(cfg, x).font_size == cfg.font_size,
        with_general(cfg, x).traditional_login == x.traditional_login,
        with_general(cfg, x).auto_kill_patcher == x.auto_kill_patcher,
        with_general(cfg, x).account_view_mode == cfg.account_view_mode,
        with_general(cfg, x).auto_login == x.auto_login,
        with_general(cfg, x).auto_launch_game == x.auto_launch_game,
        with_general(cfg, x).web_launch_auto_launch == cfg.web_launch_auto_launch,
        with_general(cfg, x).web_launch_auto_paste == cfg.web_launch_auto_paste,
        with_general(cfg, x).close_behavior == x.close_behavior,
        with_general(cfg, x).hide_account_names == x.hide_account_names,
        with_general(cfg, x).beanfun_rename_dismissed == x.beanfun_rename_dismissed,
        with_general(cfg, x).cafe_mode == x.cafe_mode,
        with_general(cfg, x).default_login_view == x.default_login_view,
{
    lemma_with_general_head_fields(cfg, x);
    lemma_with_general_tail_fields(with_general_head(cfg, x), x);
}

/// What [`with_game`] holds, field by field.
#[verifier::spinoff_prover]
proof fn lemma_with_game_fields(cfg: ConfigModel, x: ConfigModel)
    ensures
        with_game(cfg, x).game_path == x.game_path,
        with_game(cfg, x).locale == x.locale,
        with_game(cfg, x).theme == cfg.theme,
        with_game(cfg, x).language == cfg.language,
        with_game(cfg, x).auto_update == cfg.auto_update,
        with_game(cfg, x).update_channel == cfg.update_channel,
        with_game(cfg, x).skip_play_confirm == x.skip_play_confirm,
        with_game(cfg, x).auto_start == cfg.auto_start,
        with_game(cfg, x).window_x == cfg.window_x,
        with_game(cfg, x).window_y == cfg.window_y,
        with_game(cfg, x).window_width == cfg.window_width,
        with_game(cfg, x).window_height == cfg.window_height,
        with_game(cfg, x).region == cfg.region,
        with_game(cfg, x).debug_logging == cfg.debug_logging,
        with_game(cfg, x).gamepass_incognito == cfg.gamepass_incognito,
        with_game(cfg, x).font_size == cfg.font_size,
        with_game(cfg, x).traditional_login == cfg.traditional_login,
        with_game(cfg, x).auto_kill_patcher == cfg.auto_kill_patcher,
        with_game(cfg, x).account_view_mode == cfg.account_view_mode,
        with_game(cfg, x).auto_login == cfg.auto_login,
        with_game(cfg, x).auto_launch_game == cfg.auto_launch_game,
        with_game(cfg, x).web_launch_auto_launch == x.web_launch_auto_launch,
        with_game(cfg, x).web_launch_auto_paste == x.web_launch_auto_paste,
        with_game(cfg, x).close_behavior == cfg.close_behavior,
        with_game(cfg, x).hide_account_names == cfg.hide_account_names,
        with_game(cfg, x).beanfun_rename_dismissed == cfg.beanfun_rename_dismissed,
        with_game(cfg, x).cafe_mode == cfg.cafe_mode,
        with_game(cfg, x).default_login_view == cfg.default_login_view,
{
    reveal(set_game_path);
    reveal(set_locale);
    reveal(set_skip_play_confirm);
    reveal(set_web_launch_auto_launch);
    reveal(set_web_launch_auto_paste);
}

/// What [`with_appearance`] holds, field by field.
#[verifier::spinoff_prover]
proof fn lemma_with_appearance_fields(cfg: ConfigModel, x: ConfigModel)
    ensures
        with_appearance(cfg, x).game_path == cfg.game_path,
        with_appearance(cfg, x).locale == cfg.locale,
        with_appearance(cfg, x).theme == x.theme,
        with_appearance(cfg, x).language == cfg.language,
        with_appearance(cfg, x).auto_update == cfg.auto_update,
        with_appearance(cfg, x).update_channel == cfg.update_channel,
        with_appearance(cfg, x).skip_play_confirm == cfg.skip_play_confirm,
        with_appearance(cfg, x).auto_start == cfg.auto_start,
        with_appearance(cfg, x).window_x == cfg.window_x,
        with_appearance(cfg, x).window_y == cfg.window_y,
        with_appearance(cfg, x).window_width == cfg.window_width,
        with_appearance(cfg, x).window_height == cfg.window_height,
        with_appearance(cfg, x).region == cfg.region,
        with_appearance(cfg, x).debug_logging == cfg.debug_logging,
        with_appearance(cfg, x).gamepass_incognito == cfg.gamepass_incognito,
        with_appearance(cfg, x).font_size == x.font_size,
        with_appearance(cfg, x).traditional_login == cfg.traditional_login,
        with_appearance(cfg, x).auto_kill_patcher == cfg.auto_kill_patcher,
        with_appearance(cfg, x).account_view_mode == x.account_view_mode,
        with_appearance(cfg, x).auto_login == cfg.auto_login,
        with_appearance(cfg, x).auto_launch_game == cfg.auto_launch_game,
        with_appearance(cfg, x).web_launch_auto_launch == cfg.web_launch_auto_launch,
        with_appearance(cfg, x).web_launch_auto_paste == cfg.web_launch_auto_paste,
        with_appearance(cfg, x).close_behavior == cfg.close_behavior,
        with_appearance(cfg, x).hide_account_names == cfg.hide_account_names,
        with_appearance(cfg, x).beanfun_rename_dismissed == cfg.beanfun_rename_dismissed,
        with_appearance(cfg, x).cafe_mode == cfg.cafe_mode,
        with_appearance(cfg, x).default_login_view == cfg.default_login_view,
{
    reveal(set_theme);
    reveal(set_font_size);
    reveal(set_account_view_mode);
}

/// What [`with_window`] holds, field by field.
#[verifier::spinoff_prover]
proof fn lemma_with_window_fields(cfg: ConfigModel, x: ConfigModel)
    ensures
        with_window(cfg, x).game_path == cfg.game_path,
        with_window(cfg, x).locale == cfg.locale,
        with_window(cfg, x).theme == cfg.theme,
        with_window(cfg, x).language == cfg.language,
        with_window(cfg, x).auto_update == cfg.auto_update,
        with_window(cfg, x).update_channel == cfg.update_channel,
        with_window(cfg, x).skip_play_confirm == cfg.skip_play_confirm,
        with_window(cfg, x).auto_start == cfg.auto_start,
        with_window(cfg, x).window_x == (if x.window_x is Some { x.window_x } else { cfg.window_x }),
        with_window(cfg, x).window_y == (if x.window_y is Some { x.window_y } else { cfg.window_y }),
        with_window(cfg, x).window_width == (if x.window_width is Some { x.window_width } else { cfg.window_width }),
        with_window(cfg, x).window_height == (if x.window_height is Some { x.window_height } else { cfg.window_height }),
        with_window(cfg, x).region == cfg.region,
        with_window(cfg, x).debug_logging == cfg.debug_logging,
        with_window(cfg, x).gamepass_incognito == cfg.gamepass_incognito,
        with_window(cfg, x).font_size == cfg.font_size,
        with_window(cfg, x).traditional_login == cfg.traditional_login,
        with_window(cfg, x).auto_kill_patcher == cfg.auto_kill_patcher,
        with_window(cfg, x).account_view_mode == cfg.account_view_mode,
        with_window(cfg, x).auto_login == cfg.auto_login,
        with_window(cfg, x).auto_launch_game == cfg.auto_launch_game,
        with_window(cfg, x).web_launch_auto_launch == cfg.web_launch_auto_launch,
        with_window(cfg, x).web_launch_auto_paste == cfg.web_launch_auto_paste,
        with_window(cfg, x).close_behavior == cfg.close_behavior,
        with_window(cfg, x).hide_account_names == cfg.hide_account_names,
        with_window(cfg, x).beanfun_rename_dismissed == cfg.beanfun_rename_dismissed,
        with_window(cfg, x).cafe_mode == cfg.cafe_mode,
        with_window(cfg, x).default_login_view == cfg.default_login_view,
{
    reveal(set_window_x);
    reveal(set_window_y);
    reveal(set_window_width);
    reveal(set_window_height);
}

/// Writing a configuration and reading the text back gives the same
/// configuration, when the game path and the locale each fit on one line and
/// have no leading or trailing whitespace (the reader trims values).
pub proof fn lemma_ini_round_trip(c: ConfigModel)
    requires
        single_line_trimmed(c.game_path),
        single_line_trimmed(c.locale),
    ensures
        ini_config(ini_text(c)) == c,
{
    let d = default_config();
    let e = Seq::<char>::empty();
    let g = general_lines(c);
    let m = game_lines(c);
    let a = appearance_lines(c);
    let w = window_lines(c);
    lemma_general_block(c, e, d);
    let c1 = with_general(d, c);
    lemma_game_block(c, "general"@, c1);
    let c2 = with_game(c1, c);
    lemma_appearance_block(c, "game"@, c2);
    let c3 = with_appearance(c2, c);
    lemma_window_block(c, "appearance"@, c3);
    lemma_fold_append(g, m, e, d);
    lemma_fold_append(g + m, a, e, d);
    lemma_fold_append(g + m + a, w, e, d);
    lemma_single_append(g, m);
    lemma_single_append(g + m, a);
    lemma_single_append(g + m + a, w);
    lemma_run_join(ini_lines(c), e, d);
    lemma_with_general_fields(d, c);
    lemma_with_game_fields(c1, c);
    lemma_with_appearance_fields(c2, c);
    lemma_with_window_fields(c3, c);
    assert(with_window(c3, c) == c);
}

} // verus!
