//! The settings page: every switch the app has, in one list, each row changed by running the `:`
//! command that already performs it.
use vstd::prelude::*;
use crate::seqs::{dedup, dedup_strs, views};
use crate::text::{append, owned, push_char, str_eq};
use crate::wrap::{wrap_index, wrapped};

verus! {

/// How a row is changed, and therefore what the keys do on it.
#[derive(Debug, Clone, Copy, PartialEq, Eq, Structural)]
pub enum SettingKind {
    /// On or off.
    Toggle,
    /// One of the command's options: `→` takes the next one, `←` the one before it.
    Choice,
    /// The command acts by itself, so only `→` runs it.
    Cycle,
}

/// One row of the settings page.
#[derive(Debug, Clone, Copy)]
pub struct Setting {
    /// The section it is filed under. Sections are written in table order.
    pub group: &'static str,
    /// What the row says.
    pub label: &'static str,
    /// The `config.toml` key it edits, dotted (`playerbar.progress_style`).
    pub key: &'static str,
    pub kind: SettingKind,
    /// The `:` command that performs the change, without its argument.
    pub ex: &'static str,
}

/// How many rows the page has.
pub const ROWS: usize = 15;

/// Every setting the page shows, in the order it shows them.
pub open spec fn spec_settings() -> Seq<Setting> {
    seq![
        Setting { group: "外观", label: "主题", key: "default_theme", kind: SettingKind::Choice, ex: "theme" },
        Setting { group: "外观", label: "导航栏位置", key: "navigation_position", kind: SettingKind::Cycle, ex: "navpos" },
        Setting { group: "外观", label: "鼠标捕获", key: "mouse", kind: SettingKind::Toggle, ex: "mouse" },
        Setting { group: "外观", label: "输入框光标", key: "cursor_style", kind: SettingKind::Choice, ex: "cursor" },
        Setting { group: "歌词", label: "显示样式", key: "lyric_style", kind: SettingKind::Choice, ex: "lyrics" },
        Setting { group: "歌词", label: "扫光渐变", key: "lyric_gradient", kind: SettingKind::Choice, ex: "lyricgradient" },
        Setting { group: "歌词", label: "译文", key: "lyric_translation", kind: SettingKind::Toggle, ex: "translation" },
        Setting { group: "播放条", label: "进度条样式", key: "playerbar.progress_style", kind: SettingKind::Choice, ex: "progress" },
        Setting { group: "播放条", label: "布局", key: "playerbar.layout", kind: SettingKind::Choice, ex: "layout" },
        Setting { group: "播放条", label: "封面旋转", key: "playerbar.spinning_cover", kind: SettingKind::Toggle, ex: "spin" },
        Setting { group: "播放条", label: "频谱", key: "playerbar.visible.visualizer", kind: SettingKind::Toggle, ex: "visualizer" },
        Setting { group: "播放条", label: "音高读数", key: "playerbar.visible.pitch", kind: SettingKind::Toggle, ex: "pitch" },
        Setting { group: "通知", label: "切歌时通知", key: "notify.song_change", kind: SettingKind::Toggle, ex: "notify song_change" },
        Setting { group: "通知", label: "播放出错时通知", key: "notify.errors", kind: SettingKind::Toggle, ex: "notify errors" },
        Setting { group: "缓存", label: "边听边存", key: "cache.save_on_play", kind: SettingKind::Toggle, ex: "saveonplay" }
    ]
}

/// Every setting the page shows, in the order it shows them.
pub fn settings() -> (r: Vec<Setting>)
    ensures
        r@ == spec_settings(),
        r@.len() == ROWS,
{
    let mut v: Vec<Setting> = Vec::new();
    v.push(Setting { group: "外观", label: "主题", key: "default_theme", kind: SettingKind::Choice, ex: "theme" });
    v.push(Setting { group: "外观", label: "导航栏位置", key: "navigation_position", kind: SettingKind::Cycle, ex: "navpos" });
    v.push(Setting { group: "外观", label: "鼠标捕获", key: "mouse", kind: SettingKind::Toggle, ex: "mouse" });
    v.push(Setting { group: "外观", label: "输入框光标", key: "cursor_style", kind: SettingKind::Choice, ex: "cursor" });
    v.push(Setting { group: "歌词", label: "显示样式", key: "lyric_style", kind: SettingKind::Choice, ex: "lyrics" });
    v.push(Setting { group: "歌词", label: "扫光渐变", key: "lyric_gradient", kind: SettingKind::Choice, ex: "lyricgradient" });
    v.push(Setting { group: "歌词", label: "译文", key: "lyric_translation", kind: SettingKind::Toggle, ex: "translation" });
    v.push(Setting { group: "播放条", label: "进度条样式", key: "playerbar.progress_style", kind: SettingKind::Choice, ex: "progress" });
    v.push(Setting { group: "播放条", label: "布局", key: "playerbar.layout", kind: SettingKind::Choice, ex: "layout" });
    v.push(Setting { group: "播放条", label: "封面旋转", key: "playerbar.spinning_cover", kind: SettingKind::Toggle, ex: "spin" });
    v.push(Setting { group: "播放条", label: "频谱", key: "playerbar.visible.visualizer", kind: SettingKind::Toggle, ex: "visualizer" });
    v.push(Setting { group: "播放条", label: "音高读数", key: "playerbar.visible.pitch", kind: SettingKind::Toggle, ex: "pitch" });
    v.push(Setting { group: "通知", label: "切歌时通知", key: "notify.song_change", kind: SettingKind::Toggle, ex: "notify song_change" });
    v.push(Setting { group: "通知", label: "播放出错时通知", key: "notify.errors", kind: SettingKind::Toggle, ex: "notify errors" });
    v.push(Setting { group: "缓存", label: "边听边存", key: "cache.save_on_play", kind: SettingKind::Toggle, ex: "saveonplay" });
    assert(v@ =~= spec_settings());
    v
}

/// The section of each row, in table order.
pub open spec fn groups_in_order(s: Seq<Setting>) -> Seq<Seq<char>> {
    s.map_values(|x: Setting| x.group@)
}

/// The sections, in the order the table writes them, each once.
pub fn groups() -> (r: Vec<&'static str>)
    ensures
        views(r@) == dedup(groups_in_order(spec_settings())),
{
    let table = settings();
    let mut all: Vec<&'static str> = Vec::new();
    let mut i: usize = 0;
    while i < table.len()
        invariant
            table@ == spec_settings(),
            i <= table.len(),
            all@.len() == i,
            forall|j: int| 0 <= j < i ==> #[trigger] all@[j] == table@[j].group,
        decreases table.len() - i,
    {
        all.push(table[i].group);
        i = i + 1;
    }
    assert(views(all@) =~= groups_in_order(spec_settings()));
    dedup_strs(&all)
}

/// The rows of `group`, as (row index, row), in table order.
pub fn rows_in(group: &str) -> (r: Vec<(usize, Setting)>)
    ensures
        forall|k: int| 0 <= k < r.len() ==> {
            &&& 0 <= #[trigger] r@[k].0 < ROWS
            &&& r@[k].1 == spec_settings()[r@[k].0 as int]
            &&& spec_settings()[r@[k].0 as int].group@ == group@
        },
        forall|k: int, l: int| 0 <= k < l < r.len() ==> #[trigger] r@[k].0 < #[trigger] r@[l].0,
        forall|i: int| 0 <= i < ROWS && #[trigger] spec_settings()[i].group@ == group@ ==>
            exists|k: int| 0 <= k < r.len() && r@[k].0 == i,
{
    let table = settings();
    let mut out: Vec<(usize, Setting)> = Vec::new();
    let mut i: usize = 0;
    while i < table.len()
        invariant
            table@ == spec_settings(),
            i <= table.len(),
            forall|k: int| 0 <= k < out.len() ==> {
                &&& 0 <= #[trigger] out@[k].0 < i
                &&& out@[k].1 == spec_settings()[out@[k].0 as int]
                &&& spec_settings()[out@[k].0 as int].group@ == group@
            },
            forall|k: int, l: int| 0 <= k < l < out.len() ==> #[trigger] out@[k].0 < #[trigger] out@[l].0,
            forall|j: int| 0 <= j < i && #[trigger] spec_settings()[j].group@ == group@ ==>
                exists|k: int| 0 <= k < out.len() && out@[k].0 == j,
        decreases table.len() - i,
    {
        if str_eq(table[i].group, group) {
            let ghost before = out@;
            out.push((i, table[i]));
            assert forall|j: int| 0 <= j < i + 1 && #[trigger] spec_settings()[j].group@ == group@ implies
                exists|k: int| 0 <= k < out.len() && out@[k].0 == j by {
                if j < i {
                    let k = choose|k: int| 0 <= k < before.len() && before[k].0 == j;
                    assert(out@[k] == before[k]);
                } else {
                    assert(out@[out.len() - 1].0 == j);
                }
            }
        }
        i = i + 1;
    }
    out
}

/// Whether two rows are the same row of the table.
pub open spec fn same_setting(a: Setting, b: Setting) -> bool {
    a.group@ == b.group@ && a.label@ == b.label@ && a.key@ == b.key@ && a.kind == b.kind && a.ex@ == b.ex@
}

/// Where a row sits in the table: the first row that is the same as `setting`, or 0.
pub fn index_of(setting: &Setting) -> (r: usize)
    ensures
        r < ROWS,
        (exists|i: int| 0 <= i < ROWS && same_setting(spec_settings()[i], *setting)) ==> {
            &&& same_setting(spec_settings()[r as int], *setting)
            &&& forall|i: int| 0 <= i < r ==> !same_setting(#[trigger] spec_settings()[i], *setting)
        },
        !(exists|i: int| 0 <= i < ROWS && same_setting(spec_settings()[i], *setting)) ==> r == 0,
{
    let table = settings();
    let mut i: usize = 0;
    while i < table.len()
        invariant
            table@ == spec_settings(),
            i <= table.len(),
            forall|j: int| 0 <= j < i ==> !same_setting(#[trigger] spec_settings()[j], *setting),
        decreases table.len() - i,
    {
        let c = table[i];
        if str_eq(c.group, setting.group) && str_eq(c.label, setting.label) && str_eq(c.key, setting.key)
            && c.kind == setting.kind && str_eq(c.ex, setting.ex) {
            return i;
        }
        i = i + 1;
    }
    0
}

/// What the page needs to remember between frames.
pub struct SettingsState {
    /// The row the cursor is on, as an index into the table.
    pub selected: usize,
}

impl Default for SettingsState {
    /// The cursor on the first row.
    fn default() -> (r: Self)
        ensures
            r.selected == 0,
    {
        SettingsState { selected: 0 }
    }
}

impl SettingsState {
    /// Move the cursor `step` rows, wrapping through the whole table.
    pub fn move_by(&mut self, step: i32)
        ensures
            final(self).selected == wrapped(old(self).selected as int, step as int, ROWS as int),
    {
        proof {
            crate::wrap::lemma_wrap_from_any(old(self).selected as int, step as int, ROWS as int);
        }
        self.selected = wrap_index(self.selected % ROWS, step as isize, ROWS);
    }
}

/// Every row can be reached: stepping the cursor one row at a time from the first row visits
/// row `k` after `k` steps.
pub proof fn every_row_is_reachable(k: int)
    requires
        0 <= k < ROWS,
    ensures
        wrapped(0, k, ROWS as int) == k,
{
    vstd::arithmetic::div_mod::lemma_fundamental_div_mod_converse(k, ROWS as int, 0, k);
}

/// The options the command's argument can take, as characters.
pub open spec fn option_views(options: Seq<String>) -> Seq<Seq<char>> {
    options.map_values(|o: String| o@)
}

/// Whether `i` is the first place `value` occurs in `options`.
pub open spec fn first_at(options: Seq<Seq<char>>, value: Seq<char>, i: int) -> bool {
    0 <= i < options.len() && options[i] == value && forall|j: int| 0 <= j < i ==> options[j] != value
}

/// Where `value` is among the options, first match.
pub open spec fn position_of(options: Seq<Seq<char>>, value: Seq<char>) -> Option<int> {
    if exists|i: int| first_at(options, value, i) { Some(choose|i: int| first_at(options, value, i)) } else { None }
}

/// The `:` line a step on a row runs: `Ok(None)` when the step does nothing (`←` on a row that
/// only cycles), `Err` when a choice has no options at all.
pub open spec fn change_line(setting: Setting, forward: bool, current: Option<Seq<char>>, options: Seq<Seq<char>>) -> Result<Option<Seq<char>>, Seq<char>> {
    match setting.kind {
        SettingKind::Toggle => {
            let on = current == Some("on"@);
            Ok(Some(setting.ex@ + " "@ + if on { "off"@ } else { "on"@ }))
        },
        SettingKind::Cycle => if !forward { Ok(None) } else { Ok(Some(setting.ex@)) },
        SettingKind::Choice => if options.len() == 0 {
            Err("`"@ + setting.ex@ + "` 没有可选的取值"@)
        } else {
            let next = match position_of(options, current.unwrap_or(Seq::empty())) {
                Some(at) => if current is Some { wrapped(at, if forward { 1 } else { -1 }, options.len() as int) } else { 0 },
                None => 0,
            };
            Ok(Some(setting.ex@ + " "@ + options[next]))
        },
    }
}

/// The value a step forward from `v0` puts on the row: the other side of a toggle, the next
/// option of a choice.
pub open spec fn forward_value(setting: Setting, v0: Seq<char>, options: Seq<Seq<char>>) -> Seq<char> {
    match setting.kind {
        SettingKind::Toggle => if v0 == "on"@ { "off"@ } else { "on"@ },
        _ => options[wrapped(position_of(options, v0).unwrap_or(0), 1, options.len() as int)],
    }
}

/// In a list of options with no repeats, the option at `p` is found at `p`.
proof fn lemma_position_of_distinct(options: Seq<Seq<char>>, p: int)
    requires
        options.no_duplicates(),
        0 <= p < options.len(),
    ensures
        position_of(options, options[p]) == Some(p),
{
    assert(first_at(options, options[p], p));
    let k = choose|i: int| first_at(options, options[p], i);
    assert(k == p) by {
        if k < p {
            assert(options[k] == options[p]);
        } else if k > p {
            assert(options[p] == options[p]);
        }
    }
}

/// A step forward and then a step back puts a row back where it was: a toggle that is on or off
/// flips and flips back; a choice set to one of its options (none repeated) moves to the next
/// one, a different one when there are two or more, and back; and a row that only cycles runs
/// nothing backwards.
pub proof fn stepping_forward_then_back_returns(setting: Setting, v0: Seq<char>, options: Seq<Seq<char>>)
    requires
        setting.kind == SettingKind::Toggle ==> v0 == "on"@ || v0 == "off"@,
        setting.kind == SettingKind::Choice ==> options.contains(v0) && options.no_duplicates(),
    ensures
        setting.kind == SettingKind::Cycle ==> change_line(setting, false, Some(v0), options) == Ok::<Option<Seq<char>>, Seq<char>>(None),
        setting.kind != SettingKind::Cycle ==> ({
            let v1 = forward_value(setting, v0, options);
            &&& change_line(setting, true, Some(v0), options) == Ok::<Option<Seq<char>>, Seq<char>>(Some(setting.ex@ + " "@ + v1))
            &&& change_line(setting, false, Some(v1), options) == Ok::<Option<Seq<char>>, Seq<char>>(Some(setting.ex@ + " "@ + v0))
            &&& (setting.kind == SettingKind::Toggle || options.len() >= 2) ==> v1 != v0
        }),
{
    reveal_strlit("on");
    reveal_strlit("off");
    if setting.kind == SettingKind::Choice {
        let n = options.len() as int;
        let p = choose|i: int| 0 <= i < options.len() && options[i] == v0;
        lemma_position_of_distinct(options, p);
        crate::wrap::stepping_back_undoes_a_step(p, 1, n);
        let q = wrapped(p, 1, n);
        lemma_position_of_distinct(options, q);
        assert(options[q] != v0 || n < 2) by {
            if n >= 2 {
                if p + 1 < n {
                    vstd::arithmetic::div_mod::lemma_fundamental_div_mod_converse(p + 1, n, 0, p + 1);
                } else {
                    vstd::arithmetic::div_mod::lemma_fundamental_div_mod_converse(p + 1, n, 1, 0);
                }
                assert(q != p);
            }
        }
    }
}

/// Where `v` is among `options`, first match.
fn find_option(options: &Vec<String>, v: &str) -> (r: Option<usize>)
    ensures
        match r {
            Some(at) => position_of(option_views(options@), v@) == Some(at as int) && at < options.len(),
            None => position_of(option_views(options@), v@) is None,
        },
{
    let ghost opts = option_views(options@);
    let mut i: usize = 0;
    while i < options.len()
        invariant
            opts == option_views(options@),
            i <= options.len(),
            forall|j: int| 0 <= j < i ==> opts[j] != v@,
        decreases options.len() - i,
    {
        if str_eq(options[i].as_str(), v) {
            proof {
                assert(first_at(opts, v@, i as int));
                let k = choose|k: int| first_at(opts, v@, k);
                assert(k == i as int) by {
                    if k < i as int {
                        assert(opts[k] == v@);
                    } else if k > i as int {
                        assert(opts[i as int] == v@);
                    }
                }
            }
            return Some(i);
        }
        i = i + 1;
    }
    proof {
        if exists|k: int| first_at(opts, v@, k) {
            let k = choose|k: int| first_at(opts, v@, k);
            assert(opts[k] == v@);
        }
    }
    None
}

/// Change a row by one step: the `:` line that does it, exactly as if it had been typed, given
/// the row's current value and the options its command offers. A toggle flips; a command that
/// only cycles runs forwards and does nothing backwards (`Ok(None)`); a choice steps through its
/// options, wrapping, and lands on the first when the value matches none.
pub fn change(setting: &Setting, forward: bool, current: Option<&str>, options: &Vec<String>) -> (r: Result<Option<String>, String>)
    ensures
        match (r, change_line(*setting, forward, crate::command::opt_view(current), option_views(options@))) {
            (Ok(Some(line)), Ok(Some(expected))) => line@ == expected,
            (Ok(None), Ok(None)) => true,
            (Err(e), Err(expected)) => e@ == expected,
            _ => false,
        },
{
    proof {
        reveal_strlit("on");
        reveal_strlit("off");
        reveal_strlit(" ");
        reveal_strlit("`");
        reveal_strlit("` 没有可选的取值");
    }
    match setting.kind {
        SettingKind::Toggle => {
            let on = match current {
                Some(v) => str_eq(v, "on"),
                None => false,
            };
            let mut line = owned(setting.ex);
            append(&mut line, " ");
            append(&mut line, if on { "off" } else { "on" });
            Ok(Some(line))
        },
        SettingKind::Cycle => {
            if !forward {
                return Ok(None);
            }
            Ok(Some(owned(setting.ex)))
        },
        SettingKind::Choice => {
            if options.len() == 0 {
                let mut e = owned("`");
                append(&mut e, setting.ex);
                append(&mut e, "` 没有可选的取值");
                return Err(e);
            }
            let found: Option<usize> = match current {
                Some(v) => find_option(options, v),
                None => None,
            };
            let next: usize = match found {
                Some(at) => wrap_index(at, if forward { 1 } else { -1 }, options.len()),
                None => 0,
            };
            let mut line = owned(setting.ex);
            append(&mut line, " ");
            append(&mut line, options[next].as_str());
            Ok(Some(line))
        },
    }
}

} // verus!
