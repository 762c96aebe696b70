//! One thing the user can ask for, described once and reached three ways: by key, from the `:`
//! command line, and from the palette.
use vstd::prelude::*;
use crate::seqs::{dedup, dedup_strs, views};
use crate::text::{owned, push_char, str_eq};

verus! {

/// One command: what it is called, what it says of itself, and where it is listed.
#[derive(Debug, Clone, Copy)]
pub struct Command {
    /// The name it answers to on the `:` line, and what the palette shows.
    pub name: &'static str,
    /// One line, for the palette.
    pub summary: &'static str,
    /// A key that does the same thing, when one exists. Shown, never parsed.
    pub key: Option<&'static str>,
    /// What `:` would run — the command line's whole vocabulary, one text per entry.
    pub ex: &'static str,
    /// Whether it needs an argument: the palette then opens the command line prefilled.
    pub needs_argument: bool,
    /// Whether the palette lists it at all. Aliases such as `q` are for the command line.
    pub in_palette: bool,
    /// The palette section this entry sits in, `None` for the root list.
    pub group: Option<&'static str>,
}

pub open spec fn spec_simple(name: &'static str, summary: &'static str, key: Option<&'static str>) -> Command {
    Command { name, summary, key, ex: name, needs_argument: false, in_palette: true, group: None }
}

pub open spec fn spec_setting(name: &'static str, ex: &'static str, summary: &'static str, group: &'static str) -> Command {
    Command { name, summary, key: None, ex, needs_argument: false, in_palette: true, group: Some(group) }
}

/// Shorthand for the common case: runs its own name, no argument, listed in the palette, no
/// section of its own.
pub fn simple(name: &'static str, summary: &'static str, key: Option<&'static str>) -> (r: Command)
    ensures
        r == spec_simple(name, summary, key),
{
    Command { name, summary, key, ex: name, needs_argument: false, in_palette: true, group: None }
}

/// Shorthand for a setting: listed in the palette inside `group`; bare, it toggles or cycles.
pub fn setting(name: &'static str, ex: &'static str, summary: &'static str, group: &'static str) -> (r: Command)
    ensures
        r == spec_setting(name, ex, summary, group),
{
    Command { name, summary, key: None, ex, needs_argument: false, in_palette: true, group: Some(group) }
}

/// Every command the UI offers, in the order the palette lists them.
pub open spec fn spec_commands() -> Seq<Command> {
    seq![
        spec_simple("help", "快捷键面板", Some("?")),
        spec_simple("login", "登录页（二维码 / 账号 / 短信 / 签到）", Some("L")),
        spec_simple("logout", "退出登录", None),
        spec_simple("sign", "在登录页里每日签到", None),
        spec_simple("visualizer", "频谱开关", Some("v")),
        spec_simple("pitch", "音高读数开关", Some("V")),
        spec_simple("layout", "播放条布局", None),
        spec_simple("border", "边框模式开关", Some("b")),
        spec_simple("navpos", "切换导航栏位置", Some("z")),
        spec_simple("save", "立即写回配置", None),
        spec_simple("quit", "退出程序", Some("q")),
        Command { name: "q", summary: "退出程序（:quit 的别名）", key: None, ex: "q", needs_argument: false, in_palette: false, group: None },
        Command { name: "theme", summary: "切换主题", key: None, ex: "theme", needs_argument: true, in_palette: true, group: None },
        Command { name: "volume", summary: "音量（0-100 或 +5 / -5）", key: None, ex: "volume", needs_argument: true, in_palette: true, group: None },
        Command { name: "seek", summary: "跳转（秒、+15、-30 或 50%）", key: None, ex: "seek", needs_argument: true, in_palette: true, group: None },
        Command { name: "signin", summary: "在登录页里用账号密码登录", key: None, ex: "signin", needs_argument: true, in_palette: true, group: None },
        Command { name: "sms", summary: "在登录页里发送短信验证码", key: None, ex: "sms", needs_argument: true, in_palette: true, group: None },
        Command { name: "smslogin", summary: "在登录页里用短信验证码登录", key: None, ex: "smslogin", needs_argument: true, in_palette: true, group: None },
        spec_setting("notify", "notify song_change", "切歌时通知当前曲目", "通知"),
        spec_setting("notify", "notify errors", "播放出错时通知", "通知"),
        spec_setting("mouse", "mouse", "鼠标捕获开关", "终端"),
        spec_setting("cursor", "cursor", "输入框光标形状", "终端"),
        spec_setting("lyrics", "lyrics", "歌词显示样式", "歌词"),
        spec_setting("lyricgradient", "lyricgradient", "歌词渐变预设", "歌词"),
        spec_setting("saveonplay", "saveonplay", "边听边存开关", "缓存")
    ]
}

/// Every command the UI offers, in the order the palette lists them.
pub fn commands() -> (r: Vec<Command>)
    ensures
        r@ == spec_commands(),
{
    let mut v: Vec<Command> = Vec::new();
    v.push(simple("help", "快捷键面板", Some("?")));
    v.push(simple("login", "登录页（二维码 / 账号 / 短信 / 签到）", Some("L")));
    v.push(simple("logout", "退出登录", None));
    v.push(simple("sign", "在登录页里每日签到", None));
    v.push(simple("visualizer", "频谱开关", Some("v")));
    v.push(simple("pitch", "音高读数开关", Some("V")));
    v.push(simple("layout", "播放条布局", None));
    v.push(simple("border", "边框模式开关", Some("b")));
    v.push(simple("navpos", "切换导航栏位置", Some("z")));
    v.push(simple("save", "立即写回配置", None));
    v.push(simple("quit", "退出程序", Some("q")));
    v.push(Command { name: "q", summary: "退出程序（:quit 的别名）", key: None, ex: "q", needs_argument: false, in_palette: false, group: None });
    v.push(Command { name: "theme", summary: "切换主题", key: None, ex: "theme", needs_argument: true, in_palette: true, group: None });
    v.push(Command { name: "volume", summary: "音量（0-100 或 +5 / -5）", key: None, ex: "volume", needs_argument: true, in_palette: true, group: None });
    v.push(Command { name: "seek", summary: "跳转（秒、+15、-30 或 50%）", key: None, ex: "seek", needs_argument: true, in_palette: true, group: None });
    v.push(Command { name: "signin", summary: "在登录页里用账号密码登录", key: None, ex: "signin", needs_argument: true, in_palette: true, group: None });
    v.push(Command { name: "sms", summary: "在登录页里发送短信验证码", key: None, ex: "sms", needs_argument: true, in_palette: true, group: None });
    v.push(Command { name: "smslogin", summary: "在登录页里用短信验证码登录", key: None, ex: "smslogin", needs_argument: true, in_palette: true, group: None });
    v.push(setting("notify", "notify song_change", "切歌时通知当前曲目", "通知"));
    v.push(setting("notify", "notify errors", "播放出错时通知", "通知"));
    v.push(setting("mouse", "mouse", "鼠标捕获开关", "终端"));
    v.push(setting("cursor", "cursor", "输入框光标形状", "终端"));
    v.push(setting("lyrics", "lyrics", "歌词显示样式", "歌词"));
    v.push(setting("lyricgradient", "lyricgradient", "歌词渐变预设", "歌词"));
    v.push(setting("saveonplay", "saveonplay", "边听边存开关", "缓存"));
    assert(v@ =~= spec_commands());
    v
}

/// The names of `cs`, in order.
pub open spec fn names_of(cs: Seq<Command>) -> Seq<Seq<char>> {
    cs.map_values(|c: Command| c.name@)
}

/// Every `:` name, in table order, once each — what completion offers.
pub fn command_names() -> (r: Vec<&'static str>)
    ensures
        views(r@) == dedup(names_of(spec_commands())),
{
    let table = commands();
    let mut names: Vec<&'static str> = Vec::new();
    let mut i: usize = 0;
    while i < table.len()
        invariant
            table@ == spec_commands(),
            i <= table.len(),
            names@.len() == i,
            forall|j: int| 0 <= j < i ==> #[trigger] names@[j] == table@[j].name,
        decreases table.len() - i,
    {
        names.push(table[i].name);
        i = i + 1;
    }
    assert(views(names@) =~= names_of(spec_commands()));
    dedup_strs(&names)
}

/// The characters of an optional slice.
pub open spec fn opt_view(s: Option<&str>) -> Option<Seq<char>> {
    match s {
        Some(x) => Some(x@),
        None => None,
    }
}

fn opt_str_eq(a: Option<&str>, b: Option<&str>) -> (r: bool)
    ensures
        r == (opt_view(a) == opt_view(b)),
{
    match (a, b) {
        (Some(x), Some(y)) => str_eq(x, y),
        (None, None) => true,
        _ => false,
    }
}

/// What the palette's Enter asks the app to do.
#[derive(Debug, Clone, PartialEq, Eq)]
pub enum PanelAction {
    /// Run this command line.
    Run(String),
    /// Open the command line with this text, cursor at the end.
    Prefill(String),
}

/// One entry of the palette: a command to run, or a section to open.
#[derive(Debug)]
pub enum CommandItem {
    Action {
        name: String,
        summary: &'static str,
        key: Option<&'static str>,
        /// The `:` line this runs, or prefills when `needs_argument`.
        ex: String,
        needs_argument: bool,
    },
    SubMenu {
        name: String,
        children: Vec<CommandItem>,
    },
}

/// What a palette entry shows and does, as characters.
pub enum ItemView {
    Action { name: Seq<char>, summary: Seq<char>, key: Option<Seq<char>>, ex: Seq<char>, needs_argument: bool },
    SubMenu { name: Seq<char>, children: Seq<ItemView> },
}

pub open spec fn view_item(i: CommandItem) -> ItemView
    decreases i,
{
    match i {
        CommandItem::Action { name, summary, key, ex, needs_argument } =>
            ItemView::Action { name: name@, summary: summary@, key: opt_view(key), ex: ex@, needs_argument },
        CommandItem::SubMenu { name, children } => ItemView::SubMenu { name: name@, children: view_items(children@) },
    }
}

pub open spec fn view_items(s: Seq<CommandItem>) -> Seq<ItemView>
    decreases s,
{
    if s.len() == 0 { Seq::empty() } else { view_items(s.drop_last()).push(view_item(s.last())) }
}

/// `view_items` entry by entry.
pub proof fn view_items_index(s: Seq<CommandItem>, i: int)
    requires
        0 <= i < s.len(),
    ensures
        view_items(s).len() == s.len(),
        view_items(s)[i] == view_item(s[i]),
    decreases s.len(),
{
    lemma_view_items_len(s);
    if i < s.len() - 1 {
        view_items_index(s.drop_last(), i);
    }
}

proof fn lemma_view_items_len(s: Seq<CommandItem>)
    ensures
        view_items(s).len() == s.len(),
    decreases s.len(),
{
    if s.len() > 0 {
        lemma_view_items_len(s.drop_last());
    }
}

/// A copy of an entry, down to every entry under it.
pub fn copy_item(i: &CommandItem) -> (r: CommandItem)
    ensures
        view_item(r) == view_item(*i),
    decreases i,
{
    match i {
        CommandItem::Action { name, summary, key, ex, needs_argument } => {
            let r = CommandItem::Action { name: name.clone(), summary: *summary, key: *key, ex: ex.clone(), needs_argument: *needs_argument };
            assert(view_item(r) == view_item(*i));
            r
        },
        CommandItem::SubMenu { name, children } => {
            let mut out: Vec<CommandItem> = Vec::new();
            let mut k: usize = 0;
            assert(children@.take(0) =~= Seq::<CommandItem>::empty());
            while k < children.len()
                invariant
                    k <= children.len(),
                    i is SubMenu,
                    i->children == *children,
                    view_items(out@) == view_items(children@.take(k as int)),
                decreases children.len() - k,
            {
                proof {
                    assert(decreases_to!(*i => i->children));
                    assert(decreases_to!(i->children => i->children@));
                    assert(decreases_to!(i->children@ => i->children@[k as int]));
                }
                let c = copy_item(&children[k]);
                let ghost before = out@;
                out.push(c);
                assert(out@.drop_last() =~= before);
                assert(children@.take(k + 1).drop_last() =~= children@.take(k as int));
                k = k + 1;
            }
            assert(children@.take(children.len() as int) =~= children@);
            let r = CommandItem::SubMenu { name: name.clone(), children: out };
            assert(view_item(r) == ItemView::SubMenu { name: name@, children: view_items(out@) });
            r
        },
    }
}

/// A copy of a list of entries.
pub fn copy_items(items: &Vec<CommandItem>) -> (r: Vec<CommandItem>)
    ensures
        view_items(r@) == view_items(items@),
{
    let mut out: Vec<CommandItem> = Vec::new();
    let mut k: usize = 0;
    assert(items@.take(0) =~= Seq::<CommandItem>::empty());
    while k < items.len()
        invariant
            k <= items.len(),
            view_items(out@) == view_items(items@.take(k as int)),
        decreases items.len() - k,
    {
        let c = copy_item(&items[k]);
        let ghost before = out@;
        out.push(c);
        assert(out@.drop_last() =~= before);
        assert(items@.take(k + 1).drop_last() =~= items@.take(k as int));
        k = k + 1;
    }
    assert(items@.take(items.len() as int) =~= items@);
    out
}

/// Whether the palette lists `c` in the section `group` (`None`: the root list). `theme` is the
/// registry's submenu, so its own entry is never listed.
pub open spec fn in_section(c: Command, group: Option<Seq<char>>) -> bool {
    c.in_palette && c.name@ != "theme"@ && opt_view(c.group) == group
}

/// The palette entry of a command.
pub open spec fn action_view(c: Command) -> ItemView {
    ItemView::Action { name: c.ex@, summary: c.summary@, key: opt_view(c.key), ex: c.ex@, needs_argument: c.needs_argument }
}

/// The entries of one section, in table order.
pub open spec fn section_view(cs: Seq<Command>, group: Option<Seq<char>>) -> Seq<ItemView>
    decreases cs.len(),
{
    if cs.len() == 0 {
        Seq::empty()
    } else {
        let p = section_view(cs.drop_last(), group);
        if in_section(cs.last(), group) { p.push(action_view(cs.last())) } else { p }
    }
}

/// The sections named in `cs`, in table order, with repeats.
pub open spec fn groups_of(cs: Seq<Command>) -> Seq<Seq<char>>
    decreases cs.len(),
{
    if cs.len() == 0 {
        Seq::empty()
    } else {
        let p = groups_of(cs.drop_last());
        match cs.last().group {
            Some(g) => p.push(g@),
            None => p,
        }
    }
}

/// The submenus of the palette, one per section in the order its first entry appears.
pub open spec fn submenus(cs: Seq<Command>, groups: Seq<Seq<char>>) -> Seq<ItemView>
    decreases groups.len(),
{
    if groups.len() == 0 {
        Seq::empty()
    } else {
        submenus(cs, groups.drop_last()).push(
            ItemView::SubMenu { name: groups.last(), children: section_view(cs, Some(groups.last())) },
        )
    }
}

/// The palette: the plain commands, then one submenu per section.
pub open spec fn palette_view() -> Seq<ItemView> {
    section_view(spec_commands(), None) + submenus(spec_commands(), dedup(groups_of(spec_commands())))
}

/// The entries of one section, `None` for the root list.
fn section(table: &Vec<Command>, group: Option<&str>) -> (r: Vec<CommandItem>)
    ensures
        view_items(r@) == section_view(table@, opt_view(group)),
{
    proof { reveal_strlit("theme"); }
    let mut out: Vec<CommandItem> = Vec::new();
    let mut i: usize = 0;
    while i < table.len()
        invariant
            i <= table.len(),
            view_items(out@) == section_view(table@.take(i as int), opt_view(group)),
        decreases table.len() - i,
    {
        let c = table[i];
        assert(table@.take(i + 1).drop_last() =~= table@.take(i as int));
        assert(table@.take(i + 1).last() == c);
        if c.in_palette && !str_eq(c.name, "theme") && opt_str_eq(c.group, group) {
            let ghost before = out@;
            out.push(CommandItem::Action {
                name: owned(c.ex),
                summary: c.summary,
                key: c.key,
                ex: owned(c.ex),
                needs_argument: c.needs_argument,
            });
            assert(out@.drop_last() =~= before);
            assert(view_item(out@.last()) == action_view(c));
            assert(view_items(out@) == view_items(before).push(view_item(out@.last())));
        }
        i = i + 1;
    }
    assert(table@.take(table.len() as int) =~= table@);
    out
}

/// The palette's entries, every one of them from the command table: the plain commands, then one
/// submenu per section. The theme submenu is not here — only the theme registry knows its
/// children — so the caller puts it in front of these.
pub fn palette_items() -> (r: Vec<CommandItem>)
    ensures
        view_items(r@) == palette_view(),
{
    let table = commands();
    let mut items = section(&table, None);

    // The sections, in the order their first entry appears in the table.
    let mut all_groups: Vec<&'static str> = Vec::new();
    let mut i: usize = 0;
    assert(table@.take(0) =~= Seq::<Command>::empty());
    while i < table.len()
        invariant
            table@ == spec_commands(),
            i <= table.len(),
            views(all_groups@) == groups_of(table@.take(i as int)),
        decreases table.len() - i,
    {
        assert(table@.take(i + 1).drop_last() =~= table@.take(i as int));
        if let Some(g) = table[i].group {
            all_groups.push(g);
            assert(views(all_groups@) =~= groups_of(table@.take(i + 1)));
        } else {
            assert(views(all_groups@) =~= groups_of(table@.take(i + 1)));
        }
        i = i + 1;
    }
    assert(table@.take(table.len() as int) =~= table@);
    let sections = dedup_strs(&all_groups);

    let ghost root = view_items(items@);
    let mut k: usize = 0;
    assert(views(sections@).take(0) =~= Seq::<Seq<char>>::empty());
    assert(root + submenus(spec_commands(), Seq::empty()) =~= root);
    while k < sections.len()
        invariant
            table@ == spec_commands(),
            k <= sections.len(),
            root == section_view(spec_commands(), None),
            view_items(items@) == root + submenus(spec_commands(), views(sections@).take(k as int)),
        decreases sections.len() - k,
    {
        let g = sections[k];
        let children = section(&table, Some(g));
        let ghost before = items@;
        items.push(CommandItem::SubMenu { name: owned(g), children });
        assert(items@.drop_last() =~= before);
        assert(view_items(items@) == view_items(before).push(view_item(items@.last())));
        assert(view_item(items@.last()) == ItemView::SubMenu { name: g@, children: section_view(spec_commands(), Some(g@)) });
        assert(views(sections@).take(k + 1).drop_last() =~= views(sections@).take(k as int));
        assert(views(sections@).take(k + 1).last() == g@);
        assert(submenus(spec_commands(), views(sections@).take(k + 1))
            == submenus(spec_commands(), views(sections@).take(k as int)).push(view_item(items@.last())));
        assert(root + submenus(spec_commands(), views(sections@).take(k + 1))
            =~= (root + submenus(spec_commands(), views(sections@).take(k as int))).push(view_item(items@.last())));
        k = k + 1;
    }
    assert(views(sections@).take(sections.len() as int) =~= views(sections@));
    items
}

/// One open level of the palette: the items on screen, and the title the popup's border shows.
pub struct PanelLevel {
    pub title: String,
    pub items: Vec<CommandItem>,
}

/// A title between the palette's arrows: `► title ◄`.
pub open spec fn arrowed(title: Seq<char>) -> Seq<char> {
    seq!['\u{25BA}', ' '] + title + seq![' ', '\u{25C4}']
}

impl PanelLevel {
    /// A level listing `items` under `title`, written between the arrows.
    pub fn new(title: &str, items: Vec<CommandItem>) -> (r: Self)
        ensures
            r.title@ == arrowed(title@),
            r.items == items,
    {
        let mut t = String::new();
        push_char(&mut t, '\u{25BA}');
        push_char(&mut t, ' ');
        t.append(title);
        push_char(&mut t, ' ');
        push_char(&mut t, '\u{25C4}');
        assert(t@ =~= arrowed(title@));
        PanelLevel { title: t, items }
    }
}

/// One open level of the palette, as characters.
pub struct LevelView {
    pub title: Seq<char>,
    pub items: Seq<ItemView>,
}

pub open spec fn level_view(l: PanelLevel) -> LevelView {
    LevelView { title: l.title@, items: view_items(l.items@) }
}

/// The command palette: whether it is up, the cursor, and the levels that are open.
pub struct CommandPanel {
    pub open: bool,
    pub selected: usize,
    /// One entry per open level, outermost first.
    levels: Vec<PanelLevel>,
}

impl Default for CommandPanel {
    /// An empty panel.
    fn default() -> (r: Self)
        ensures
            !r.is_open(),
            r.cursor() == 0,
            r.levels() == Seq::<LevelView>::empty(),
    {
        CommandPanel::new()
    }
}

impl CommandPanel {
    /// The open levels, outermost first.
    pub closed spec fn levels(&self) -> Seq<LevelView> {
        self.levels@.map_values(|l: PanelLevel| level_view(l))
    }

    pub closed spec fn is_open(&self) -> bool {
        self.open
    }

    pub closed spec fn cursor(&self) -> usize {
        self.selected
    }

    /// The cursor is on an entry of the innermost level, when a level is open.
    pub open spec fn wf(&self) -> bool {
        self.levels().len() > 0 ==> self.cursor() < self.levels().last().items.len()
    }

    /// An empty panel; the app fills it with [`Self::with_root`].
    pub fn new() -> (r: Self)
        ensures
            !r.is_open(),
            r.cursor() == 0,
            r.levels() == Seq::<LevelView>::empty(),
    {
        let r = CommandPanel { open: false, selected: 0, levels: Vec::new() };
        assert(r.levels() =~= Seq::<LevelView>::empty());
        r
    }

    /// A panel whose root lists `items` under `title`.
    pub fn with_root(title: &str, items: Vec<CommandItem>) -> (r: Self)
        ensures
            !r.is_open(),
            r.cursor() == 0,
            r.levels() == seq![LevelView { title: arrowed(title@), items: view_items(items@) }],
    {
        let level = PanelLevel::new(title, items);
        let mut levels: Vec<PanelLevel> = Vec::new();
        levels.push(level);
        let r = CommandPanel { open: false, selected: 0, levels };
        assert(r.levels() =~= seq![LevelView { title: arrowed(title@), items: view_items(items@) }]);
        r
    }

    /// Bring the palette up or take it down, and put the cursor on an entry.
    pub fn set_open(&mut self, open: bool)
        ensures
            final(self).is_open() == open,
            final(self).cursor() == old(self).cursor(),
            final(self).levels() == old(self).levels(),
    {
        self.open = open;
    }

    /// The items on screen: the innermost level's.
    pub fn current_items(&self) -> (r: Option<&Vec<CommandItem>>)
        ensures
            match r {
                Some(v) => self.levels().len() > 0 && view_items(v@) == self.levels().last().items,
                None => self.levels().len() == 0,
            },
    {
        let n = self.levels.len();
        if n == 0 {
            None
        } else {
            Some(&self.levels[n - 1].items)
        }
    }

    /// The title the popup's border shows: the innermost level's, empty when none is open.
    pub fn current_title(&self) -> (r: &str)
        ensures
            r@ == if self.levels().len() > 0 { self.levels().last().title } else { Seq::<char>::empty() },
    {
        proof { reveal_strlit(""); }
        let n = self.levels.len();
        if n == 0 {
            ""
        } else {
            self.levels[n - 1].title.as_str()
        }
    }

    /// What Enter on the entry under the cursor does: a command is run, or prefilled when it
    /// needs an argument; a section is opened, cursor on its first entry.
    pub fn enter(&mut self) -> (r: Option<PanelAction>)
        requires
            old(self).wf(),
        ensures
            old(self).levels().len() == 0 ==> r is None && final(self).levels() == old(self).levels()
                && final(self).cursor() == old(self).cursor() && final(self).is_open() == old(self).is_open(),
            old(self).levels().len() > 0 ==> match old(self).levels().last().items[old(self).cursor() as int] {
                ItemView::Action { ex, needs_argument, .. } => {
                    &&& final(self).levels() == old(self).levels()
                    &&& final(self).cursor() == old(self).cursor()
                    &&& final(self).is_open() == old(self).is_open()
                    &&& if needs_argument {
                        r matches Some(PanelAction::Prefill(line)) && line@ == ex.push(' ')
                    } else {
                        r matches Some(PanelAction::Run(line)) && line@ == ex
                    }
                },
                ItemView::SubMenu { name, children } => {
                    &&& r is None
                    &&& final(self).levels() == old(self).levels().push(LevelView { title: arrowed(name), items: children })
                    &&& final(self).cursor() == 0
                    &&& final(self).is_open() == old(self).is_open()
                },
            },
    {
        let n = self.levels.len();
        if n == 0 {
            return None;
        }
        let ghost lv = self.levels@[n - 1];
        assert(self.levels()[n - 1] == level_view(lv));
        proof {
            lemma_view_items_len(lv.items@);
            view_items_index(lv.items@, self.selected as int);
        }
        let item = &self.levels[n - 1].items[self.selected];
        match item {
            CommandItem::Action { ex, needs_argument, .. } => {
                if *needs_argument {
                    let mut line = ex.clone();
                    push_char(&mut line, ' ');
                    Some(PanelAction::Prefill(line))
                } else {
                    Some(PanelAction::Run(ex.clone()))
                }
            },
            CommandItem::SubMenu { name, children } => {
                let level = PanelLevel::new(name.as_str(), copy_items(children));
                let ghost before = self.levels@;
                self.selected = 0;
                self.levels.push(level);
                assert(self.levels() =~= old(self).levels().push(level_view(level)));
                None
            },
        }
    }

    /// Leave the innermost section for the one around it, cursor on its first entry; at the
    /// root, close the palette.
    pub fn back(&mut self)
        ensures
            old(self).levels().len() > 1 ==> {
                &&& final(self).levels() == old(self).levels().drop_last()
                &&& final(self).cursor() == 0
                &&& final(self).is_open() == old(self).is_open()
            },
            old(self).levels().len() <= 1 ==> {
                &&& final(self).levels() == old(self).levels()
                &&& final(self).cursor() == old(self).cursor()
                &&& !final(self).is_open()
            },
    {
        if self.levels.len() > 1 {
            let _ = self.levels.pop();
            self.selected = 0;
            assert(self.levels() =~= old(self).levels().drop_last());
        } else {
            self.open = false;
        }
    }
}

/// Opening a section and leaving it again puts the palette back where it was, one level up:
/// entering pushes exactly one level and `back` pops exactly that one.
pub proof fn entering_then_leaving_a_section_returns(levels: Seq<LevelView>, entered: LevelView)
    requires
        levels.len() > 0,
    ensures
        levels.push(entered).len() > 1,
        levels.push(entered).drop_last() == levels,
{
    assert(levels.push(entered).drop_last() =~= levels);
}

/// The completion vocabulary names every command and names each once.
pub proof fn every_name_is_offered_once()
    ensures
        crate::seqs::distinct(dedup(names_of(spec_commands()))),
        forall|n: Seq<char>| dedup(names_of(spec_commands())).contains(n) <==> names_of(spec_commands()).contains(n),
{
    crate::seqs::dedup_keeps_each_element_once(names_of(spec_commands()));
}

/// The palette's sections are distinct, and a section is there exactly when some command names it.
pub proof fn every_section_appears_once()
    ensures
        crate::seqs::distinct(dedup(groups_of(spec_commands()))),
        forall|g: Seq<char>| dedup(groups_of(spec_commands())).contains(g) <==> groups_of(spec_commands()).contains(g),
{
    crate::seqs::dedup_keeps_each_element_once(groups_of(spec_commands()));
}

} // verus!
