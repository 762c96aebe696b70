//! The page table: what each [`Page`] is called and which key opens it, and the key map the help
//! popup writes from it.
use vstd::prelude::*;
use crate::text::owned;

verus! {

/// Top-level screens the TUI can be on.
#[derive(Debug, Clone, Copy, PartialEq, Eq, Structural)]
pub enum Page {
    Splash,
    Main,
    Lyrics,
    Playlist,
    /// One artist's profile, hot songs and albums; opened from that artist's row, so no key.
    Artist,
    Login,
}

/// What the dispatchers need to know about one page.
#[derive(Debug, Clone, Copy)]
pub struct PageSpec {
    /// Chinese name, as the help key map writes it.
    pub name: &'static str,
    /// The key that opens the page — and, pressed on the page itself, leaves it again.
    pub key: Option<char>,
}

/// The table's key column.
pub open spec fn page_key(p: Page) -> Option<char> {
    match p {
        Page::Splash => None,
        Page::Main => None,
        Page::Lyrics => Some('l'),
        Page::Playlist => Some('f'),
        Page::Artist => None,
        Page::Login => Some('L'),
    }
}

/// The table's name column.
pub open spec fn page_name(p: Page) -> Seq<char> {
    match p {
        Page::Splash => "启动页"@,
        Page::Main => "主界面"@,
        Page::Lyrics => "歌词页 / 主界面"@,
        Page::Playlist => "播放队列 / 主界面"@,
        Page::Artist => "歌手详情 / 主界面"@,
        Page::Login => "登录网易云"@,
    }
}

/// Every page, in table order.
pub open spec fn all_pages() -> Seq<Page> {
    seq![Page::Splash, Page::Main, Page::Lyrics, Page::Playlist, Page::Artist, Page::Login]
}

/// The page a key opens: the first in table order whose key it is.
pub open spec fn opened_by_spec(key: char) -> Option<Page> {
    if key == 'l' {
        Some(Page::Lyrics)
    } else if key == 'f' {
        Some(Page::Playlist)
    } else if key == 'L' {
        Some(Page::Login)
    } else {
        None
    }
}

impl Page {
    /// Every page, in table order.
    pub const ALL: [Page; 6] = [Page::Splash, Page::Main, Page::Lyrics, Page::Playlist, Page::Artist, Page::Login];

    /// The page's row in the table.
    pub fn page_spec(self) -> (r: PageSpec)
        ensures
            r.name@ == page_name(self),
            r.key == page_key(self),
    {
        match self {
            Page::Splash => PageSpec { name: "启动页", key: None },
            Page::Main => PageSpec { name: "主界面", key: None },
            Page::Lyrics => PageSpec { name: "歌词页 / 主界面", key: Some('l') },
            Page::Playlist => PageSpec { name: "播放队列 / 主界面", key: Some('f') },
            Page::Artist => PageSpec { name: "歌手详情 / 主界面", key: None },
            Page::Login => PageSpec { name: "登录网易云", key: Some('L') },
        }
    }

    /// The page a key opens, read from the table's key column.
    pub fn opened_by(key: char) -> (r: Option<Page>)
        ensures
            r == opened_by_spec(key),
            match r {
                Some(p) => page_key(p) == Some(key)
                    && forall|i: int| 0 <= i < all_pages().len() && page_key(#[trigger] all_pages()[i]) == Some(key) ==> all_pages()[i] == p,
                None => forall|i: int| 0 <= i < all_pages().len() ==> page_key(#[trigger] all_pages()[i]) != Some(key),
            },
    {
        let pages = Page::ALL;
        let mut i: usize = 0;
        while i < 6
            invariant
                pages@ == all_pages(),
                i <= 6,
                forall|j: int| 0 <= j < i ==> page_key(#[trigger] all_pages()[j]) != Some(key),
            decreases 6 - i,
        {
            let page = pages[i];
            if page.page_spec().key == Some(key) {
                return Some(page);
            }
            i = i + 1;
        }
        None
    }

    /// Where a page key leads from `self`: the main page opens the page the key names, any
    /// other page goes back to the main page, and the splash ignores keys.
    pub fn on_key(self, key: char) -> (r: Option<Page>)
        ensures
            r == match opened_by_spec(key) {
                None => None,
                Some(opened) => Some(match self {
                    Page::Splash => Page::Splash,
                    Page::Main => opened,
                    _ => Page::Main,
                }),
            },
    {
        let opened = Page::opened_by(key)?;
        Some(match self {
            Page::Splash => Page::Splash,
            Page::Main => opened,
            _ => Page::Main,
        })
    }
}

/// Every key names at most one page, and a page's own key opens it from the main page and comes
/// back from it.
pub proof fn every_page_key_is_bound_once(p: Page, q: Page)
    ensures
        page_key(p) is Some && page_key(p) == page_key(q) ==> p == q,
        page_key(p) matches Some(k) ==> opened_by_spec(k) == Some(p),
{
}

/// One row of the key map: the key, and what it does.
pub type HelpRow = (String, &'static str);

/// A row for a fixed key, one that is not a page's.
pub fn row(key: &'static str, desc: &'static str) -> (r: HelpRow)
    ensures
        r.0@ == key@,
        r.1 == desc,
{
    (owned(key), desc)
}

/// The row a page contributes, straight from its table entry: the key it names, and the page.
pub fn page_row(page: Page) -> (r: Option<HelpRow>)
    ensures
        match page_key(page) {
            Some(k) => r matches Some(row) && row.0@ == seq![k] && row.1@ == page_name(page),
            None => r is None,
        },
{
    let spec = page.page_spec();
    let key = spec.key?;
    let mut text = String::new();
    crate::text::push_char(&mut text, key);
    assert(text@ =~= seq![key]);
    Some((text, spec.name))
}

/// The rows of the key map, key and description, in the order the popup draws them: the fixed
/// rows, with each page's own row spliced in where that key is documented.
pub open spec fn spec_help_rows() -> Seq<(Seq<char>, Seq<char>)> {
    seq![
        ("Ctrl+C/q"@, "退出程序"@),
        (":"@, "命令模式（Tab 补全）"@),
        ("Ctrl+P"@, "命令面板"@),
        (seq!['L'], page_name(Page::Login)),
        ("Tab / ⇧Tab"@, "登录页：切换输入框"@),
        ("← / →"@, "登录页：切换登录方式"@),
        ("Enter"@, "登录页：生成二维码 / 提交 / 发送验证码"@),
        ("Esc"@, "登录页：返回主页"@),
        ("w"@, "清空播放队列"@),
        ("?"@, "帮助"@),
        ("Esc"@, "返回"@),
        ("Tab / ⇧Tab"@, "切换导航区块 / 搜索引擎"@),
        ("↑ / ↓ 或 k / j"@, "上 / 下选择"@),
        ("g / G"@, "跳转顶部 / 底部"@),
        ("Enter"@, "播放选中 / 进入"@),
        ("Space"@, "播放 / 暂停"@),
        ("n / p"@, "下一首 / 上一首"@),
        ("← / →"@, "上一列 / 快退，下一列 / 快进"@),
        ("+ / -"@, "音量增大 / 减小"@),
        ("z"@, "切换导航栏位置"@),
        ("m"@, "循环模式"@),
        (seq!['l'], page_name(Page::Lyrics)),
        (seq!['f'], page_name(Page::Playlist)),
        ("/"@, "搜索 / 过滤"@),
        ("s"@, "喜欢选中歌曲"@),
        ("S"@, "喜欢当前播放歌曲"@),
        ("a"@, "添加到队列下一首播放"@),
        ("d"@, "不感兴趣（每日推荐）/ 取消喜欢选中"@),
        ("D"@, "取消喜欢当前播放歌曲"@),
        ("c"@, "行 / 单元格模式"@),
        ("b"@, "切换边框模式"@),
        ("u"@, "上传缓存歌曲"@),
        ("r"@, "手动刷新列表内容"@),
        ("v"@, "频谱开关"@),
        ("V"@, "音高读数开关"@),
        ("y"@, "歌词译文开关"@),
    ]
}

/// The rows of `items` as characters.
pub open spec fn help_view(items: Seq<HelpRow>) -> Seq<(Seq<char>, Seq<char>)> {
    items.map_values(|r: HelpRow| (r.0@, r.1@))
}

/// The key map the popup draws: the fixed rows, with each page's row spliced in where that key
/// is documented.
pub fn help_items() -> (r: Vec<HelpRow>)
    ensures
        help_view(r@) == spec_help_rows(),
        r@.len() == 36,
        forall|i: int| 0 <= i < 36 ==> (#[trigger] r@[i]).0@ == spec_help_rows()[i].0 && r@[i].1@ == spec_help_rows()[i].1,
{
    let mut items: Vec<HelpRow> = Vec::new();
    items.push(row("Ctrl+C/q", "退出程序"));
    items.push(row(":", "命令模式（Tab 补全）"));
    items.push(row("Ctrl+P", "命令面板"));
    let page = page_row(Page::Login);
    if let Some(r) = page {
        items.push(r);
    }
    items.push(row("Tab / ⇧Tab", "登录页：切换输入框"));
    items.push(row("← / →", "登录页：切换登录方式"));
    items.push(row("Enter", "登录页：生成二维码 / 提交 / 发送验证码"));
    items.push(row("Esc", "登录页：返回主页"));
    items.push(row("w", "清空播放队列"));
    items.push(row("?", "帮助"));
    items.push(row("Esc", "返回"));
    items.push(row("Tab / ⇧Tab", "切换导航区块 / 搜索引擎"));
    items.push(row("↑ / ↓ 或 k / j", "上 / 下选择"));
    items.push(row("g / G", "跳转顶部 / 底部"));
    items.push(row("Enter", "播放选中 / 进入"));
    items.push(row("Space", "播放 / 暂停"));
    items.push(row("n / p", "下一首 / 上一首"));
    items.push(row("← / →", "上一列 / 快退，下一列 / 快进"));
    items.push(row("+ / -", "音量增大 / 减小"));
    items.push(row("z", "切换导航栏位置"));
    items.push(row("m", "循环模式"));
    let page = page_row(Page::Lyrics);
    if let Some(r) = page {
        items.push(r);
    }
    let page = page_row(Page::Playlist);
    if let Some(r) = page {
        items.push(r);
    }
    items.push(row("/", "搜索 / 过滤"));
    items.push(row("s", "喜欢选中歌曲"));
    items.push(row("S", "喜欢当前播放歌曲"));
    items.push(row("a", "添加到队列下一首播放"));
    items.push(row("d", "不感兴趣（每日推荐）/ 取消喜欢选中"));
    items.push(row("D", "取消喜欢当前播放歌曲"));
    items.push(row("c", "行 / 单元格模式"));
    items.push(row("b", "切换边框模式"));
    items.push(row("u", "上传缓存歌曲"));
    items.push(row("r", "手动刷新列表内容"));
    items.push(row("v", "频谱开关"));
    items.push(row("V", "音高读数开关"));
    items.push(row("y", "歌词译文开关"));
    assert(help_view(items@) =~= spec_help_rows());
    assert forall|i: int| 0 <= i < 36 implies (#[trigger] items@[i]).0@ == spec_help_rows()[i].0 && items@[i].1@ == spec_help_rows()[i].1 by {
        assert(help_view(items@)[i] == spec_help_rows()[i]);
    }
    items
}

} // verus!
