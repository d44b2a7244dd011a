//! What the four panels of the window show, apart from the tab selectors and
//! the list heading, which go by the active tab.
//!
//! Widths are whole numbers of the host's layout units.

use vstd::prelude::*;

verus! {

/// The width of a panel at the side of the window.
#[derive(Clone, Copy, Debug, PartialEq, Eq, Structural)]
pub struct SidePanel {
    /// Whether the user can drag the panel's edge.
    pub resizable: bool,
    /// The width before any resize.
    pub default_width: u32,
    /// The narrowest the panel gets.
    pub min_width: u32,
    /// The widest the panel gets.
    pub max_width: u32,
}

impl SidePanel {
    /// The default width lies within the limits, and a panel that cannot be
    /// resized has one width only.
    pub open spec fn wf(self) -> bool {
        &&& self.min_width <= self.default_width <= self.max_width
        &&& !self.resizable ==> self.min_width == self.max_width
    }

    /// The width within the panel's limits that is nearest to `requested`.
    pub open spec fn clamped(self, requested: int) -> int {
        if requested < self.min_width {
            self.min_width as int
        } else if requested > self.max_width {
            self.max_width as int
        } else {
            requested
        }
    }

    /// The width that the panel takes when the user asks for `requested`:
    /// the nearest within its limits, so for a panel that cannot be resized
    /// its one width.
    pub fn width_for(&self, requested: u32) -> (width: u32)
        ensures
            width == self.clamped(requested as int),
            self.wf() ==> self.min_width <= width <= self.max_width,
            self.wf() && !self.resizable ==> width == self.default_width,
    {
        if requested < self.min_width {
            self.min_width
        } else if requested > self.max_width {
            self.max_width
        } else {
            requested
        }
    }

    /// A request within the limits is granted as it is, and a width that was
    /// granted is granted again unchanged.
    pub proof fn lemma_clamped_is_stable(self, requested: int)
        requires
            self.wf(),
        ensures
            self.min_width <= requested <= self.max_width ==> self.clamped(requested) == requested,
            self.clamped(self.clamped(requested)) == self.clamped(requested),
    {
    }
}

/// The left panel: resizable between 80 and 200, 150 to begin with.
pub open spec fn left_panel_layout() -> SidePanel {
    SidePanel { resizable: true, default_width: 150, min_width: 80, max_width: 200 }
}

/// The right panel: 350 wide, not resizable.
pub open spec fn right_panel_layout() -> SidePanel {
    SidePanel { resizable: false, default_width: 350, min_width: 350, max_width: 350 }
}

/// The panel that holds the tab selectors and the list heading.
pub fn left_panel() -> (panel: SidePanel)
    ensures
        panel == left_panel_layout(),
        panel.wf(),
{
    SidePanel { resizable: true, default_width: 150, min_width: 80, max_width: 200 }
}

/// The panel that holds the properties of a component.
pub fn right_panel() -> (panel: SidePanel)
    ensures
        panel == right_panel_layout(),
        panel.wf(),
{
    SidePanel { resizable: false, default_width: 350, min_width: 350, max_width: 350 }
}

/// Whatever width is asked for, the left panel is at least 80 and at most 200
/// wide.
pub proof fn lemma_left_panel_width_in_range(requested: int)
    ensures
        80 <= left_panel_layout().clamped(requested) <= 200,
{
}

/// The menu bar at the top of the window: one menu with one entry.
#[derive(Clone, Copy, Debug)]
pub struct MenuBar {
    /// The title of the menu.
    pub title: &'static str,
    /// The entry that asks the application to end.
    pub quit: &'static str,
}

/// The menu bar: "File", with "Quit" in it.
pub fn menu_bar() -> (bar: MenuBar)
    ensures
        bar.title@ == "File"@,
        bar.quit@ == "Quit"@,
{
    MenuBar { title: "File", quit: "Quit" }
}

/// The heading of the right panel. It is the same for every tab.
pub fn right_heading() -> (text: &'static str)
    ensures
        text@ == "组件属性"@,
{
    "组件属性"
}

/// How a line of the central panel is set.
#[derive(Clone, Copy, Debug, PartialEq, Eq, Structural)]
pub enum LineKind {
    Heading,
    Label,
}

/// One line of the central panel.
#[derive(Clone, Copy, Debug)]
pub struct Line {
    pub kind: LineKind,
    pub text: &'static str,
}

impl View for Line {
    type V = (LineKind, Seq<char>);

    open spec fn view(&self) -> (LineKind, Seq<char>) {
        (self.kind, self.text@)
    }
}

/// The lines of the central panel, top to bottom: the application's name as
/// a heading, its motto, and four taglines.
pub open spec fn central_content() -> Seq<(LineKind, Seq<char>)> {
    seq![
        (LineKind::Heading, "设计大师"@),
        (LineKind::Label, "像大师一样设计："@),
        (LineKind::Label, "高复用 -- 直接使用他人写好的组件/自定义组件"@),
        (LineKind::Label, "原型即代码 -- 直接导出Web/桌面/小程序/手机组件代码"@),
        (LineKind::Label, "高性能 -- 立即响应"@),
        (LineKind::Label, "低存储 -- 导出文件只需几十K而不是几个G"@),
    ]
}

/// The lines of the central panel. They are the same for every tab.
pub fn central_lines() -> (lines: Vec<Line>)
    ensures
        lines@.len() == central_content().len(),
        forall|i: int| 0 <= i < lines@.len() ==> (#[trigger] lines@[i])@ == central_content()[i],
{
    let mut lines: Vec<Line> = Vec::new();
    lines.push(Line { kind: LineKind::Heading, text: "设计大师" });
    lines.push(Line { kind: LineKind::Label, text: "像大师一样设计：" });
    lines.push(Line { kind: LineKind::Label, text: "高复用 -- 直接使用他人写好的组件/自定义组件" });
    lines.push(Line { kind: LineKind::Label, text: "原型即代码 -- 直接导出Web/桌面/小程序/手机组件代码" });
    lines.push(Line { kind: LineKind::Label, text: "高性能 -- 立即响应" });
    lines.push(Line { kind: LineKind::Label, text: "低存储 -- 导出文件只需几十K而不是几个G" });
    lines
}

} // verus!
