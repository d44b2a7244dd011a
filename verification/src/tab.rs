//! The three categories that the left panel can list.

use vstd::prelude::*;

verus! {

/// The category that the left panel lists. Exactly one is active at a time.
#[derive(Clone, Copy, Debug, PartialEq, Eq, Structural)]
pub enum LeftPanel {
    Page,
    Component,
    Element,
}

impl LeftPanel {
    /// The tabs in the order in which their selectors stand, left to right.
    pub open spec fn order() -> Seq<LeftPanel> {
        seq![LeftPanel::Page, LeftPanel::Component, LeftPanel::Element]
    }

    /// The text on this tab's selector.
    pub open spec fn label_text(self) -> Seq<char> {
        match self {
            LeftPanel::Page => "页面"@,
            LeftPanel::Component => "组件"@,
            LeftPanel::Element => "元素"@,
        }
    }

    /// The heading that the left panel shows below the selectors while this
    /// tab is active.
    pub open spec fn heading_text(self) -> Seq<char> {
        match self {
            LeftPanel::Page => "页面列表"@,
            LeftPanel::Component => "组件列表"@,
            LeftPanel::Element => "元素列表"@,
        }
    }

    /// All tabs, in selector order.
    pub fn all() -> (tabs: [LeftPanel; 3])
        ensures
            tabs@ == Self::order(),
    {
        let tabs = [LeftPanel::Page, LeftPanel::Component, LeftPanel::Element];
        assert(tabs@ =~= Self::order());
        tabs
    }

    /// The text on this tab's selector.
    pub fn label(self) -> (text: &'static str)
        ensures
            text@ == self.label_text(),
    {
        match self {
            LeftPanel::Page => "页面",
            LeftPanel::Component => "组件",
            LeftPanel::Element => "元素",
        }
    }

    /// The heading of the list that this tab stands for.
    pub fn heading(self) -> (text: &'static str)
        ensures
            text@ == self.heading_text(),
    {
        match self {
            LeftPanel::Page => "页面列表",
            LeftPanel::Component => "组件列表",
            LeftPanel::Element => "元素列表",
        }
    }
}

} // verus!
