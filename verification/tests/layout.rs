use design_master::layout::{
    central_lines, left_panel, menu_bar, right_heading, right_panel, LineKind, SidePanel,
};

#[test]
fn left_panel_is_resizable_between_80_and_200() {
    assert_eq!(
        left_panel(),
        SidePanel { resizable: true, default_width: 150, min_width: 80, max_width: 200 }
    );
}

#[test]
fn right_panel_is_fixed_at_350() {
    let panel = right_panel();
    assert!(!panel.resizable);
    assert_eq!(panel.default_width, 350);
    assert_eq!(panel.min_width, 350);
    assert_eq!(panel.max_width, 350);
}

#[test]
fn left_panel_width_is_clamped() {
    let panel = left_panel();
    assert_eq!(panel.width_for(0), 80);
    assert_eq!(panel.width_for(79), 80);
    assert_eq!(panel.width_for(80), 80);
    assert_eq!(panel.width_for(81), 81);
    assert_eq!(panel.width_for(150), 150);
    assert_eq!(panel.width_for(199), 199);
    assert_eq!(panel.width_for(200), 200);
    assert_eq!(panel.width_for(201), 200);
    assert_eq!(panel.width_for(u32::MAX), 200);
}

#[test]
fn left_panel_width_stays_in_range_for_every_request_up_to_1000() {
    let panel = left_panel();
    for requested in 0..=1000u32 {
        let width = panel.width_for(requested);
        assert!((80..=200).contains(&width));
        assert_eq!(panel.width_for(width), width);
    }
}

#[test]
fn left_panel_default_width_is_granted() {
    let panel = left_panel();
    assert_eq!(panel.width_for(panel.default_width), 150);
}

#[test]
fn right_panel_width_does_not_follow_requests() {
    let panel = right_panel();
    assert_eq!(panel.width_for(0), 350);
    assert_eq!(panel.width_for(350), 350);
    assert_eq!(panel.width_for(1000), 350);
}

#[test]
fn menu_bar_holds_file_and_quit() {
    let bar = menu_bar();
    assert_eq!(bar.title, "File");
    assert_eq!(bar.quit, "Quit");
}

#[test]
fn right_panel_heading() {
    assert_eq!(right_heading(), "组件属性");
}

#[test]
fn central_panel_lines() {
    let lines = central_lines();
    let expected = [
        (LineKind::Heading, "设计大师"),
        (LineKind::Label, "像大师一样设计："),
        (LineKind::Label, "高复用 -- 直接使用他人写好的组件/自定义组件"),
        (LineKind::Label, "原型即代码 -- 直接导出Web/桌面/小程序/手机组件代码"),
        (LineKind::Label, "高性能 -- 立即响应"),
        (LineKind::Label, "低存储 -- 导出文件只需几十K而不是几个G"),
    ];
    assert_eq!(lines.len(), expected.len());
    for (line, (kind, text)) in lines.iter().zip(expected) {
        assert_eq!(line.kind, kind);
        assert_eq!(line.text, text);
    }
}

#[test]
fn any_panel_clamps_to_its_own_limits() {
    let panel = SidePanel { resizable: true, default_width: 15, min_width: 10, max_width: 20 };
    assert_eq!(panel.width_for(9), 10);
    assert_eq!(panel.width_for(10), 10);
    assert_eq!(panel.width_for(17), 17);
    assert_eq!(panel.width_for(20), 20);
    assert_eq!(panel.width_for(21), 20);
}
