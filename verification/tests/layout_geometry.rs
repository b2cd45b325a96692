use picker_core::layout::{
    BorderStyle, ContentExtent, PopupWindowOptions, Ratio, ScreenSize, compute_layout,
    compute_stack_layout, max_content_width, scaled_dim,
};

fn opts(
    border: BorderStyle,
    width_ratio: Option<Ratio>,
    height_ratio: Option<Ratio>,
    auto_width: bool,
    auto_height: bool,
) -> PopupWindowOptions {
    PopupWindowOptions {
        border,
        window_width_ratio: width_ratio,
        window_height_ratio: height_ratio,
        auto_width,
        auto_height,
    }
}

#[test]
fn fixed_ratio_sizes_are_floored_shares() {
    let screen = ScreenSize { width: 100, height: 50 };
    let o = opts(
        BorderStyle::Borderless,
        Some(Ratio::new(7, 10)),
        Some(Ratio::new(7, 10)),
        false,
        false,
    );
    let g = compute_layout(&o, &screen, None);
    assert_eq!(g.width, 70);
    assert_eq!(g.height, 35);
    assert_eq!(g.col, 15); // (100 - 70) / 2
    assert_eq!(g.row, 7); // (50 - 35) / 2
}

#[test]
fn fixed_ratio_is_centred_within_one_cell() {
    // Odd sizes exercise the rounding.
    let screen = ScreenSize { width: 101, height: 53 };
    let o = opts(
        BorderStyle::Borderless,
        Some(Ratio::new(1, 3)),
        Some(Ratio::new(1, 3)),
        false,
        false,
    );
    let g = compute_layout(&o, &screen, None);
    assert_eq!(g.width, 33); // floor(101 / 3)
    let mid = g.col + g.width / 2;
    let screen_mid = screen.width / 2;
    assert!(screen_mid - 1 <= mid && mid <= screen_mid);
}

#[test]
fn scaled_dim_floors_exactly() {
    assert_eq!(scaled_dim(99, &Ratio::new(1, 2)), 49);
    assert_eq!(scaled_dim(7, &Ratio::new(2, 3)), 4);
    assert_eq!(scaled_dim(5, &Ratio::new(5, 5)), 5);
}

#[test]
fn missing_ratios_default_to_half_the_screen() {
    let screen = ScreenSize { width: 81, height: 41 };
    let o = opts(BorderStyle::Borderless, None, None, false, false);
    let g = compute_layout(&o, &screen, None);
    assert_eq!(g.width, 40);
    assert_eq!(g.height, 20);
}

#[test]
fn auto_fit_width_is_widest_line_plus_two_pads() {
    let screen = ScreenSize { width: 100, height: 50 };
    let title = String::from("Pick");
    let items = vec![String::from("a.sh"), String::from("build_release.sh")];
    let o = opts(BorderStyle::Rounded, None, None, true, true);
    let layout = compute_stack_layout(&o, &screen, &title, &items);
    // max(4, 16) + 2 * 2
    assert_eq!(layout.title.width, 20);
    assert_eq!(layout.input.width, 20);
    assert_eq!(layout.list.width, 20);
}

#[test]
fn auto_fit_width_counts_the_title_too() {
    let screen = ScreenSize { width: 100, height: 50 };
    let title = String::from("a very long title line");
    let items = vec![String::from("x")];
    let o = opts(BorderStyle::Rounded, None, None, true, true);
    let layout = compute_stack_layout(&o, &screen, &title, &items);
    assert_eq!(layout.title.width, 22 + 4);
}

#[test]
fn max_content_width_scans_title_and_items() {
    let title = String::from("ab");
    let items = vec![String::from("abcdef"), String::from("xyz")];
    assert_eq!(max_content_width(&title, &items), 6);
    let none: Vec<String> = Vec::new();
    assert_eq!(max_content_width(&title, &none), 2);
}

#[test]
fn auto_fit_height_is_item_count_plus_title_and_input() {
    let screen = ScreenSize { width: 100, height: 50 };
    let title = String::from("t");
    let items = vec![String::from("a"), String::from("b"), String::from("c")];
    let o = opts(BorderStyle::Rounded, None, None, true, true);
    let layout = compute_stack_layout(&o, &screen, &title, &items);
    assert_eq!(layout.list.height, 3);
    // Stack rows: title at top, input 2 below, list 5 below.
    assert_eq!(layout.input.row, layout.title.row + 2);
    assert_eq!(layout.list.row, layout.title.row + 5);
    assert_eq!(layout.title.height, 1);
    assert_eq!(layout.input.height, 1);
}

#[test]
fn empty_list_surface_height_is_floored_to_one() {
    let screen = ScreenSize { width: 100, height: 50 };
    let title = String::from("t");
    let items: Vec<String> = Vec::new();
    let o = opts(BorderStyle::Rounded, None, None, true, true);
    let layout = compute_stack_layout(&o, &screen, &title, &items);
    assert_eq!(layout.list.height, 1);
}

#[test]
fn frame_inflates_the_centring_extent() {
    let screen = ScreenSize { width: 100, height: 50 };
    let title = String::from("1234567890123456"); // width 16 + 4 = 20
    let items: Vec<String> = vec![String::from("x")];
    let framed = opts(BorderStyle::Rounded, None, Some(Ratio::new(1, 5)), true, false);
    let bare = opts(BorderStyle::Borderless, None, Some(Ratio::new(1, 5)), true, false);
    let lf = compute_stack_layout(&framed, &screen, &title, &items);
    let lb = compute_stack_layout(&bare, &screen, &title, &items);
    // height 10; framed: col = (100 - 22) / 2, row = (50 - 14) / 2
    assert_eq!(lf.title.col, 39);
    assert_eq!(lf.title.row, 18);
    // borderless: col = (100 - 20) / 2, row = (50 - 10) / 2
    assert_eq!(lb.title.col, 40);
    assert_eq!(lb.title.row, 20);
}

#[test]
fn single_popup_auto_fit_follows_content_extent() {
    let screen = ScreenSize { width: 100, height: 50 };
    let o = opts(BorderStyle::Borderless, None, None, true, true);
    let content = ContentExtent { max_line_width: 10, line_count: 4 };
    let g = compute_layout(&o, &screen, Some(&content));
    assert_eq!(g.width, 14);
    assert_eq!(g.height, 4);
    // Empty content falls back to the half-screen default.
    let empty = ContentExtent { max_line_width: 0, line_count: 0 };
    let ge = compute_layout(&o, &screen, Some(&empty));
    assert_eq!(ge.width, 50);
    assert_eq!(ge.height, 25);
}

#[test]
fn oversized_surface_is_pinned_to_the_screen_edge() {
    let screen = ScreenSize { width: 10, height: 5 };
    let o = opts(BorderStyle::Rounded, None, None, true, true);
    let content = ContentExtent { max_line_width: 40, line_count: 9 };
    let g = compute_layout(&o, &screen, Some(&content));
    assert_eq!(g.col, 0);
    assert_eq!(g.row, 0);
}
