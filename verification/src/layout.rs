//! Layout engine: pure size-and-position arithmetic for one surface, or for a
//! stack of three (title, input, list), centred on the host screen.

use vstd::prelude::*;

verus! {

/// Host screen extent in character cells.
pub struct ScreenSize {
    pub width: u32,
    pub height: u32,
}

/// A sizing ratio, kept as an exact fraction `num / den` of the screen
/// dimension. A ratio is meaningful only when it lies in (0, 1], that is
/// `1 <= num <= den`; an open call rejects any other value.
#[derive(Clone, Copy)]
pub struct Ratio {
    pub num: u32,
    pub den: u32,
}

impl Ratio {
    /// The ratio lies in (0, 1].
    pub open spec fn is_valid(self) -> bool {
        1 <= self.num <= self.den
    }

    pub fn new(num: u32, den: u32) -> (r: Ratio)
        ensures
            r.num == num,
            r.den == den,
    {
        Ratio { num, den }
    }

    /// The default sizing ratio: half of the screen dimension.
    pub fn half() -> (r: Ratio)
        ensures
            r.num == 1,
            r.den == 2,
            r.is_valid(),
    {
        Ratio { num: 1, den: 2 }
    }
}

/// How a surface is framed. Only presence or absence of a frame matters to
/// the layout arithmetic; the glyphs themselves are the host's business.
pub enum BorderStyle {
    /// No frame: the surface occupies exactly its content rectangle.
    Borderless,
    /// A rounded frame, one cell thick on every edge.
    Rounded,
    /// A frame given glyph by glyph per edge, one cell thick where present.
    Custom,
}

impl BorderStyle {
    /// Whether the style adds a one-cell frame around the surface.
    pub open spec fn is_framed(self) -> bool {
        !(self is Borderless)
    }
}

/// Position and size of one surface, in character cells. `row`/`col` are the
/// top-left corner relative to the screen's own top-left corner.
#[derive(Clone, Copy)]
pub struct Geometry {
    pub row: u32,
    pub col: u32,
    pub width: u32,
    pub height: u32,
}

/// `floor(dim * ratio)`, the fixed-ratio share of a screen dimension.
pub open spec fn spec_scaled(dim: int, num: int, den: int) -> int {
    (dim * num) / den
}

/// `floor(dim * ratio)`, computed without overflow in 64-bit arithmetic.
pub fn scaled_dim(dim: u32, ratio: &Ratio) -> (d: u32)
    requires
        ratio.is_valid(),
    ensures
        d == spec_scaled(dim as int, ratio.num as int, ratio.den as int),
        d <= dim,
{
    proof {
        assert((dim as int) * (ratio.num as int) <= u32::MAX as int * u32::MAX as int)
            by (nonlinear_arith)
            requires
                0 <= dim <= u32::MAX,
                0 <= ratio.num <= u32::MAX,
        ;
        assert((dim as int) * (ratio.num as int) / (ratio.den as int) <= dim as int
            && (dim as int) * (ratio.num as int) / (ratio.den as int) >= 0) by (nonlinear_arith)
            requires
                1 <= ratio.num <= ratio.den,
                0 <= dim <= u32::MAX,
        ;
    }
    let wide: u64 = (dim as u64) * (ratio.num as u64) / (ratio.den as u64);
    wide as u32
}

/// The column (or row) at which an extent of `extent` cells is centred in a
/// screen dimension of `total` cells: `floor((total - extent) / 2)`, floored
/// at the screen edge when the extent does not fit.
pub open spec fn spec_centered(total: int, extent: int) -> int {
    if extent >= total {
        0
    } else {
        (total - extent) / 2
    }
}

pub fn centered_offset(total: u32, extent: u64) -> (o: u32)
    ensures
        o == spec_centered(total as int, extent as int),
        o <= total / 2,
{
    if extent >= total as u64 {
        0
    } else {
        ((total as u64 - extent) / 2) as u32
    }
}

/// A fixed-ratio share of a dimension never leaves `[0, dimension]`.
pub proof fn lemma_scaled_bounds(dim: int, num: int, den: int)
    requires
        1 <= num <= den,
        0 <= dim,
    ensures
        0 <= spec_scaled(dim, num, den) <= dim,
{
    vstd::arithmetic::mul::lemma_mul_nonnegative(dim, num);
    vstd::arithmetic::div_mod::lemma_div_pos_is_pos(dim * num, den);
    vstd::arithmetic::mul::lemma_mul_inequality(num, den, dim);
    vstd::arithmetic::mul::lemma_mul_is_commutative(num, dim);
    vstd::arithmetic::mul::lemma_mul_is_commutative(den, dim);
    vstd::arithmetic::div_mod::lemma_div_is_ordered(dim * num, dim * den, den);
    vstd::arithmetic::div_mod::lemma_div_multiples_vanish(dim, den);
}

/// Centring puts the surface's midline within one cell of the screen's
/// midline: for a borderless surface of width `w = floor(total * ratio)`
/// placed at `col = floor((total - w) / 2)`, the midline `col + w / 2` is
/// `total / 2` up to the one cell that integer halving may lose.
pub proof fn lemma_fixed_ratio_centered(total: int, num: int, den: int)
    requires
        1 <= num <= den,
        0 <= total,
    ensures
        ({
            let w = spec_scaled(total, num, den);
            let col = spec_centered(total, w);
            total / 2 - 1 <= col + w / 2 <= total / 2
        }),
{
    let w = spec_scaled(total, num, den);
    lemma_scaled_bounds(total, num, den);
    let rest = total - w;
    assert(spec_centered(total, w) == rest / 2);
    assert(rest == 2 * (rest / 2) + rest % 2) by {
        vstd::arithmetic::div_mod::lemma_fundamental_div_mod(rest, 2);
    }
    assert(w == 2 * (w / 2) + w % 2) by {
        vstd::arithmetic::div_mod::lemma_fundamental_div_mod(w, 2);
    }
    assert(total == 2 * (total / 2) + total % 2) by {
        vstd::arithmetic::div_mod::lemma_fundamental_div_mod(total, 2);
    }
}

/// Law: under a fixed width ratio in (0, 1] and no frame, the popup geometry
/// has width `floor(screen.width * ratio)` and sits centred: its midline
/// `col + width / 2` is the screen's midline, up to the one cell that
/// integer halving may lose.
pub proof fn lemma_popup_fixed_ratio_centered(
    opts: PopupWindowOptions,
    screen: ScreenSize,
    content: Option<ContentExtent>,
)
    requires
        opts.window_width_ratio matches Some(r) && r.is_valid(),
        opts.border is Borderless,
    ensures
        ({
            let g = spec_popup_geometry(opts, screen, content);
            let r = opts.window_width_ratio->0;
            &&& g.width == spec_scaled(screen.width as int, r.num as int, r.den as int)
            &&& screen.width / 2 - 1 <= g.col + g.width / 2 <= screen.width / 2
        }),
{
    let r = opts.window_width_ratio->0;
    lemma_scaled_bounds(screen.width as int, r.num as int, r.den as int);
    lemma_fixed_ratio_centered(screen.width as int, r.num as int, r.den as int);
}

/// Content to fit a single surface around: the widest line and the number of
/// lines, as the host read them from the backing buffer. Absent when the host
/// could not read the content.
pub struct ContentExtent {
    pub max_line_width: usize,
    pub line_count: usize,
}

/// Sizing and framing choices for one popup surface.
pub struct PopupWindowOptions {
    pub border: BorderStyle,
    /// Fixed share of the screen width; half the screen when absent.
    pub window_width_ratio: Option<Ratio>,
    /// Fixed share of the screen height; half the screen when absent.
    pub window_height_ratio: Option<Ratio>,
    /// Fit the width to the content; honoured only without a width ratio.
    pub auto_width: bool,
    /// Fit the height to the content; honoured only without a height ratio.
    pub auto_height: bool,
}

impl PopupWindowOptions {
    /// Every ratio that is present lies in (0, 1].
    pub open spec fn ratios_valid(self) -> bool {
        &&& (self.window_width_ratio matches Some(r) ==> r.is_valid())
        &&& (self.window_height_ratio matches Some(r) ==> r.is_valid())
    }
}

/// The width of a single popup: the fixed-ratio share when a ratio is given;
/// the widest content line plus one 2-cell pad per side when auto-fit is on
/// and content is there; else half the screen.
pub open spec fn spec_popup_width(
    opts: PopupWindowOptions,
    screen_width: int,
    content: Option<ContentExtent>,
) -> int {
    match opts.window_width_ratio {
        Some(r) => spec_scaled(screen_width, r.num as int, r.den as int),
        None => if opts.auto_width && (content matches Some(c) && c.max_line_width > 0) {
            content->0.max_line_width + 2 * AUTO_WIDTH_PADDING_EACH_SIDE
        } else {
            spec_scaled(screen_width, 1, 2)
        },
    }
}

/// The height of a single popup: the fixed-ratio share when a ratio is given;
/// the content's line count when auto-fit is on and content is there; else
/// half the screen.
pub open spec fn spec_popup_height(
    opts: PopupWindowOptions,
    screen_height: int,
    content: Option<ContentExtent>,
) -> int {
    match opts.window_height_ratio {
        Some(r) => spec_scaled(screen_height, r.num as int, r.den as int),
        None => if opts.auto_height && (content matches Some(c) && c.line_count > 0) {
            content->0.line_count as int
        } else {
            spec_scaled(screen_height, 1, 2)
        },
    }
}

/// Cells of padding added to each side of an auto-fitted width.
pub const AUTO_WIDTH_PADDING_EACH_SIDE: usize = 2;

/// The extra cells a frame adds to each dimension of a single surface: one
/// cell per edge.
pub open spec fn spec_frame_pad(border: BorderStyle) -> int {
    if border.is_framed() {
        2
    } else {
        0
    }
}

/// The geometry of a single popup: its sizes and the position that centres
/// it, frame included, on the screen.
pub open spec fn spec_popup_geometry(
    opts: PopupWindowOptions,
    screen: ScreenSize,
    content: Option<ContentExtent>,
) -> Geometry {
    let w = spec_popup_width(opts, screen.width as int, content);
    let h = spec_popup_height(opts, screen.height as int, content);
    Geometry {
        row: spec_centered(screen.height as int, h + spec_frame_pad(opts.border)) as u32,
        col: spec_centered(screen.width as int, w + spec_frame_pad(opts.border)) as u32,
        width: w as u32,
        height: h as u32,
    }
}

/// Size and centre a single popup surface.
///
/// Fixed-ratio sizing gives `floor(screen * ratio)`; auto-fit sizing follows
/// the content extent; the surface is centred on the screen, counting the
/// frame (when there is one) into the centring extent.
pub fn compute_layout(
    opts: &PopupWindowOptions,
    screen: &ScreenSize,
    content: Option<&ContentExtent>,
) -> (g: Geometry)
    requires
        opts.ratios_valid(),
        (content matches Some(c) ==> c.max_line_width + 2 * AUTO_WIDTH_PADDING_EACH_SIDE
            <= u32::MAX && c.line_count <= u32::MAX),
    ensures
        ({
            let c = match content {
                Some(c) => Some(*c),
                None => None::<ContentExtent>,
            };
            let w = spec_popup_width(*opts, screen.width as int, c);
            let h = spec_popup_height(*opts, screen.height as int, c);
            &&& g.width == w
            &&& g.height == h
            &&& g.col == spec_centered(screen.width as int, w + spec_frame_pad(opts.border))
            &&& g.row == spec_centered(screen.height as int, h + spec_frame_pad(opts.border))
            &&& g == spec_popup_geometry(*opts, *screen, c)
        }),
{
    let width: u32 = match &opts.window_width_ratio {
        Some(r) => scaled_dim(screen.width, r),
        None => {
            match content {
                Some(c) if opts.auto_width && c.max_line_width > 0 => (c.max_line_width + 2
                    * AUTO_WIDTH_PADDING_EACH_SIDE) as u32,
                _ => scaled_dim(screen.width, &Ratio::half()),
            }
        },
    };
    let height: u32 = match &opts.window_height_ratio {
        Some(r) => scaled_dim(screen.height, r),
        None => {
            match content {
                Some(c) if opts.auto_height && c.line_count > 0 => c.line_count as u32,
                _ => scaled_dim(screen.height, &Ratio::half()),
            }
        },
    };
    let pad: u64 = if matches!(opts.border, BorderStyle::Borderless) {
        0
    } else {
        2
    };
    let col = centered_offset(screen.width, width as u64 + pad);
    let row = centered_offset(screen.height, height as u64 + pad);
    Geometry { row, col, width, height }
}

/// Geometry for the three stacked surfaces of an editable picker: a one-line
/// title, a one-line input directly below it, and the list below both.
pub struct StackLayout {
    pub title: Geometry,
    pub input: Geometry,
    pub list: Geometry,
}

/// The widest line in a sequence of lines; 0 when there are none.
pub open spec fn spec_max_line_len(lines: Seq<Seq<char>>) -> int
    decreases lines.len(),
{
    if lines.len() == 0 {
        0
    } else {
        let rest = spec_max_line_len(lines.drop_last());
        let last = lines.last().len() as int;
        if last > rest {
            last
        } else {
            rest
        }
    }
}

/// The widest of the title line and all the item lines.
pub open spec fn spec_stack_content_width(title: Seq<char>, items: Seq<Seq<char>>) -> int {
    let items_max = spec_max_line_len(items);
    if title.len() > items_max {
        title.len() as int
    } else {
        items_max
    }
}

/// The widest of the title and all the items, in characters.
pub fn max_content_width(title: &String, items: &Vec<String>) -> (m: usize)
    ensures
        m == spec_stack_content_width(title@, items.deep_view()),
{
    let mut m: usize = title.as_str().unicode_len();
    let mut i: usize = 0;
    while i < items.len()
        invariant
            0 <= i <= items.len(),
            m == spec_stack_content_width(title@, items.deep_view().take(i as int)),
        decreases items.len() - i,
    {
        let line_len = items[i].as_str().unicode_len();
        if line_len > m {
            m = line_len;
        }
        proof {
            assert(items.deep_view().take(i + 1 as int).drop_last() =~= items.deep_view().take(
                i as int,
            ));
            assert(items.deep_view().take(i + 1 as int).last() == items.deep_view()[i as int]);
        }
        i = i + 1;
    }
    proof {
        assert(items.deep_view().take(items.len() as int) =~= items.deep_view());
    }
    m
}

/// The shared width of the three stacked surfaces: the fixed-ratio share when
/// a width ratio is given; otherwise, under auto-fit, the widest of title and
/// items plus one 2-cell pad per side; else half the screen.
pub open spec fn spec_stack_width(
    opts: PopupWindowOptions,
    screen_width: int,
    title: Seq<char>,
    items: Seq<Seq<char>>,
) -> int {
    match opts.window_width_ratio {
        Some(r) => spec_scaled(screen_width, r.num as int, r.den as int),
        None => if opts.auto_width {
            spec_stack_content_width(title, items) + 2 * AUTO_WIDTH_PADDING_EACH_SIDE
        } else {
            spec_scaled(screen_width, 1, 2)
        },
    }
}

/// The content height of the stack: the fixed-ratio share when a height ratio
/// is given; otherwise, under auto-fit, one line per item plus one for the
/// title and one for the input; else half the screen.
pub open spec fn spec_stack_height(
    opts: PopupWindowOptions,
    screen_height: int,
    item_count: int,
) -> int {
    match opts.window_height_ratio {
        Some(r) => spec_scaled(screen_height, r.num as int, r.den as int),
        None => if opts.auto_height {
            item_count + 2
        } else {
            spec_scaled(screen_height, 1, 2)
        },
    }
}

/// The list surface's height: one row per item, floored to 1 so that an empty
/// list still leaves the surface visible and addressable.
pub open spec fn spec_list_height(item_count: int) -> int {
    if item_count > 0 {
        item_count
    } else {
        1
    }
}

/// The widest line is never negative.
pub proof fn lemma_max_line_len_nonneg(lines: Seq<Seq<char>>)
    ensures
        spec_max_line_len(lines) >= 0,
    decreases lines.len(),
{
    if lines.len() > 0 {
        lemma_max_line_len_nonneg(lines.drop_last());
    }
}

/// The geometry of the three stacked surfaces: one shared width and left
/// column; the title at the top of the centred stack, the input two rows
/// below it, the list three more rows down, one row per item (at least one).
pub open spec fn spec_stack_layout(
    opts: PopupWindowOptions,
    screen: ScreenSize,
    title: Seq<char>,
    items: Seq<Seq<char>>,
) -> StackLayout {
    let w = spec_stack_width(opts, screen.width as int, title, items);
    let h = spec_stack_height(opts, screen.height as int, items.len() as int);
    let frame_w = if opts.border.is_framed() {
        2int
    } else {
        0int
    };
    let frame_h = if opts.border.is_framed() {
        4int
    } else {
        0int
    };
    let left = spec_centered(screen.width as int, w + frame_w);
    let top = spec_centered(screen.height as int, h + frame_h);
    StackLayout {
        title: Geometry { row: top as u32, col: left as u32, width: w as u32, height: 1u32 },
        input: Geometry {
            row: (top + 2) as u32,
            col: left as u32,
            width: w as u32,
            height: 1u32,
        },
        list: Geometry {
            row: (top + 5) as u32,
            col: left as u32,
            width: w as u32,
            height: spec_list_height(items.len() as int) as u32,
        },
    }
}

/// Law: whenever no width ratio is given and auto-fit is on, every surface
/// of the stack is exactly as wide as the widest of the title and the items
/// plus one 2-cell pad per side — 4 cells in all. (The bound on the content
/// width only keeps the cell count inside a `u32`.)
pub proof fn lemma_auto_fit_width(
    opts: PopupWindowOptions,
    screen: ScreenSize,
    title: Seq<char>,
    items: Seq<Seq<char>>,
)
    requires
        opts.window_width_ratio is None,
        opts.auto_width,
        spec_stack_content_width(title, items) + 2 * AUTO_WIDTH_PADDING_EACH_SIDE <= u32::MAX,
    ensures
        ({
            let layout = spec_stack_layout(opts, screen, title, items);
            let fitted = spec_stack_content_width(title, items) + 2
                * AUTO_WIDTH_PADDING_EACH_SIDE;
            &&& layout.title.width == fitted
            &&& layout.input.width == fitted
            &&& layout.list.width == fitted
        }),
{
    lemma_max_line_len_nonneg(items);
}

/// Size and place the three stacked surfaces of an editable picker.
///
/// All three share one width and one left column. The stack is centred on the
/// screen, counting the frame into the centring extent: 2 extra columns and 4
/// extra rows when framed. The title sits at the top row, the input two rows
/// below it, and the list three more rows down; title and input are one line
/// high, the list one line per item (at least one).
pub fn compute_stack_layout(
    opts: &PopupWindowOptions,
    screen: &ScreenSize,
    title: &String,
    items: &Vec<String>,
) -> (layout: StackLayout)
    requires
        opts.ratios_valid(),
        spec_stack_content_width(title@, items.deep_view()) + 2 * AUTO_WIDTH_PADDING_EACH_SIDE
            <= u32::MAX,
        items.len() + 2 <= u32::MAX,
    ensures
        ({
            let w = spec_stack_width(*opts, screen.width as int, title@, items.deep_view());
            let h = spec_stack_height(*opts, screen.height as int, items.len() as int);
            let frame_w = if opts.border.is_framed() {
                2int
            } else {
                0int
            };
            let frame_h = if opts.border.is_framed() {
                4int
            } else {
                0int
            };
            let left = spec_centered(screen.width as int, w + frame_w);
            let top = spec_centered(screen.height as int, h + frame_h);
            &&& layout.title == (Geometry { row: top as u32, col: left as u32, width: w as u32, height: 1u32 })
            &&& layout.input == (Geometry { row: (top + 2) as u32, col: left as u32, width: w as u32, height: 1u32 })
            &&& layout.list == (Geometry {
                row: (top + 5) as u32,
                col: left as u32,
                width: w as u32,
                height: spec_list_height(items.len() as int) as u32,
            })
            &&& layout == spec_stack_layout(*opts, *screen, title@, items.deep_view())
        }),
{
    let width: u32 = match &opts.window_width_ratio {
        Some(r) => scaled_dim(screen.width, r),
        None => {
            if opts.auto_width {
                (max_content_width(title, items) + 2 * AUTO_WIDTH_PADDING_EACH_SIDE) as u32
            } else {
                scaled_dim(screen.width, &Ratio::half())
            }
        },
    };
    let height: u32 = match &opts.window_height_ratio {
        Some(r) => scaled_dim(screen.height, r),
        None => {
            if opts.auto_height {
                (items.len() + 2) as u32
            } else {
                scaled_dim(screen.height, &Ratio::half())
            }
        },
    };
    let framed = !matches!(opts.border, BorderStyle::Borderless);
    let frame_w: u64 = if framed {
        2
    } else {
        0
    };
    let frame_h: u64 = if framed {
        4
    } else {
        0
    };
    let left = centered_offset(screen.width, width as u64 + frame_w);
    let top = centered_offset(screen.height, height as u64 + frame_h);
    let list_height: u32 = if items.len() > 0 {
        items.len() as u32
    } else {
        1
    };
    StackLayout {
        title: Geometry { row: top, col: left, width, height: 1 },
        input: Geometry { row: top + 2, col: left, width, height: 1 },
        list: Geometry { row: top + 5, col: left, width, height: list_height },
    }
}

} // verus!
