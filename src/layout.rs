//! What each screen shows and where, as plain data that a terminal backend
//! draws.
use vstd::prelude::*;
use crate::banner::{lines_model, Color, LineModel, StyledLine, TextStyle};
use crate::navigation::{App, NavState, Screen};
use ratatui::layout::{Constraint, Direction, Layout, Rect};

verus! {

/// A rectangle of terminal cells.
#[derive(Debug, Clone, Copy, PartialEq, Eq, Structural)]
pub struct Area {
    pub x: u16,
    pub y: u16,
    pub width: u16,
    pub height: u16,
}

/// The direction in which an area is split.
#[derive(Debug, Clone, Copy, PartialEq, Eq, Structural)]
pub enum Axis {
    Horizontal,
    Vertical,
}

/// What one part of a split asks for along the split's direction.
#[derive(Debug, Clone, Copy, PartialEq, Eq, Structural)]
pub enum Extent {
    Length(u16),
    Min(u16),
    Percentage(u16),
}

/// Whether `inner` lies inside `outer`.
pub open spec fn within(inner: Area, outer: Area) -> bool {
    &&& outer.x <= inner.x
    &&& inner.x + inner.width <= outer.x + outer.width
    &&& outer.y <= inner.y
    &&& inner.y + inner.height <= outer.y + outer.height
}

/// Whether `parts` split `area` along `axis`: each part lies inside the area
/// and spans it across the axis, and each ends where the next one starts or
/// before.
pub open spec fn is_split(parts: Seq<Area>, area: Area, axis: Axis) -> bool {
    &&& forall|i: int| 0 <= i < parts.len() ==> within(#[trigger] parts[i], area) && match axis {
        Axis::Vertical => parts[i].x == area.x && parts[i].width == area.width,
        Axis::Horizontal => parts[i].y == area.y && parts[i].height == area.height,
    }
    &&& forall|i: int| 0 <= i < parts.len() - 1 ==> match axis {
        Axis::Vertical => #[trigger] parts[i].y + parts[i].height <= parts[i + 1].y,
        Axis::Horizontal => #[trigger] parts[i].x + parts[i].width <= parts[i + 1].x,
    }
}

/// Where `a` starts along `axis`.
pub open spec fn start_on(a: Area, axis: Axis) -> int {
    match axis {
        Axis::Vertical => a.y as int,
        Axis::Horizontal => a.x as int,
    }
}

/// How far `a` reaches along `axis`.
pub open spec fn length_on(a: Area, axis: Axis) -> int {
    match axis {
        Axis::Vertical => a.height as int,
        Axis::Horizontal => a.width as int,
    }
}

/// The sum of the percentages among the first `n` extents.
pub open spec fn percent_before(extents: Seq<Extent>, n: int) -> int
    decreases n,
{
    if n <= 0 {
        0
    } else {
        percent_before(extents, n - 1) + match extents[n - 1] {
            Extent::Percentage(p) => p as int,
            _ => 0,
        }
    }
}

/// `percent` percent of `size` cells, rounded half up.
pub open spec fn share(size: int, percent: int) -> int {
    (size * percent + 50) / 100
}

/// Whether every extent is a percentage and together they ask for no more
/// than the whole.
pub open spec fn percentages_fit(extents: Seq<Extent>) -> bool {
    &&& forall|i: int| 0 <= i < extents.len() ==> (#[trigger] extents[i] is Percentage)
    &&& percent_before(extents, extents.len() as int) <= 100
}

/// Relies on ratatui's `Layout::split` (default margin, no spacing, flex
/// `Start`): one part per extent. The solver's required constraints keep
/// every boundary inside the area and in ascending order, and each part spans
/// the area across the split. Where the extents are percentages that sum to
/// at most 100 and the area's far edge fits in a `u16`, every percentage can
/// be met at once: the first spacer is empty, the inner ones are empty, and
/// each part's boundaries are the shares of the percentages before it and
/// through it, rounded half up. Otherwise several solutions may score the
/// same, and which one comes back is not fixed, so nothing more is stated.
#[verifier::external_body]
fn split_area(area: Area, axis: Axis, extents: &Vec<Extent>) -> (r: Vec<Area>)
    requires
        forall|i: int| 0 <= i < extents.len() ==> (#[trigger] extents[i] matches Extent::Percentage(p) ==> p <= 100),
    ensures
        r.len() == extents.len(),
        is_split(r@, area, axis),
        percentages_fit(extents@) && start_on(area, axis) + length_on(area, axis) <= u16::MAX ==> forall|i: int|
            0 <= i < r.len() ==> {
                &&& start_on(#[trigger] r[i], axis) == start_on(area, axis) + share(
                    length_on(area, axis),
                    percent_before(extents@, i),
                )
                &&& start_on(r[i], axis) + length_on(r[i], axis) == start_on(area, axis) + share(
                    length_on(area, axis),
                    percent_before(extents@, i + 1),
                )
            },
{
    let mut constraints: Vec<Constraint> = Vec::new();
    for e in extents.iter() {
        constraints.push(match *e {
            Extent::Length(n) => Constraint::Length(n),
            Extent::Min(n) => Constraint::Min(n),
            Extent::Percentage(n) => Constraint::Percentage(n),
        });
    }
    let direction = match axis { Axis::Horizontal => Direction::Horizontal, Axis::Vertical => Direction::Vertical };
    let rect = Rect { x: area.x, y: area.y, width: area.width, height: area.height };
    let parts = Layout::new(direction, constraints).split(rect);
    parts.iter().map(|p| Area { x: p.x, y: p.y, width: p.width, height: p.height }).collect()
}

/// The percentage left on each side of a middle part of `percent` percent.
pub open spec fn side_percent(percent: u16) -> int {
    (100 - percent) / 2
}

/// The three extents that put a part of `percent` percent in the middle.
pub open spec fn middle_extents(percent: u16) -> Seq<Extent> {
    let side = Extent::Percentage(side_percent(percent) as u16);
    seq![side, Extent::Percentage(percent), side]
}

proof fn lemma_middle_percentages(percent: u16)
    requires
        percent <= 100,
    ensures
        percentages_fit(middle_extents(percent)),
        percent_before(middle_extents(percent), 1) == side_percent(percent),
        percent_before(middle_extents(percent), 2) == side_percent(percent) + percent,
{
    let e = middle_extents(percent);
    assert(percent_before(e, 0) == 0);
    assert(percent_before(e, 1) == side_percent(percent));
    assert(percent_before(e, 2) == side_percent(percent) + percent);
    assert(percent_before(e, 3) == 2 * side_percent(percent) + percent);
}

fn middle_split(percent: u16) -> (r: Vec<Extent>)
    requires
        percent <= 100,
    ensures
        r@ == middle_extents(percent),
{
    let side = Extent::Percentage((100 - percent) / 2);
    let r = vec![side, Extent::Percentage(percent), side];
    assert(r@ =~= middle_extents(percent));
    r
}

/// The area centered in `r` that takes `percent_y` percent of its height and
/// `percent_x` percent of its width.
pub fn centered_rect(percent_x: u16, percent_y: u16, r: Area) -> (c: Area)
    requires
        percent_x <= 100,
        percent_y <= 100,
    ensures
        within(c, r),
        r.x + r.width <= u16::MAX ==> {
            &&& c.x == r.x + share(r.width as int, side_percent(percent_x))
            &&& c.x + c.width == r.x + share(r.width as int, side_percent(percent_x) + percent_x)
        },
        r.y + r.height <= u16::MAX ==> {
            &&& c.y == r.y + share(r.height as int, side_percent(percent_y))
            &&& c.y + c.height == r.y + share(r.height as int, side_percent(percent_y) + percent_y)
        },
{
    let vertical = middle_split(percent_y);
    let bands = split_area(r, Axis::Vertical, &vertical);
    let band = bands[1];
    let horizontal = middle_split(percent_x);
    let parts = split_area(band, Axis::Horizontal, &horizontal);
    proof {
        lemma_middle_percentages(percent_y);
        lemma_middle_percentages(percent_x);
        assert(start_on(bands@[1], Axis::Vertical) == band.y);
        assert(start_on(parts@[1], Axis::Horizontal) == parts@[1].x);
    }
    parts[1]
}

/// The text that the header banner shows.
pub const HEADER_TEXT: &'static str = "Ducky";

/// The banner tool's font for the header.
pub const HEADER_FONT: &'static str = "alligator";

/// The color of the header banner.
pub const HEADER_COLOR: Color = Color::Red;

/// No color and no attribute.
pub open spec fn plain() -> TextStyle {
    TextStyle { fg: None, bold: false, dim: false, reversed: false }
}

/// Bold, and nothing else.
pub open spec fn bold() -> TextStyle {
    TextStyle { fg: None, bold: true, dim: false, reversed: false }
}

/// Dim, and nothing else.
pub open spec fn dim() -> TextStyle {
    TextStyle { fg: None, bold: false, dim: true, reversed: false }
}

/// How the selected menu entry is marked: yellow, reversed and bold.
pub open spec fn highlight() -> TextStyle {
    TextStyle { fg: Some(Color::Yellow), bold: true, dim: false, reversed: true }
}

/// A bordered panel filling `area`, with a title and lines of text.
#[derive(Debug, PartialEq, Eq)]
pub struct Panel {
    pub area: Area,
    pub title: String,
    pub lines: Vec<StyledLine>,
}

/// A panel as a value.
pub struct PanelModel {
    pub area: Area,
    pub title: Seq<char>,
    pub lines: Seq<LineModel>,
}

impl Panel {
    pub open spec fn model(&self) -> PanelModel {
        PanelModel { area: self.area, title: self.title@, lines: lines_model(self.lines@) }
    }
}

/// The lines of the page titled `title`.
pub open spec fn page_lines(title: Seq<char>) -> Seq<LineModel> {
    seq![
        (title + " Screen"@, bold()),
        (Seq::empty(), plain()),
        ("Press ESC or q to return to the main menu."@, plain()),
        (Seq::empty(), plain()),
        ("Full-screen layout for this screen."@, plain()),
    ]
}

fn line(text: String, style: TextStyle) -> (r: StyledLine)
    ensures
        r.text@ == text@,
        r.style == style,
{
    StyledLine { text, style }
}

/// The full-screen page titled `title`, filling `area`: the title as a
/// heading, a hint on how to go back, and a note on the layout.
pub fn draw_fullscreen_page(area: Area, title: &str) -> (r: Panel)
    ensures
        r.model() == (PanelModel { area, title: title@, lines: page_lines(title@) }),
{
    let plain = TextStyle { fg: None, bold: false, dim: false, reversed: false };
    let mut heading = title.to_owned();
    heading.append(" Screen");
    let lines = vec![
        line(heading, TextStyle { fg: None, bold: true, dim: false, reversed: false }),
        line(String::new(), plain),
        line("Press ESC or q to return to the main menu.".to_owned(), plain),
        line(String::new(), plain),
        line("Full-screen layout for this screen.".to_owned(), plain),
    ];
    let r = Panel { area, title: title.to_owned(), lines };
    assert(lines_model(r.lines@) =~= page_lines(title@));
    r
}

/// The menu list: its entries, which one is selected, and how the selected
/// one is marked.
#[derive(Debug, PartialEq, Eq)]
pub struct MenuList {
    pub area: Area,
    pub items: Vec<StyledLine>,
    pub selected: usize,
    pub highlight: TextStyle,
    pub marker: String,
}

/// A menu list as a value.
pub struct MenuModel {
    pub area: Area,
    pub items: Seq<LineModel>,
    pub selected: int,
    pub highlight: TextStyle,
    pub marker: Seq<char>,
}

impl MenuList {
    pub open spec fn model(&self) -> MenuModel {
        MenuModel {
            area: self.area,
            items: lines_model(self.items@),
            selected: self.selected as int,
            highlight: self.highlight,
            marker: self.marker@,
        }
    }
}

/// The main screen: the banner on top, the menu in the middle, help text at
/// the bottom.
#[derive(Debug, PartialEq, Eq)]
pub struct MainMenu {
    pub header_area: Area,
    pub header: Vec<StyledLine>,
    pub menu: MenuList,
    pub footer_area: Area,
    pub footer: Vec<StyledLine>,
}

/// The main screen as a value.
pub struct MainModel {
    pub header_area: Area,
    pub header: Seq<LineModel>,
    pub menu: MenuModel,
    pub footer_area: Area,
    pub footer: Seq<LineModel>,
}

impl MainMenu {
    pub open spec fn model(&self) -> MainModel {
        MainModel {
            header_area: self.header_area,
            header: lines_model(self.header@),
            menu: self.menu.model(),
            footer_area: self.footer_area,
            footer: lines_model(self.footer@),
        }
    }
}

/// The entries of the menu, the selected one in bold.
pub open spec fn menu_lines(items: Seq<Seq<char>>, selected: int) -> Seq<LineModel> {
    Seq::new(items.len(), |i: int| (items[i], if i == selected { bold() } else { plain() }))
}

/// The help text at the bottom of the main screen.
pub open spec fn footer_lines() -> Seq<LineModel> {
    seq![
        ("Ducky Loaded 0 AI Features"@, plain()),
        ("Jack Baker -> Make Beautiful things | press q to quit, j/k up and down, enter to select screen"@, dim()),
    ]
}

/// Whether `m` is a main screen for the menu `items` with `selected`
/// selected, on a frame of `size`, with `banner` as its header: its content
/// is fixed, and its header, menu and footer lie inside the frame, top to
/// bottom, the header and footer as wide as the frame.
pub open spec fn main_fits(m: MainModel, items: Seq<Seq<char>>, selected: int, size: Area, banner: Seq<LineModel>) -> bool {
    &&& m.header == banner
    &&& m.menu.items == menu_lines(items, selected)
    &&& m.menu.selected == selected
    &&& m.menu.highlight == highlight()
    &&& m.menu.marker == "> "@
    &&& m.footer == footer_lines()
    &&& m.header_area.x == 0 && m.header_area.width == size.width
    &&& m.footer_area.x == 0 && m.footer_area.width == size.width
    &&& size.y <= m.header_area.y
    &&& m.header_area.y + m.header_area.height <= m.menu.area.y
    &&& within(m.menu.area, size)
    &&& m.menu.area.y + m.menu.area.height <= m.footer_area.y
    &&& m.footer_area.y + m.footer_area.height <= size.y + size.height
}

/// The main screen of `app` on a frame of `size`, with `banner` as its
/// header.
pub fn draw_main_menu(app: &App, size: Area, banner: Vec<StyledLine>) -> (r: MainMenu)
    requires
        app.wf(),
    ensures
        main_fits(r.model(), app.items(), app.state().selected, size, lines_model(banner@)),
{
    let extents = vec![Extent::Length(25), Extent::Min(6), Extent::Length(3)];
    let bands = split_area(size, Axis::Vertical, &extents);
    let labels = app.menu_items();
    let selected = app.selected();
    let plain = TextStyle { fg: None, bold: false, dim: false, reversed: false };
    let mut items: Vec<StyledLine> = Vec::new();
    let mut i: usize = 0;
    while i < labels.len()
        invariant
            i <= labels.len(),
            items.len() == i,
            labels@.map_values(|e: String| e@) == app.items(),
            selected == app.state().selected,
            plain == crate::layout::plain(),
            forall|j: int| 0 <= j < i ==> items@[j].text@ == labels@[j]@ && items@[j].style == (if j == selected {
                bold()
            } else {
                crate::layout::plain()
            }),
        decreases labels.len() - i,
    {
        let style = if i == selected {
            TextStyle { fg: None, bold: true, dim: false, reversed: false }
        } else {
            plain
        };
        items.push(line(labels[i].clone(), style));
        i = i + 1;
    }
    assert(lines_model(items@) =~= menu_lines(app.items(), selected as int));
    let menu = MenuList {
        area: centered_rect(40, 40, bands[1]),
        items,
        selected,
        highlight: TextStyle { fg: Some(Color::Yellow), bold: true, dim: false, reversed: true },
        marker: "> ".to_owned(),
    };
    let footer = vec![
        line("Ducky Loaded 0 AI Features".to_owned(), plain),
        line(
            "Jack Baker -> Make Beautiful things | press q to quit, j/k up and down, enter to select screen".to_owned(),
            TextStyle { fg: None, bold: false, dim: true, reversed: false },
        ),
    ];
    assert(lines_model(footer@) =~= footer_lines());
    MainMenu {
        header_area: Area { x: 0, y: bands[0].y, width: size.width, height: bands[0].height },
        header: banner,
        menu,
        footer_area: Area { x: 0, y: bands[2].y, width: size.width, height: bands[2].height },
        footer,
    }
}

/// What a whole frame shows.
#[derive(Debug, PartialEq, Eq)]
pub enum FrameView {
    Main(MainMenu),
    Page(Panel),
}

/// A frame as a value.
pub enum FrameModel {
    Main(MainModel),
    Page(PanelModel),
}

impl FrameView {
    pub open spec fn model(&self) -> FrameModel {
        match self {
            FrameView::Main(m) => FrameModel::Main(m.model()),
            FrameView::Page(p) => FrameModel::Page(p.model()),
        }
    }
}

/// The title of the page of screen `s`.
pub open spec fn screen_title(s: Screen) -> Seq<char> {
    match s {
        Screen::Main => "Main"@,
        Screen::TodoList => "TodoList"@,
        Screen::Calendar => "Calendar"@,
        Screen::Obsidian => "Obsidian"@,
        Screen::WorkingOutPad => "WorkingOutPad"@,
        Screen::Configuration => "Configuration"@,
    }
}

/// Whether `f` is the frame for menu `items` in state `s` on a frame of
/// `size`, with `banner` as the main screen's header.
pub open spec fn frame_fits(f: FrameModel, s: NavState, items: Seq<Seq<char>>, size: Area, banner: Seq<LineModel>) -> bool {
    if s.screen == Screen::Main {
        f matches FrameModel::Main(m) && main_fits(m, items, s.selected, size, banner)
    } else {
        f == FrameModel::Page(
            PanelModel { area: size, title: screen_title(s.screen), lines: page_lines(screen_title(s.screen)) },
        )
    }
}

/// The frame that `app` shows on a frame of `size`, with `banner` as the main
/// screen's header; a page titled with the screen's name on any other screen.
pub fn ui(app: &App, size: Area, banner: Vec<StyledLine>) -> (r: FrameView)
    requires
        app.wf(),
    ensures
        frame_fits(r.model(), app.state(), app.items(), size, lines_model(banner@)),
{
    match app.screen() {
        Screen::Main => FrameView::Main(draw_main_menu(app, size, banner)),
        Screen::TodoList => FrameView::Page(draw_fullscreen_page(size, "TodoList")),
        Screen::Calendar => FrameView::Page(draw_fullscreen_page(size, "Calendar")),
        Screen::Obsidian => FrameView::Page(draw_fullscreen_page(size, "Obsidian")),
        Screen::WorkingOutPad => FrameView::Page(draw_fullscreen_page(size, "WorkingOutPad")),
        Screen::Configuration => FrameView::Page(draw_fullscreen_page(size, "Configuration")),
    }
}

/// What a frame shows depends on the navigation state, the entries, the
/// frame size and the banner alone: two frames laid out from the same state
/// show the same screen with the same text and styles. A sub-screen's page is
/// the same in full; where the main screen's bands fall within the frame is
/// left to the layout solver.
pub proof fn lemma_frame_repeatable(
    s: NavState,
    items: Seq<Seq<char>>,
    size: Area,
    banner: Seq<LineModel>,
    first: FrameModel,
    second: FrameModel,
)
    requires
        frame_fits(first, s, items, size, banner),
        frame_fits(second, s, items, size, banner),
    ensures
        (first is Main) == (second is Main),
        first is Page ==> first == second,
        first matches FrameModel::Main(a) ==> second matches FrameModel::Main(b) && {
            &&& a.header == b.header
            &&& a.menu.items == b.menu.items
            &&& a.menu.selected == b.menu.selected
            &&& a.menu.highlight == b.menu.highlight
            &&& a.menu.marker == b.menu.marker
            &&& a.footer == b.footer
        },
{
}

} // verus!
