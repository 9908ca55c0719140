use ducky::banner::{Color, StyledLine, TextStyle};
use ducky::layout::{centered_rect, draw_fullscreen_page, draw_main_menu, ui, Area, FrameView};
use ducky::navigation::{App, Input, Key};

fn plain() -> TextStyle {
    TextStyle { fg: None, bold: false, dim: false, reversed: false }
}

fn bold() -> TextStyle {
    TextStyle { fg: None, bold: true, dim: false, reversed: false }
}

fn banner() -> Vec<StyledLine> {
    vec![StyledLine {
        text: "BIG".to_string(),
        style: TextStyle { fg: Some(Color::Red), bold: false, dim: false, reversed: false },
    }]
}

fn frame() -> Area {
    Area { x: 0, y: 0, width: 100, height: 60 }
}

#[test]
fn centered_rect_takes_the_middle() {
    let r = centered_rect(40, 40, Area { x: 0, y: 0, width: 100, height: 100 });
    assert_eq!(r, Area { x: 30, y: 30, width: 40, height: 40 });
    let full = centered_rect(100, 100, Area { x: 5, y: 7, width: 20, height: 10 });
    assert_eq!(full, Area { x: 5, y: 7, width: 20, height: 10 });
}

#[test]
fn page_has_title_and_hint() {
    let page = draw_fullscreen_page(frame(), "Calendar");
    assert_eq!(page.area, frame());
    assert_eq!(page.title, "Calendar");
    let texts: Vec<&str> = page.lines.iter().map(|l| l.text.as_str()).collect();
    assert_eq!(
        texts,
        vec![
            "Calendar Screen",
            "",
            "Press ESC or q to return to the main menu.",
            "",
            "Full-screen layout for this screen.",
        ]
    );
    assert_eq!(page.lines[0].style, bold());
    assert_eq!(page.lines[2].style, plain());
}

#[test]
fn main_menu_marks_selection() {
    let mut app = App::new();
    app.next();
    let main = draw_main_menu(&app, frame(), banner());
    assert_eq!(main.header, banner());
    assert_eq!(main.header_area.x, 0);
    assert_eq!(main.header_area.width, 100);
    assert_eq!(main.header_area.height, 25);
    assert_eq!(main.footer_area.height, 3);
    assert_eq!(main.menu.selected, 1);
    assert_eq!(main.menu.marker, "> ");
    assert_eq!(main.menu.items.len(), 4);
    assert_eq!(main.menu.items[1].text, "⚡  Calendar");
    assert_eq!(main.menu.items[1].style, bold());
    assert_eq!(main.menu.items[0].style, plain());
    assert_eq!(main.menu.highlight, TextStyle { fg: Some(Color::Yellow), bold: true, dim: false, reversed: true });
    assert_eq!(main.footer[0].text, "Ducky Loaded 0 AI Features");
    assert!(main.footer[1].style.dim);
}

#[test]
fn sub_screen_shows_its_page() {
    let mut app = App::new();
    app.handle_input(Input::Key(Key::Down));
    app.handle_input(Input::Key(Key::Down));
    app.handle_input(Input::Key(Key::Down));
    app.handle_input(Input::Key(Key::Enter));
    match ui(&app, frame(), banner()) {
        FrameView::Page(page) => assert_eq!(page.title, "WorkingOutPad"),
        FrameView::Main(_) => panic!("expected a page"),
    }
}

#[test]
fn layout_twice_is_identical() {
    let mut app = App::new();
    let first = ui(&app, frame(), banner());
    let second = ui(&app, frame(), banner());
    assert_eq!(first, second);
    assert!(matches!(first, FrameView::Main(_)));
    app.open_selected();
    let page1 = ui(&app, frame(), banner());
    let page2 = ui(&app, frame(), banner());
    assert_eq!(page1, page2);
    assert_eq!(app.selected(), 0);
}

#[test]
fn main_menu_areas_stay_inside_the_frame() {
    for (w, h) in [(100u16, 60u16), (80, 10), (20, 5), (0, 0)] {
        let size = Area { x: 0, y: 0, width: w, height: h };
        let main = draw_main_menu(&App::new(), size, banner());
        let menu = main.menu.area;
        assert!(main.header_area.y + main.header_area.height <= menu.y);
        assert!(menu.y + menu.height <= main.footer_area.y);
        assert!(main.footer_area.y + main.footer_area.height <= h);
        assert!(menu.x + menu.width <= w);
        assert_eq!(main.header_area.width, w);
    }
}

#[test]
fn centered_rect_rounds_shares_half_up() {
    let r = centered_rect(40, 40, Area { x: 3, y: 2, width: 33, height: 17 });
    assert_eq!(r, Area { x: 13, y: 7, width: 13, height: 7 });
    let half = centered_rect(50, 50, Area { x: 0, y: 0, width: 10, height: 10 });
    assert_eq!(half, Area { x: 3, y: 3, width: 5, height: 5 });
}
