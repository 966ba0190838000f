use svger::files::ImageEntry;
use svger::state::{
    grid_rows_count_message, resize_message, AppCommand, ContextPage, MenuAction, Svger,
    SvgerMessage,
};

fn files(n: u32) -> Vec<ImageEntry> {
    (1..=n)
        .map(|i| ImageEntry { path: format!("/d/{}.svg", i), label: format!("{}", i) })
        .collect()
}

#[test]
fn init_starts_hidden_and_unmeasured() {
    let (app, commands) = Svger::init(files(3));
    assert_eq!(app.context_drawer(), None);
    assert_eq!(app.grid_rows_count(), None);
    assert!(app.grid_rows().is_none());
    assert_eq!(app.svg_files().len(), 3);
    assert_eq!(commands, vec![AppCommand::SetWindowTitle, AppCommand::FetchMainWindowWidth]);
}

#[test]
fn toggle_about_twice_hides_again() {
    let (mut app, _) = Svger::init(files(0));
    let c1 = app.update(SvgerMessage::ToggleContextPage(ContextPage::About));
    assert_eq!(app.context_drawer(), Some(ContextPage::About));
    assert_eq!(c1, vec![AppCommand::SetContextTitle(ContextPage::About)]);
    let c2 = app.update(SvgerMessage::ToggleContextPage(ContextPage::About));
    assert_eq!(app.context_drawer(), None);
    assert!(c2.is_empty());
}

#[test]
fn launch_url_asks_to_open_it() {
    let (mut app, _) = Svger::init(files(0));
    let c = app.update(SvgerMessage::LaunchUrl("https://example.org".to_string()));
    assert_eq!(c, vec![AppCommand::OpenUrl("https://example.org".to_string())]);
    assert_eq!(app.context_drawer(), None);
}

#[test]
fn row_count_updates_and_zero_means_unknown() {
    let (mut app, _) = Svger::init(files(5));
    assert!(app.update(SvgerMessage::UpdateGridRowsCount(Some(2))).is_empty());
    assert_eq!(app.grid_rows_count(), Some(2));
    let rows = app.grid_rows().unwrap();
    assert_eq!(rows.iter().map(|r| r.len()).collect::<Vec<_>>(), vec![2, 2, 1]);
    app.update(SvgerMessage::UpdateGridRowsCount(Some(0)));
    assert_eq!(app.grid_rows_count(), None);
    assert!(app.grid_rows().is_none());
    app.update(SvgerMessage::UpdateGridRowsCount(Some(4)));
    app.update(SvgerMessage::UpdateGridRowsCount(None));
    assert_eq!(app.grid_rows_count(), None);
}

#[test]
fn resize_of_main_window_only() {
    assert_eq!(resize_message(false, 1000), None);
    assert_eq!(
        resize_message(true, 600),
        Some(SvgerMessage::UpdateGridRowsCount(Some(2)))
    );
    assert_eq!(grid_rows_count_message(100), SvgerMessage::UpdateGridRowsCount(Some(0)));
}

#[test]
fn menu_and_pages() {
    assert_eq!(
        MenuAction::About.message(),
        SvgerMessage::ToggleContextPage(ContextPage::About)
    );
    assert_eq!(ContextPage::About.title(), "about");
    assert_eq!(ContextPage::default(), ContextPage::About);
}

#[test]
fn about_page_links_to_repository() {
    let (app, _) = Svger::init(files(0));
    let page = app.about();
    assert_eq!(page.title_key, "app-title");
    assert_eq!(page.link, "https://github.com/edfloreshz/cosmic-app-template");
    assert_eq!(page.on_press, SvgerMessage::LaunchUrl(page.link.clone()));
}

#[test]
fn end_to_end_five_files_width_600() {
    let (mut app, _) = Svger::init(files(5));
    let msg = resize_message(true, 600).unwrap();
    app.update(msg);
    let rows = app.grid_rows().unwrap();
    let labels: Vec<Vec<String>> =
        rows.iter().map(|r| r.iter().map(|e| e.label.clone()).collect()).collect();
    assert_eq!(labels, vec![vec!["1", "2"], vec!["3", "4"], vec!["5"]]);
}
