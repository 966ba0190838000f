use vstd::prelude::*;

use crate::files::{entries_view, ImageEntry, ImageView};
use crate::layout::{compute_row_capacity, grid_view, partition_into_rows, rows_of, GRID_ITEM_WIDTH};

verus! {

/// Identifies a page that the context drawer can show.
#[derive(Clone, Copy, Debug, PartialEq, Eq, Structural)]
pub enum ContextPage {
    About,
}

impl Default for ContextPage {
    fn default() -> (r: ContextPage)
        ensures
            r == ContextPage::About,
    {
        ContextPage::About
    }
}

/// The localization key of a context page's title.
pub open spec fn page_title_key(page: ContextPage) -> Seq<char> {
    match page {
        ContextPage::About => seq!['a', 'b', 'o', 'u', 't'],
    }
}

impl ContextPage {
    /// The localization key under which this page's title is found.
    pub fn title(&self) -> (r: String)
        ensures
            r@ == page_title_key(*self),
    {
        match self {
            ContextPage::About => {
                let r = "about".to_owned();
                proof {
                    reveal_strlit("about");
                    assert(r@ =~= page_title_key(*self));
                }
                r
            },
        }
    }
}

/// The events that the application reacts to.
#[derive(Debug, PartialEq, Eq)]
pub enum SvgerMessage {
    /// Open a link in the system's default handler.
    LaunchUrl(String),
    /// Show the page, or hide it when it is the one shown.
    ToggleContextPage(ContextPage),
    /// A new number of images per row, `None` where it is not known.
    UpdateGridRowsCount(Option<usize>),
}

/// The entries of the application's menu.
#[derive(Clone, Copy, Debug, PartialEq, Eq, Structural)]
pub enum MenuAction {
    About,
}

impl MenuAction {
    /// The message that choosing this entry sends.
    pub fn message(&self) -> (r: SvgerMessage)
        ensures
            match *self {
                MenuAction::About => r == SvgerMessage::ToggleContextPage(ContextPage::About),
            },
    {
        match self {
            MenuAction::About => SvgerMessage::ToggleContextPage(ContextPage::About),
        }
    }
}

/// Work that the application asks of the windowing runtime.
#[derive(Debug, PartialEq, Eq)]
pub enum AppCommand {
    /// Set the window title to the application's title.
    SetWindowTitle,
    /// Set the context drawer's title to that of the page.
    SetContextTitle(ContextPage),
    /// Measure the main window; its width comes back through `grid_rows_count_message`.
    FetchMainWindowWidth,
    /// Open a link in the system's default handler; the outcome is not reported.
    OpenUrl(String),
}

/// What the about page shows: a title, and a link that sends `on_press` when pressed.
pub struct AboutPage {
    /// Localization key of the title.
    pub title_key: String,
    pub link: String,
    pub on_press: SvgerMessage,
}

/// The address that the about page links to.
pub open spec fn repository_url() -> Seq<char> {
    "https://github.com/edfloreshz/cosmic-app-template"@
}

/// The localization key of the application's title.
pub open spec fn app_title_key() -> Seq<char> {
    "app-title"@
}

/// The application's state.
pub struct Svger {
    context_page: ContextPage,
    show_context: bool,
    svg_files: Vec<ImageEntry>,
    grid_rows_count: Option<usize>,
}

/// The number of images per row that a message carries, with zero read as unknown.
pub open spec fn known_capacity(c: Option<usize>) -> Option<usize> {
    match c {
        Some(n) => if n == 0 {
            None
        } else {
            Some(n)
        },
        None => None,
    }
}

/// The drawer's page after `page` is toggled: hidden where `page` was shown, else `page`.
pub open spec fn toggled(overlay: Option<ContextPage>, page: ContextPage) -> Option<ContextPage> {
    if overlay == Some(page) {
        None
    } else {
        Some(page)
    }
}

/// Toggling a page twice in a row, from a drawer that is hidden or shows that page,
/// leaves the drawer as it was: a hidden drawer is hidden again.
pub proof fn lemma_toggle_twice(overlay: Option<ContextPage>, page: ContextPage)
    requires
        overlay is None || overlay == Some(page),
    ensures
        toggled(toggled(overlay, page), page) == overlay,
        overlay is None ==> toggled(toggled(overlay, page), page) is None,
{
}

/// Toggling a page other than the one shown shows that page at once, with no
/// hidden state between.
pub proof fn lemma_toggle_other_page(shown: ContextPage, page: ContextPage)
    requires
        shown != page,
    ensures
        toggled(Some(shown), page) == Some(page),
{
}

impl Svger {
    /// The page in the context drawer, or `None` where the drawer is hidden.
    pub closed spec fn overlay(&self) -> Option<ContextPage> {
        if self.show_context {
            Some(self.context_page)
        } else {
            None
        }
    }

    pub closed spec fn items(&self) -> Seq<ImageView> {
        entries_view(self.svg_files@)
    }

    pub closed spec fn row_capacity(&self) -> Option<usize> {
        self.grid_rows_count
    }

    /// A known row capacity is never zero.
    pub closed spec fn wf(&self) -> bool {
        self.grid_rows_count matches Some(n) ==> n >= 1
    }

    /// The state at start-up, holding the images found, with the drawer hidden and the
    /// layout not yet known; the commands ask for the window title and for a measurement.
    pub fn init(svg_files: Vec<ImageEntry>) -> (r: (Svger, Vec<AppCommand>))
        ensures
            r.0.wf(),
            r.0.items() == entries_view(svg_files@),
            r.0.overlay() == None::<ContextPage>,
            r.0.row_capacity() == None::<usize>,
            r.1@ == seq![AppCommand::SetWindowTitle, AppCommand::FetchMainWindowWidth],
    {
        let mut app = Svger {
            context_page: ContextPage::About,
            show_context: false,
            svg_files,
            grid_rows_count: None,
        };
        let mut commands: Vec<AppCommand> = Vec::new();
        commands.push(app.update_titles());
        commands.push(app.update_grid_rows_count());
        assert(commands@ =~= seq![AppCommand::SetWindowTitle, AppCommand::FetchMainWindowWidth]);
        (app, commands)
    }

    /// Asks for the window title to be set.
    pub fn update_titles(&mut self) -> (r: AppCommand)
        ensures
            *final(self) == *old(self),
            r == AppCommand::SetWindowTitle,
    {
        AppCommand::SetWindowTitle
    }

    /// Asks for the main window to be measured, so that the row capacity can follow.
    pub fn update_grid_rows_count(&mut self) -> (r: AppCommand)
        ensures
            *final(self) == *old(self),
            r == AppCommand::FetchMainWindowWidth,
    {
        AppCommand::FetchMainWindowWidth
    }

    /// Applies one message and returns the commands that it gives rise to.
    pub fn update(&mut self, message: SvgerMessage) -> (r: Vec<AppCommand>)
        requires
            old(self).wf(),
        ensures
            final(self).wf(),
            final(self).items() == old(self).items(),
            match message {
                SvgerMessage::LaunchUrl(url) => {
                    &&& final(self).overlay() == old(self).overlay()
                    &&& final(self).row_capacity() == old(self).row_capacity()
                    &&& r@ == seq![AppCommand::OpenUrl(url)]
                },
                SvgerMessage::ToggleContextPage(page) => {
                    &&& final(self).overlay() == toggled(old(self).overlay(), page)
                    &&& final(self).row_capacity() == old(self).row_capacity()
                    &&& r@ == (if final(self).overlay() == Some(page) {
                        seq![AppCommand::SetContextTitle(page)]
                    } else {
                        seq![]
                    })
                },
                SvgerMessage::UpdateGridRowsCount(c) => {
                    &&& final(self).overlay() == old(self).overlay()
                    &&& final(self).row_capacity() == known_capacity(c)
                    &&& r@ == Seq::<AppCommand>::empty()
                },
            },
    {
        let mut commands: Vec<AppCommand> = Vec::new();
        match message {
            SvgerMessage::LaunchUrl(url) => {
                commands.push(AppCommand::OpenUrl(url));
            },
            SvgerMessage::ToggleContextPage(page) => {
                if self.show_context && self.context_page == page {
                    self.show_context = false;
                } else {
                    self.context_page = page;
                    self.show_context = true;
                    commands.push(AppCommand::SetContextTitle(page));
                }
            },
            SvgerMessage::UpdateGridRowsCount(c) => {
                self.grid_rows_count = match c {
                    Some(n) => if n == 0 {
                        None
                    } else {
                        Some(n)
                    },
                    None => None,
                };
            },
        }
        commands
    }

    /// The grid to draw: `None` while the row capacity is unknown (a welcome text is
    /// shown instead), else the images in rows of that capacity.
    pub fn grid_rows(&self) -> (r: Option<Vec<Vec<ImageEntry>>>)
        requires
            self.wf(),
        ensures
            self.row_capacity() is None <==> r is None,
            r matches Some(rows) ==> grid_view(rows@) == rows_of(
                self.items(),
                self.row_capacity()->0 as nat,
            ),
    {
        match self.grid_rows_count {
            Some(n) => Some(partition_into_rows(&self.svg_files, n)),
            None => None,
        }
    }

    /// The about page: the application's title, and a link to its repository that
    /// asks for the repository to be opened.
    pub fn about(&self) -> (r: AboutPage)
        ensures
            r.title_key@ == app_title_key(),
            r.link@ == repository_url(),
            r.on_press matches SvgerMessage::LaunchUrl(u) && u@ == repository_url(),
    {
        let link = "https://github.com/edfloreshz/cosmic-app-template".to_owned();
        let url = link.clone();
        AboutPage { title_key: "app-title".to_owned(), link, on_press: SvgerMessage::LaunchUrl(url) }
    }

    /// The images found at start-up, in the order they were listed.
    pub fn svg_files(&self) -> (r: &Vec<ImageEntry>)
        ensures
            entries_view(r@) == self.items(),
    {
        &self.svg_files
    }

    /// The number of images per row, `None` while it is not known.
    pub fn grid_rows_count(&self) -> (r: Option<usize>)
        ensures
            r == self.row_capacity(),
    {
        self.grid_rows_count
    }

    /// The page that the context drawer shows, if it is open.
    pub fn context_drawer(&self) -> (r: Option<ContextPage>)
        ensures
            r == self.overlay(),
    {
        if self.show_context {
            Some(self.context_page)
        } else {
            None
        }
    }
}

/// The message that a measured main-window width gives.
pub fn grid_rows_count_message(width: usize) -> (r: SvgerMessage)
    ensures
        r == SvgerMessage::UpdateGridRowsCount(Some((width / GRID_ITEM_WIDTH) as usize)),
{
    SvgerMessage::UpdateGridRowsCount(Some(compute_row_capacity(width, GRID_ITEM_WIDTH)))
}

/// The message that a window resize gives: resizes of windows other than the main
/// one are ignored.
pub fn resize_message(is_main_window: bool, width: usize) -> (r: Option<SvgerMessage>)
    ensures
        !is_main_window ==> r is None,
        is_main_window ==> r == Some(
            SvgerMessage::UpdateGridRowsCount(Some((width / GRID_ITEM_WIDTH) as usize)),
        ),
{
    if is_main_window {
        Some(grid_rows_count_message(width))
    } else {
        None
    }
}

} // verus!
