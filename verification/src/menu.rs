//! The entries of the main menu: their numbers, by which events name them,
//! and the keys of their localized texts.

use vstd::prelude::*;

verus! {

/// An entry of the main menu.
#[derive(Clone, Copy, Debug, PartialEq, Eq, Structural)]
pub enum MainMenu {
    App,
    AppBrowseDataDirectory,
    AppSettings,
    AppOpenInBrowser,
    AppQuit,
    AppUpdate,
    View,
    ViewNewWindow,
    ViewDevTools,
    ViewHideMenuBar,
    ViewRefresh,
    ViewReload,
    Window,
    Help,
    HelpMemospotDocumentation,
    HelpMemospotReleaseNotes,
    HelpMemospotReportIssue,
    HelpMemospotVersion,
    HelpMemosDocumentation,
    HelpMemosReleaseNotes,
    HelpMemosVersion,
}

impl MainMenu {
    /// The number of the entry: its place in the menu's list.
    pub open spec fn number(self) -> u8 {
        match self {
            MainMenu::App => 0,
            MainMenu::AppBrowseDataDirectory => 1,
            MainMenu::AppSettings => 2,
            MainMenu::AppOpenInBrowser => 3,
            MainMenu::AppQuit => 4,
            MainMenu::AppUpdate => 5,
            MainMenu::View => 6,
            MainMenu::ViewNewWindow => 7,
            MainMenu::ViewDevTools => 8,
            MainMenu::ViewHideMenuBar => 9,
            MainMenu::ViewRefresh => 10,
            MainMenu::ViewReload => 11,
            MainMenu::Window => 12,
            MainMenu::Help => 13,
            MainMenu::HelpMemospotDocumentation => 14,
            MainMenu::HelpMemospotReleaseNotes => 15,
            MainMenu::HelpMemospotReportIssue => 16,
            MainMenu::HelpMemospotVersion => 17,
            MainMenu::HelpMemosDocumentation => 18,
            MainMenu::HelpMemosReleaseNotes => 19,
            MainMenu::HelpMemosVersion => 20,
        }
    }

    /// The key of the entry's localized text.
    pub open spec fn message_key(self) -> Seq<char> {
        match self {
            MainMenu::App => "appmenu"@,
            MainMenu::AppBrowseDataDirectory => "appmenu-browse-data-directory"@,
            MainMenu::AppSettings => "appmenu-settings"@,
            MainMenu::AppOpenInBrowser => "appmenu-open-in-browser"@,
            MainMenu::AppQuit => "appmenu-quit"@,
            MainMenu::AppUpdate => "appmenu-check-for-updates"@,
            MainMenu::View => "viewmenu"@,
            MainMenu::ViewNewWindow => "viewmenu-new-window"@,
            MainMenu::ViewDevTools => "viewmenu-developer-tools"@,
            MainMenu::ViewHideMenuBar => "viewmenu-hide-menu-bar"@,
            MainMenu::ViewRefresh => "viewmenu-refresh"@,
            MainMenu::ViewReload => "viewmenu-reload-view"@,
            MainMenu::Window => "windowmenu"@,
            MainMenu::Help => "helpmenu"@,
            MainMenu::HelpMemospotDocumentation => "helpmenu-documentation"@,
            MainMenu::HelpMemospotReleaseNotes => "helpmenu-release-notes"@,
            MainMenu::HelpMemospotReportIssue => "helpmenu-report-issue"@,
            MainMenu::HelpMemospotVersion => "helpmenu-memospot-version"@,
            MainMenu::HelpMemosDocumentation => "helpmenu-documentation"@,
            MainMenu::HelpMemosReleaseNotes => "helpmenu-release-notes"@,
            MainMenu::HelpMemosVersion => "helpmenu-memos-version"@,
        }
    }

    /// The number of the entry.
    pub fn repr(self) -> (r: u8)
        ensures
            r == self.number(),
            r < 21,
    {
        match self {
            MainMenu::App => 0,
            MainMenu::AppBrowseDataDirectory => 1,
            MainMenu::AppSettings => 2,
            MainMenu::AppOpenInBrowser => 3,
            MainMenu::AppQuit => 4,
            MainMenu::AppUpdate => 5,
            MainMenu::View => 6,
            MainMenu::ViewNewWindow => 7,
            MainMenu::ViewDevTools => 8,
            MainMenu::ViewHideMenuBar => 9,
            MainMenu::ViewRefresh => 10,
            MainMenu::ViewReload => 11,
            MainMenu::Window => 12,
            MainMenu::Help => 13,
            MainMenu::HelpMemospotDocumentation => 14,
            MainMenu::HelpMemospotReleaseNotes => 15,
            MainMenu::HelpMemospotReportIssue => 16,
            MainMenu::HelpMemospotVersion => 17,
            MainMenu::HelpMemosDocumentation => 18,
            MainMenu::HelpMemosReleaseNotes => 19,
            MainMenu::HelpMemosVersion => 20,
        }
    }

    /// The entry with the number `id`, if there is one.
    pub fn from_repr(id: usize) -> (r: Option<MainMenu>)
        ensures
            match r {
                Some(entry) => entry.number() == id,
                None => id >= 21,
            },
    {
        match id {
            0 => Some(MainMenu::App),
            1 => Some(MainMenu::AppBrowseDataDirectory),
            2 => Some(MainMenu::AppSettings),
            3 => Some(MainMenu::AppOpenInBrowser),
            4 => Some(MainMenu::AppQuit),
            5 => Some(MainMenu::AppUpdate),
            6 => Some(MainMenu::View),
            7 => Some(MainMenu::ViewNewWindow),
            8 => Some(MainMenu::ViewDevTools),
            9 => Some(MainMenu::ViewHideMenuBar),
            10 => Some(MainMenu::ViewRefresh),
            11 => Some(MainMenu::ViewReload),
            12 => Some(MainMenu::Window),
            13 => Some(MainMenu::Help),
            14 => Some(MainMenu::HelpMemospotDocumentation),
            15 => Some(MainMenu::HelpMemospotReleaseNotes),
            16 => Some(MainMenu::HelpMemospotReportIssue),
            17 => Some(MainMenu::HelpMemospotVersion),
            18 => Some(MainMenu::HelpMemosDocumentation),
            19 => Some(MainMenu::HelpMemosReleaseNotes),
            20 => Some(MainMenu::HelpMemosVersion),
            _ => None,
        }
    }

    /// The key of the entry's localized text.
    pub fn as_ref(self) -> (r: &'static str)
        ensures
            r@ == self.message_key(),
    {
        match self {
            MainMenu::App => "appmenu",
            MainMenu::AppBrowseDataDirectory => "appmenu-browse-data-directory",
            MainMenu::AppSettings => "appmenu-settings",
            MainMenu::AppOpenInBrowser => "appmenu-open-in-browser",
            MainMenu::AppQuit => "appmenu-quit",
            MainMenu::AppUpdate => "appmenu-check-for-updates",
            MainMenu::View => "viewmenu",
            MainMenu::ViewNewWindow => "viewmenu-new-window",
            MainMenu::ViewDevTools => "viewmenu-developer-tools",
            MainMenu::ViewHideMenuBar => "viewmenu-hide-menu-bar",
            MainMenu::ViewRefresh => "viewmenu-refresh",
            MainMenu::ViewReload => "viewmenu-reload-view",
            MainMenu::Window => "windowmenu",
            MainMenu::Help => "helpmenu",
            MainMenu::HelpMemospotDocumentation => "helpmenu-documentation",
            MainMenu::HelpMemospotReleaseNotes => "helpmenu-release-notes",
            MainMenu::HelpMemospotReportIssue => "helpmenu-report-issue",
            MainMenu::HelpMemospotVersion => "helpmenu-memospot-version",
            MainMenu::HelpMemosDocumentation => "helpmenu-documentation",
            MainMenu::HelpMemosReleaseNotes => "helpmenu-release-notes",
            MainMenu::HelpMemosVersion => "helpmenu-memos-version",
        }
    }

    /// The identifier of the entry in menu events: its number in decimal.
    pub fn id(self) -> (r: String)
        ensures
            r@ == crate::decimal::decimal(self.number() as nat),
    {
        crate::text::string_of(&crate::decimal::format_decimal(self.repr() as u64))
    }

    /// The entry that the identifier `id` of a menu event names, if it is
    /// the decimal number of an entry.
    pub fn from_event_id(id: &str) -> (r: Option<MainMenu>)
        ensures
            match r {
                Some(entry) => crate::decimal::parse_unsigned(id@, 255) == Some(
                    entry.number() as nat,
                ),
                None => match crate::decimal::parse_unsigned(id@, 255) {
                    Some(n) => n >= 21,
                    None => true,
                },
            },
    {
        match crate::decimal::read_unsigned(&crate::text::chars_of(id), 255) {
            Some(n) => MainMenu::from_repr(n as usize),
            None => None,
        }
    }
}

/// Where the launcher's documentation is found.
pub const DOCUMENTATION_URL: &'static str = "https://memospot.github.io/";

/// Where issues of the launcher are reported.
pub const REPORT_ISSUE_URL: &'static str = "https://github.com/memospot/memospot/issues/new";

/// Where the server's documentation is found.
pub const MEMOS_DOCUMENTATION_URL: &'static str = "https://usememos.com/docs";

/// The page with the release notes of the launcher's version `version`.
pub fn release_notes_url(version: &str) -> (r: String)
    ensures
        r@ == "https://github.com/memospot/memospot/releases/tag/v"@ + version@,
{
    crate::text::joined("https://github.com/memospot/memospot/releases/tag/v", version)
}

/// The page with the changes of the server's version `version`: in its
/// address the dots of the version are hyphens.
pub fn changelog_url(version: &str) -> (r: String)
    ensures
        r@ == "https://www.usememos.com/changelog/"@ + crate::text::replace_char(
            version@,
            '.',
            '-',
        ),
{
    let mut url = crate::text::chars_of("https://www.usememos.com/changelog/");
    crate::text::push_all(
        &mut url,
        &crate::text::with_replaced(&crate::text::chars_of(version), '.', '-'),
    );
    crate::text::string_of(&url)
}

/// The entry named by the number of an entry is that entry.
pub proof fn lemma_menu_numbers_are_distinct(a: MainMenu, b: MainMenu)
    ensures
        a.number() == b.number() ==> a == b,
{
}

} // verus!
