//! Pages of the display, the cyclic order in which the buttons walk them, and
//! the messages that workers send to the keeper of the shared state.

use crate::wifi::WifiStatus;
use vstd::prelude::*;

verus! {

/// A page the display can show.
#[derive(Clone, Copy, Debug, PartialEq, Eq, Structural)]
pub enum AppPage {
    Home,
    WifiConfig,
}

/// Number of pages in the cycle.
pub open spec fn page_count() -> int {
    2
}

/// The page at position `i` of the cycle, counted modulo the number of pages.
pub open spec fn page_at(i: int) -> AppPage {
    if i % page_count() == 0 {
        AppPage::Home
    } else {
        AppPage::WifiConfig
    }
}

impl AppPage {
    /// Position of the page in the cycle.
    pub open spec fn position(self) -> int {
        match self {
            AppPage::Home => 0,
            AppPage::WifiConfig => 1,
        }
    }

    /// The page one step forward in the cycle.
    pub open spec fn spec_next(self) -> AppPage {
        page_at(self.position() + 1)
    }

    /// The page one step backward in the cycle.
    pub open spec fn spec_prev(self) -> AppPage {
        page_at(self.position() - 1)
    }

    /// Steps forward, wrapping from the last page to the first.
    pub fn next(&self) -> (r: Self)
        ensures
            r == self.spec_next(),
    {
        match self {
            AppPage::Home => AppPage::WifiConfig,
            AppPage::WifiConfig => AppPage::Home,
        }
    }

    /// Steps backward, wrapping from the first page to the last.
    pub fn prev(&self) -> (r: Self)
        ensures
            r == self.spec_prev(),
    {
        match self {
            AppPage::Home => AppPage::WifiConfig,
            AppPage::WifiConfig => AppPage::Home,
        }
    }
}

/// A change that a worker asks of the shared state. Each variant carries one
/// whole field-group, so a group is never written in two parts.
#[derive(Clone, Debug, PartialEq, Eq)]
pub enum DisplayMessage {
    ShowPage(AppPage),
    UpdateTime(String, String),
    UpdateWeather(String, String),
    UpdateWifi(WifiStatus, String),
}

/// What a message says, with its texts as sequences of characters.
pub enum MessageView {
    ShowPage(AppPage),
    UpdateTime(Seq<char>, Seq<char>),
    UpdateWeather(Seq<char>, Seq<char>),
    UpdateWifi(WifiStatus, Seq<char>),
}

impl View for DisplayMessage {
    type V = MessageView;

    open spec fn view(&self) -> MessageView {
        match *self {
            DisplayMessage::ShowPage(page) => MessageView::ShowPage(page),
            DisplayMessage::UpdateTime(date, time) => MessageView::UpdateTime(date@, time@),
            DisplayMessage::UpdateWeather(temp, city) => MessageView::UpdateWeather(temp@, city@),
            DisplayMessage::UpdateWifi(status, ip) => MessageView::UpdateWifi(status, ip@),
        }
    }
}

/// The view of a message that may be missing.
pub open spec fn message_view(message: Option<DisplayMessage>) -> Option<MessageView> {
    match message {
        Some(m) => Some(m@),
        None => None,
    }
}

/// One of the two page buttons.
#[derive(Clone, Copy, Debug, PartialEq, Eq, Structural)]
pub enum PageButton {
    Previous,
    Next,
}

/// The page a press of `button` leads to from `current`.
pub open spec fn page_after_press(current: AppPage, button: PageButton) -> AppPage {
    match button {
        PageButton::Previous => current.spec_prev(),
        PageButton::Next => current.spec_next(),
    }
}

/// The message a button press produces: show the neighbouring page.
pub fn button_message(current: &AppPage, button: PageButton) -> (r: DisplayMessage)
    ensures
        r@ == MessageView::ShowPage(page_after_press(*current, button)),
{
    match button {
        PageButton::Previous => DisplayMessage::ShowPage(current.prev()),
        PageButton::Next => DisplayMessage::ShowPage(current.next()),
    }
}

/// Stepping forward undoes stepping backward, and the reverse.
pub proof fn lemma_next_prev_inverse(p: AppPage)
    ensures
        p.spec_prev().spec_next() == p,
        p.spec_next().spec_prev() == p,
        page_at(p.position()) == p,
{
}

} // verus!
