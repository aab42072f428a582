//! What the renderer is handed: the texts of the page to paint, taken from
//! one snapshot of the shared state.

use crate::app::AppPage;
use crate::device::{status_label, DeviceStatus};
use crate::state::{State, StateView};
use vstd::prelude::*;
use vstd::string::StringExecFns;

verus! {

/// The prompt of the page that asks for credentials.
pub const WIFI_PROMPT: &'static str = "请输入WiFi名称和密码";

/// The texts of the home page.
#[derive(Clone, Debug, PartialEq, Eq)]
pub struct HomeView {
    /// Right end of the status bar.
    pub date: String,
    /// The large line in the middle.
    pub time: String,
    /// The bottom line: city, a space, temperature.
    pub weather: String,
}

/// What the renderer paints.
#[derive(Clone, Debug, PartialEq, Eq)]
pub enum PageView {
    Home(HomeView),
    Message(String),
}

/// A page to paint, with its texts as sequences of characters.
pub enum PageTexts {
    Home { date: Seq<char>, time: Seq<char>, weather: Seq<char> },
    Message(Seq<char>),
}

impl View for PageView {
    type V = PageTexts;

    open spec fn view(&self) -> PageTexts {
        match *self {
            PageView::Home(home) => PageTexts::Home {
                date: home.date@,
                time: home.time@,
                weather: home.weather@,
            },
            PageView::Message(text) => PageTexts::Message(text@),
        }
    }
}

/// The bottom line of the home page.
pub open spec fn weather_line(state: StateView) -> Seq<char> {
    state.city + " "@ + state.weather
}

/// The page to paint for a state, by the page it has current.
pub open spec fn page_texts(state: StateView) -> PageTexts {
    match state.page {
        AppPage::Home => PageTexts::Home {
            date: state.date,
            time: state.time,
            weather: weather_line(state),
        },
        AppPage::WifiConfig => PageTexts::Message(WIFI_PROMPT@),
    }
}

/// What to paint in a phase of the lifecycle: the current page in the steady
/// state, and before and after it the phase's own words over everything.
pub open spec fn screen_texts(status: DeviceStatus, state: StateView) -> PageTexts {
    if status == DeviceStatus::Idle {
        page_texts(state)
    } else {
        PageTexts::Message(status_label(status))
    }
}

/// The texts of the home page for a snapshot.
pub fn home_view(state: &State) -> (r: HomeView)
    ensures
        r.date@ == state@.date,
        r.time@ == state@.time,
        r.weather@ == weather_line(state@),
{
    let mut weather = state.city.clone();
    weather.append(" ");
    weather.append(state.weather.as_str());
    HomeView { date: state.date.clone(), time: state.time.clone(), weather }
}

/// The page to paint for a snapshot.
pub fn show_page(state: &State) -> (r: PageView)
    ensures
        r@ == page_texts(state@),
{
    match state.page {
        AppPage::Home => PageView::Home(home_view(state)),
        AppPage::WifiConfig => PageView::Message(WIFI_PROMPT.to_owned()),
    }
}

/// What to paint for a snapshot in a phase of the lifecycle.
pub fn screen(status: DeviceStatus, state: &State) -> (r: PageView)
    ensures
        r@ == screen_texts(status, state@),
{
    match status {
        DeviceStatus::Idle => show_page(state),
        _ => PageView::Message(status.status_text()),
    }
}

} // verus!
