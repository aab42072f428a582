//! The state that the workers share and the renderer reads.

use crate::app::{AppPage, DisplayMessage, MessageView};
use crate::wifi::WifiStatus;
use vstd::prelude::*;

verus! {

/// Everything the display needs to know, in one value.
#[derive(Clone, Debug, PartialEq, Eq)]
pub struct State {
    pub page: AppPage,
    pub weather: String,
    pub wifi_status: WifiStatus,
    pub wifi_ip: String,
    pub date: String,
    pub time: String,
    pub city: String,
}

/// The state with its texts as sequences of characters.
pub struct StateView {
    pub page: AppPage,
    pub weather: Seq<char>,
    pub wifi_status: WifiStatus,
    pub wifi_ip: Seq<char>,
    pub date: Seq<char>,
    pub time: Seq<char>,
    pub city: Seq<char>,
}

impl View for State {
    type V = StateView;

    open spec fn view(&self) -> StateView {
        StateView {
            page: self.page,
            weather: self.weather@,
            wifi_status: self.wifi_status,
            wifi_ip: self.wifi_ip@,
            date: self.date@,
            time: self.time@,
            city: self.city@,
        }
    }
}

impl StateView {
    /// The state with another page, all else kept.
    pub open spec fn with_page(self, page: AppPage) -> StateView {
        StateView { page, ..self }
    }

    /// The state with another link status and address, all else kept.
    pub open spec fn with_wifi(self, status: WifiStatus, ip: Seq<char>) -> StateView {
        StateView { wifi_status: status, wifi_ip: ip, ..self }
    }

    /// The state with another temperature and city, all else kept.
    pub open spec fn with_weather(self, weather: Seq<char>, city: Seq<char>) -> StateView {
        StateView { weather, city, ..self }
    }

    /// The state with another date and time, all else kept.
    pub open spec fn with_date_time(self, date: Seq<char>, time: Seq<char>) -> StateView {
        StateView { date, time, ..self }
    }

    /// The state after one message: the message's field-group replaced whole.
    pub open spec fn apply(self, message: MessageView) -> StateView {
        match message {
            MessageView::ShowPage(page) => self.with_page(page),
            MessageView::UpdateTime(date, time) => self.with_date_time(date, time),
            MessageView::UpdateWeather(weather, city) => self.with_weather(weather, city),
            MessageView::UpdateWifi(status, ip) => self.with_wifi(status, ip),
        }
    }

    /// The state after a queue of messages, taken front to back.
    pub open spec fn apply_all(self, messages: Seq<MessageView>) -> StateView
        decreases messages.len(),
    {
        if messages.len() == 0 {
            self
        } else {
            self.apply_all(messages.drop_last()).apply(messages.last())
        }
    }
}

/// The fields that one message replaces together.
pub enum FieldGroup {
    Page,
    Clock,
    Weather,
    Wifi,
}

/// The field-group that a message writes.
pub open spec fn group_of(message: MessageView) -> FieldGroup {
    match message {
        MessageView::ShowPage(_) => FieldGroup::Page,
        MessageView::UpdateTime(_, _) => FieldGroup::Clock,
        MessageView::UpdateWeather(_, _) => FieldGroup::Weather,
        MessageView::UpdateWifi(_, _) => FieldGroup::Wifi,
    }
}

/// Position of the last message in the queue that writes `group`, if any.
pub open spec fn last_write(messages: Seq<MessageView>, group: FieldGroup) -> Option<int>
    decreases messages.len(),
{
    if messages.len() == 0 {
        None
    } else if group_of(messages.last()) == group {
        Some(messages.len() - 1)
    } else {
        last_write(messages.drop_last(), group)
    }
}

/// The state from which the fields of `group` are read once the queue is
/// drained: the start with the group's last message applied alone, or the
/// start itself where no message writes the group.
pub open spec fn group_source(
    start: StateView,
    messages: Seq<MessageView>,
    group: FieldGroup,
) -> StateView {
    match last_write(messages, group) {
        Some(i) => start.apply(messages[i]),
        None => start,
    }
}

/// The state assembled group by group, each from its own last write.
pub open spec fn last_writes(start: StateView, messages: Seq<MessageView>) -> StateView {
    StateView {
        page: group_source(start, messages, FieldGroup::Page).page,
        date: group_source(start, messages, FieldGroup::Clock).date,
        time: group_source(start, messages, FieldGroup::Clock).time,
        weather: group_source(start, messages, FieldGroup::Weather).weather,
        city: group_source(start, messages, FieldGroup::Weather).city,
        wifi_status: group_source(start, messages, FieldGroup::Wifi).wifi_status,
        wifi_ip: group_source(start, messages, FieldGroup::Wifi).wifi_ip,
    }
}

/// `last_write` finds a message of the group after which none of the group
/// follows, and finds nothing only where the queue holds none of the group.
pub proof fn lemma_last_write_is_latest(messages: Seq<MessageView>, group: FieldGroup)
    ensures
        match last_write(messages, group) {
            Some(i) => {
                &&& 0 <= i < messages.len()
                &&& group_of(messages[i]) == group
                &&& forall|j: int| i < j < messages.len() ==> group_of(#[trigger] messages[j]) != group
            },
            None => forall|j: int|
                0 <= j < messages.len() ==> group_of(#[trigger] messages[j]) != group,
        },
    decreases messages.len(),
{
    if messages.len() > 0 && group_of(messages.last()) != group {
        let front = messages.drop_last();
        lemma_last_write_is_latest(front, group);
        assert(forall|j: int| 0 <= j < front.len() ==> front[j] == messages[j]);
    }
}

/// Last write wins, group by group: draining any queue leaves each
/// field-group as its last message set it, and untouched where no message
/// wrote it.
pub proof fn lemma_last_write_wins(start: StateView, messages: Seq<MessageView>)
    ensures
        start.apply_all(messages) == last_writes(start, messages),
    decreases messages.len(),
{
    if messages.len() > 0 {
        let front = messages.drop_last();
        lemma_last_write_wins(start, front);
        lemma_last_write_is_latest(front, FieldGroup::Page);
        lemma_last_write_is_latest(front, FieldGroup::Clock);
        lemma_last_write_is_latest(front, FieldGroup::Weather);
        lemma_last_write_is_latest(front, FieldGroup::Wifi);
    }
}

/// No group is ever torn: after any queue, in any interleaving of its
/// writers, the link status and address stand as the start had them or as one
/// single message carried them, and so do temperature with city and date
/// with time.
pub proof fn lemma_groups_arrive_whole(start: StateView, messages: Seq<MessageView>)
    ensures
        ({
            let end = start.apply_all(messages);
            &&& (end.wifi_status == start.wifi_status && end.wifi_ip == start.wifi_ip)
                || messages.contains(MessageView::UpdateWifi(end.wifi_status, end.wifi_ip))
            &&& (end.weather == start.weather && end.city == start.city)
                || messages.contains(MessageView::UpdateWeather(end.weather, end.city))
            &&& (end.date == start.date && end.time == start.time)
                || messages.contains(MessageView::UpdateTime(end.date, end.time))
            &&& end.page == start.page || messages.contains(MessageView::ShowPage(end.page))
        }),
{
    lemma_last_write_wins(start, messages);
    lemma_last_write_is_latest(messages, FieldGroup::Page);
    lemma_last_write_is_latest(messages, FieldGroup::Clock);
    lemma_last_write_is_latest(messages, FieldGroup::Weather);
    lemma_last_write_is_latest(messages, FieldGroup::Wifi);
}

/// Messages of different groups commute: the order in which two workers'
/// writes arrive does not show in the state.
pub proof fn lemma_groups_commute(start: StateView, first: MessageView, second: MessageView)
    requires
        group_of(first) != group_of(second),
    ensures
        start.apply(first).apply(second) == start.apply(second).apply(first),
{
}

/// Applying a message twice leaves what applying it once left.
pub proof fn lemma_apply_idempotent(start: StateView, message: MessageView)
    ensures
        start.apply(message).apply(message) == start.apply(message),
{
}

/// The views of a queue of messages, in the queue's order.
pub open spec fn message_views(messages: Seq<DisplayMessage>) -> Seq<MessageView> {
    Seq::new(messages.len(), |i: int| messages[i]@)
}

/// The state before any worker has reported: the home page, no reading, no
/// link, and the clock at its sentinel.
pub open spec fn initial_state() -> StateView {
    StateView {
        page: AppPage::Home,
        weather: "--"@,
        wifi_status: WifiStatus::Disconnected,
        wifi_ip: "0.0.0.0"@,
        date: "0000-00-00"@,
        time: "00:00:00"@,
        city: ""@,
    }
}

impl State {
    /// The state before any worker has reported.
    pub fn new() -> (r: Self)
        ensures
            r@ == initial_state(),
    {
        Self {
            page: AppPage::Home,
            weather: "--".to_owned(),
            wifi_status: WifiStatus::Disconnected,
            wifi_ip: "0.0.0.0".to_owned(),
            date: "0000-00-00".to_owned(),
            time: "00:00:00".to_owned(),
            city: "".to_owned(),
        }
    }

    /// Makes `page` the current page.
    pub fn update_page(&mut self, page: AppPage)
        ensures
            final(self)@ == old(self)@.with_page(page),
    {
        self.page = page;
    }

    /// Replaces link status and address, both at once.
    pub fn update_wifi(&mut self, status: WifiStatus, ip: String)
        ensures
            final(self)@ == old(self)@.with_wifi(status, ip@),
    {
        self.wifi_status = status;
        self.wifi_ip = ip;
    }

    /// Replaces temperature and city, both at once.
    pub fn update_weather(&mut self, weather: String, city: String)
        ensures
            final(self)@ == old(self)@.with_weather(weather@, city@),
    {
        self.weather = weather;
        self.city = city;
    }

    /// Replaces date and time, both at once.
    pub fn update_date_time(&mut self, date: String, time: String)
        ensures
            final(self)@ == old(self)@.with_date_time(date@, time@),
    {
        self.date = date;
        self.time = time;
    }

    /// The current page.
    pub fn get_current_page(&self) -> (r: &AppPage)
        ensures
            *r == self.page,
    {
        &self.page
    }

    /// Link status and address, as last written together.
    pub fn get_wifi_status(&self) -> (r: (WifiStatus, String))
        ensures
            r.0 == self.wifi_status,
            r.1@ == self.wifi_ip@,
    {
        (self.wifi_status, self.wifi_ip.clone())
    }

    /// A copy of the whole state, taken in one step.
    pub fn get_snapshot(&self) -> (r: State)
        ensures
            r@ == self@,
    {
        State {
            page: self.page,
            weather: self.weather.clone(),
            wifi_status: self.wifi_status,
            wifi_ip: self.wifi_ip.clone(),
            date: self.date.clone(),
            time: self.time.clone(),
            city: self.city.clone(),
        }
    }

    /// Drains a queue of messages into the state, front to back.
    pub fn apply_all(&mut self, messages: Vec<DisplayMessage>)
        ensures
            final(self)@ == old(self)@.apply_all(message_views(messages@)),
    {
        let ghost start = self@;
        let ghost all = message_views(messages@);
        for message in it: messages
            invariant
                it.seq() == messages@,
                all == message_views(messages@),
                self@ == start.apply_all(all.take(it.index() as int)),
        {
            proof {
                let k = it.index() as int;
                assert(all.take(k + 1).drop_last() == all.take(k));
                assert(all.take(k + 1).last() == message@);
            }
            self.apply(message);
        }
        proof {
            assert(all.take(all.len() as int) == all);
        }
    }

    /// Applies one message: the field-group it carries is replaced, the
    /// others stay.
    pub fn apply(&mut self, message: DisplayMessage)
        ensures
            final(self)@ == old(self)@.apply(message@),
    {
        match message {
            DisplayMessage::ShowPage(page) => self.update_page(page),
            DisplayMessage::UpdateTime(date, time) => self.update_date_time(date, time),
            DisplayMessage::UpdateWeather(weather, city) => self.update_weather(weather, city),
            DisplayMessage::UpdateWifi(status, ip) => self.update_wifi(status, ip),
        }
    }
}

} // verus!
