//! The screen: what is dirty, which page shows, the action menu, and how an
//! event changes them.

pub mod actions;
pub mod frame;

pub use crate::screen::actions::{Action, ActionSet, Command};
pub use crate::screen::frame::{
    draw, menu_font, menu_region, Frame, MenuFont, MenuFrame, Point, Rectangle, Size, MENU_MARGIN,
    SMALL_DISPLAY_WIDTH,
};

use vstd::prelude::*;
use crate::screen::actions::{first_after, last_before, ordinal};
use crate::signal::Signal;
use crate::valve::ValveState;
use crate::water_meter::WaterMeterState;

verus! {

/// A page of the screen.
#[derive(Clone, Copy, Debug, PartialEq, Eq, Structural)]
pub enum Page {
    Summary,
    Battery,
}

/// The actions that a page offers at all.
pub open spec fn eligible_actions(page: Page) -> Set<Action> {
    match page {
        Page::Summary => set![Action::OpenValve, Action::CloseValve, Action::Arm, Action::Disarm],
        Page::Battery => Set::empty(),
    }
}

/// The menu of a page, given the actions that are `active` right now: those
/// that the page offers and that are active, and with any of them the means
/// to dismiss the menu. Without any the menu is empty.
pub open spec fn page_menu(page: Page, active: Set<Action>) -> Set<Action> {
    let enabled = eligible_actions(page).intersect(active);
    if enabled == Set::<Action>::empty() {
        enabled
    } else {
        enabled.insert(Action::Dismiss)
    }
}

impl Page {
    /// The other of the two pages.
    pub open spec fn other(self) -> Page {
        match self {
            Page::Summary => Page::Battery,
            Page::Battery => Page::Summary,
        }
    }

    /// The page that shows first.
    pub fn new() -> (page: Self)
        ensures
            page == Page::Summary,
    {
        Page::Summary
    }

    /// The page before this one. With two pages that is the other one.
    pub fn prev(&self) -> (page: Self)
        ensures
            page == self.other(),
            page != *self,
    {
        match self {
            Page::Summary => Page::Battery,
            Page::Battery => Page::Summary,
        }
    }

    /// The page after this one. With two pages that is the other one.
    pub fn next(&self) -> (page: Self)
        ensures
            page == self.other(),
            page != *self,
    {
        match self {
            Page::Summary => Page::Battery,
            Page::Battery => Page::Summary,
        }
    }

    /// The actions that the page offers while `active` are the active ones.
    pub fn actions(&self, active: ActionSet) -> (actions: ActionSet)
        ensures
            actions@ == page_menu(*self, active@),
    {
        let eligible = match self {
            Page::Summary => {
                let mut eligible = ActionSet::empty();
                eligible.insert(Action::OpenValve);
                eligible.insert(Action::CloseValve);
                eligible.insert(Action::Arm);
                eligible.insert(Action::Disarm);
                eligible
            },
            Page::Battery => ActionSet::empty(),
        };
        let mut actions = eligible.intersection(active);
        if !actions.is_empty() {
            actions.insert(Action::Dismiss);
        }
        actions
    }
}

impl Default for Page {
    fn default() -> (page: Self)
        ensures
            page == Page::Summary,
    {
        Page::new()
    }
}

/// A source of what the screen shows.
#[derive(Clone, Copy, Debug, PartialEq, Eq, Structural)]
pub enum DataSource {
    Page,
    Valve,
    WM,
    WMStats,
    Battery,
    RemainingTime,
}

/// The sources that changed since the screen was last drawn.
#[derive(Clone, Copy, Debug, PartialEq, Eq, Structural)]
pub struct Changeset {
    page: bool,
    valve: bool,
    wm: bool,
    wm_stats: bool,
    battery: bool,
    remaining_time: bool,
}

impl View for Changeset {
    type V = Set<DataSource>;

    closed spec fn view(&self) -> Set<DataSource> {
        Set::new(
            |source: DataSource|
                match source {
                    DataSource::Page => self.page,
                    DataSource::Valve => self.valve,
                    DataSource::WM => self.wm,
                    DataSource::WMStats => self.wm_stats,
                    DataSource::Battery => self.battery,
                    DataSource::RemainingTime => self.remaining_time,
                },
        )
    }
}

impl Changeset {
    /// No source changed.
    pub fn empty() -> (changes: Self)
        ensures
            changes@ == Set::<DataSource>::empty(),
    {
        Changeset {
            page: false,
            valve: false,
            wm: false,
            wm_stats: false,
            battery: false,
            remaining_time: false,
        }
    }

    /// Every source changed.
    pub fn all() -> (changes: Self)
        ensures
            changes@ == Set::<DataSource>::full(),
    {
        Changeset {
            page: true,
            valve: true,
            wm: true,
            wm_stats: true,
            battery: true,
            remaining_time: true,
        }
    }

    /// Whether `source` changed.
    pub fn contains(&self, source: DataSource) -> (member: bool)
        ensures
            member == self@.contains(source),
    {
        match source {
            DataSource::Page => self.page,
            DataSource::Valve => self.valve,
            DataSource::WM => self.wm,
            DataSource::WMStats => self.wm_stats,
            DataSource::Battery => self.battery,
            DataSource::RemainingTime => self.remaining_time,
        }
    }

    /// Marks `source` as changed.
    pub fn insert(&mut self, source: DataSource)
        ensures
            final(self)@ == old(self)@.insert(source),
    {
        match source {
            DataSource::Page => {
                self.page = true;
            },
            DataSource::Valve => {
                self.valve = true;
            },
            DataSource::WM => {
                self.wm = true;
            },
            DataSource::WMStats => {
                self.wm_stats = true;
            },
            DataSource::Battery => {
                self.battery = true;
            },
            DataSource::RemainingTime => {
                self.remaining_time = true;
            },
        }
    }
}

/// Two changesets with the same members are the same changeset.
pub proof fn lemma_changeset_by_members(a: Changeset, b: Changeset)
    requires
        a@ == b@,
    ensures
        a == b,
{
    assert(b.page == b@.contains(DataSource::Page));
    assert(b.valve == b@.contains(DataSource::Valve));
    assert(b.wm == b@.contains(DataSource::WM));
    assert(b.wm_stats == b@.contains(DataSource::WMStats));
    assert(b.battery == b@.contains(DataSource::Battery));
    assert(b.remaining_time == b@.contains(DataSource::RemainingTime));
}

/// The number of sources that wake the screen.
pub const SCREEN_WAKE_SOURCES: usize = 7;

/// What wakes the screen, in the order in which the sources are waited on.
#[derive(Clone, Copy, Debug, PartialEq, Eq, Structural)]
pub enum ScreenEvent {
    /// The first button, "previous".
    Button1,
    /// The second button, "next".
    Button2,
    /// The third button, "select".
    Button3,
    /// The valve state changed.
    Valve,
    /// The water meter state changed.
    WaterMeter,
    /// The battery state changed.
    Battery,
    /// The time left before sleep changed.
    RemainingTime,
}

impl ScreenEvent {
    /// The event of the wake source at `index`.
    pub open spec fn spec_from_index(index: usize) -> Option<ScreenEvent> {
        if index == 0 {
            Some(ScreenEvent::Button1)
        } else if index == 1 {
            Some(ScreenEvent::Button2)
        } else if index == 2 {
            Some(ScreenEvent::Button3)
        } else if index == 3 {
            Some(ScreenEvent::Valve)
        } else if index == 4 {
            Some(ScreenEvent::WaterMeter)
        } else if index == 5 {
            Some(ScreenEvent::Battery)
        } else if index == 6 {
            Some(ScreenEvent::RemainingTime)
        } else {
            None
        }
    }

    /// The place of the event's wake source among the seven.
    pub open spec fn spec_index(self) -> usize {
        match self {
            ScreenEvent::Button1 => 0,
            ScreenEvent::Button2 => 1,
            ScreenEvent::Button3 => 2,
            ScreenEvent::Valve => 3,
            ScreenEvent::WaterMeter => 4,
            ScreenEvent::Battery => 5,
            ScreenEvent::RemainingTime => 6,
        }
    }

    /// The place of the event's wake source among the seven.
    #[verifier::when_used_as_spec(spec_index)]
    pub fn index(self) -> (index: usize)
        ensures
            index == self.spec_index(),
            index < SCREEN_WAKE_SOURCES,
            Self::spec_from_index(index) == Some(self),
    {
        match self {
            ScreenEvent::Button1 => 0,
            ScreenEvent::Button2 => 1,
            ScreenEvent::Button3 => 2,
            ScreenEvent::Valve => 3,
            ScreenEvent::WaterMeter => 4,
            ScreenEvent::Battery => 5,
            ScreenEvent::RemainingTime => 6,
        }
    }

    /// The event of the wake source at `index`; there are seven sources.
    #[verifier::when_used_as_spec(spec_from_index)]
    pub fn from_index(index: usize) -> (event: Option<ScreenEvent>)
        ensures
            event == Self::spec_from_index(index),
            event is Some <==> index < SCREEN_WAKE_SOURCES,
            event matches Some(found) ==> found.spec_index() == index,
    {
        if index == 0 {
            Some(ScreenEvent::Button1)
        } else if index == 1 {
            Some(ScreenEvent::Button2)
        } else if index == 2 {
            Some(ScreenEvent::Button3)
        } else if index == 3 {
            Some(ScreenEvent::Valve)
        } else if index == 4 {
            Some(ScreenEvent::WaterMeter)
        } else if index == 5 {
            Some(ScreenEvent::Battery)
        } else if index == 6 {
            Some(ScreenEvent::RemainingTime)
        } else {
            None
        }
    }
}

/// The screen state as plain values.
pub struct ScreenView {
    /// The sources that changed since the last draw.
    pub changeset: Set<DataSource>,
    /// The page that shows.
    pub active_page: Page,
    /// The open menu, if any: its actions and the selected one.
    pub page_actions: Option<(Set<Action>, Action)>,
}

/// The menu over `actions` with `choice` selected, or none without a choice.
pub open spec fn menu_with(actions: Set<Action>, choice: Option<Action>) -> Option<
    (Set<Action>, Action),
> {
    match choice {
        Some(selected) => Some((actions, selected)),
        None => None,
    }
}

/// The state that `event` leaves behind, without the mark on the changeset.
pub open spec fn navigated(
    before: ScreenView,
    event: ScreenEvent,
    active: Set<Action>,
) -> ScreenView {
    match (event, before.page_actions) {
        (ScreenEvent::Button1, Some((actions, selected))) => ScreenView {
            page_actions: menu_with(actions, last_before(actions, ordinal(selected))),
            ..before
        },
        (ScreenEvent::Button2, Some((actions, selected))) => ScreenView {
            page_actions: menu_with(actions, first_after(actions, ordinal(selected))),
            ..before
        },
        (ScreenEvent::Button3, Some(_)) => ScreenView { page_actions: None, ..before },
        (ScreenEvent::Button1, None) | (ScreenEvent::Button2, None) => ScreenView {
            active_page: before.active_page.other(),
            ..before
        },
        (ScreenEvent::Button3, None) => {
            let actions = page_menu(before.active_page, active);
            ScreenView { page_actions: menu_with(actions, first_after(actions, -1)), ..before }
        },
        _ => before,
    }
}

/// The source that `event` marks as changed: a button marks the page, a
/// change of data its own source.
pub open spec fn marked(event: ScreenEvent) -> DataSource {
    match event {
        ScreenEvent::Button1 | ScreenEvent::Button2 | ScreenEvent::Button3 => DataSource::Page,
        ScreenEvent::Valve => DataSource::Valve,
        ScreenEvent::WaterMeter => DataSource::WM,
        ScreenEvent::Battery => DataSource::Battery,
        ScreenEvent::RemainingTime => DataSource::RemainingTime,
    }
}

/// The action that `event` sets off: the selected one, where "select" is
/// pressed on an open menu.
pub open spec fn triggered(before: ScreenView, event: ScreenEvent) -> Option<Action> {
    match (event, before.page_actions) {
        (ScreenEvent::Button3, Some((_, selected))) => Some(selected),
        _ => None,
    }
}

/// The state after `event`, while `active` are the actions that make sense.
pub open spec fn handled(
    before: ScreenView,
    event: ScreenEvent,
    active: Set<Action>,
) -> ScreenView {
    let after = navigated(before, event, active);
    ScreenView { changeset: before.changeset.insert(marked(event)), ..after }
}

/// Whether a widget fed by `source` has to be painted: its source changed,
/// or the page did.
pub open spec fn dirty(changeset: Set<DataSource>, source: DataSource) -> bool {
    changeset.contains(source) || changeset.contains(DataSource::Page)
}

/// What the screen shows and what of it is out of date.
#[derive(Clone, Copy, Debug, PartialEq, Eq)]
pub struct ScreenState {
    changeset: Changeset,
    active_page: Page,
    page_actions: Option<(ActionSet, Action)>,
}

impl View for ScreenState {
    type V = ScreenView;

    closed spec fn view(&self) -> ScreenView {
        ScreenView {
            changeset: self.changeset@,
            active_page: self.active_page,
            page_actions: match self.page_actions {
                Some((actions, selected)) => Some((actions@, selected)),
                None => None,
            },
        }
    }
}

impl ScreenState {
    /// The first page with no menu open and everything to be painted.
    pub fn new() -> (state: Self)
        ensures
            state@.changeset == Set::<DataSource>::full(),
            state@.active_page == Page::Summary,
            state@.page_actions is None,
    {
        ScreenState { changeset: Changeset::all(), active_page: Page::new(), page_actions: None }
    }

    /// The page that shows.
    pub fn active_page(&self) -> (page: Page)
        ensures
            page == self@.active_page,
    {
        self.active_page
    }

    /// The open menu, if any: its actions and the selected one.
    pub fn page_actions(&self) -> (menu: Option<(ActionSet, Action)>)
        ensures
            match menu {
                Some((actions, selected)) => self@.page_actions == Some((actions@, selected)),
                None => self@.page_actions is None,
            },
    {
        self.page_actions
    }

    /// The sources that changed since the last draw.
    pub fn changeset(&self) -> (changes: Changeset)
        ensures
            changes@ == self@.changeset,
    {
        self.changeset
    }

    /// Whether any of `changes` changed since the last draw.
    pub fn changed<const N: usize>(&self, changes: [DataSource; N]) -> (any: bool)
        ensures
            any == exists|i: int| 0 <= i < N && self@.changeset.contains(#[trigger] changes[i]),
    {
        let mut index: usize = 0;
        while index < N
            invariant
                index <= N,
                forall|i: int| 0 <= i < index ==> !self@.changeset.contains(#[trigger] changes[i]),
            decreases N - index,
        {
            if self.changeset.contains(changes[index]) {
                return true;
            }
            index += 1;
        }
        false
    }

    /// The valve state to paint, where it is out of date on the screen.
    pub fn valve(&self, current: Option<ValveState>) -> (shown: Option<Option<ValveState>>)
        ensures
            shown == if dirty(self@.changeset, DataSource::Valve) {
                Some(current)
            } else {
                None
            },
    {
        let sources = [DataSource::Valve, DataSource::Page];
        if self.changed(sources) {
            Some(current)
        } else {
            None
        }
    }

    /// The water meter state to paint, where it is out of date on the screen.
    pub fn wm(&self, current: WaterMeterState) -> (shown: Option<WaterMeterState>)
        ensures
            shown == if dirty(self@.changeset, DataSource::WM) {
                Some(current)
            } else {
                None
            },
    {
        let sources = [DataSource::WM, DataSource::Page];
        if self.changed(sources) {
            Some(current)
        } else {
            None
        }
    }

    /// The battery state to paint, where it is out of date on the screen.
    pub fn battery<B>(&self, current: B) -> (shown: Option<B>)
        ensures
            shown == if dirty(self@.changeset, DataSource::Battery) {
                Some(current)
            } else {
                None
            },
    {
        let sources = [DataSource::Battery, DataSource::Page];
        if self.changed(sources) {
            Some(current)
        } else {
            None
        }
    }

    /// The time left before sleep to paint, where it is out of date on the
    /// screen.
    pub fn remaining_time<R>(&self, current: R) -> (shown: Option<R>)
        ensures
            shown == if dirty(self@.changeset, DataSource::RemainingTime) {
                Some(current)
            } else {
                None
            },
    {
        let sources = [DataSource::RemainingTime, DataSource::Page];
        if self.changed(sources) {
            Some(current)
        } else {
            None
        }
    }

    /// Takes `event` into the state, while `active` are the actions that
    /// make sense right now. Returns the action that the event sets off.
    ///
    /// "Previous" and "next" move the selection in an open menu, and close
    /// the menu where there is nothing to move to; without a menu they turn
    /// the page. "Select" sets off the selected action and closes the menu;
    /// without a menu it opens the one of the page on its first action, if
    /// the page has any. A change of data only marks its source.
    pub fn handle(&mut self, event: ScreenEvent, active: ActionSet) -> (action: Option<Action>)
        ensures
            final(self)@ == handled(old(self)@, event, active@),
            action == triggered(old(self)@, event),
    {
        let mut action = None;
        match event {
            ScreenEvent::Button1 => {
                match self.page_actions {
                    Some((actions, selected)) => {
                        self.page_actions = match selected.prev(&actions) {
                            Some(choice) => Some((actions, choice)),
                            None => None,
                        };
                    },
                    None => {
                        self.active_page = self.active_page.prev();
                    },
                }
                self.changeset.insert(DataSource::Page);
            },
            ScreenEvent::Button2 => {
                match self.page_actions {
                    Some((actions, selected)) => {
                        self.page_actions = match selected.next(&actions) {
                            Some(choice) => Some((actions, choice)),
                            None => None,
                        };
                    },
                    None => {
                        self.active_page = self.active_page.next();
                    },
                }
                self.changeset.insert(DataSource::Page);
            },
            ScreenEvent::Button3 => {
                match self.page_actions {
                    Some((_, selected)) => {
                        self.page_actions = None;
                        action = Some(selected);
                    },
                    None => {
                        let actions = self.active_page.actions(active);
                        self.page_actions = match Action::first(&actions) {
                            Some(choice) => Some((actions, choice)),
                            None => None,
                        };
                    },
                }
                self.changeset.insert(DataSource::Page);
            },
            ScreenEvent::Valve => {
                self.changeset.insert(DataSource::Valve);
            },
            ScreenEvent::WaterMeter => {
                self.changeset.insert(DataSource::WM);
            },
            ScreenEvent::Battery => {
                self.changeset.insert(DataSource::Battery);
            },
            ScreenEvent::RemainingTime => {
                self.changeset.insert(DataSource::RemainingTime);
            },
        }
        action
    }

    /// The state as it is, for drawing, while the state itself starts over
    /// with nothing marked as changed.
    pub fn take_changes(&mut self) -> (snapshot: Self)
        ensures
            snapshot == *old(self),
            final(self)@ == (ScreenView { changeset: Set::<DataSource>::empty(), ..old(self)@ }),
    {
        let snapshot = *self;
        self.changeset = Changeset::empty();
        snapshot
    }
}

/// Two screen states that show the same are the same state.
pub proof fn lemma_screen_state_by_view(a: ScreenState, b: ScreenState)
    requires
        a@ == b@,
    ensures
        a == b,
{
    lemma_changeset_by_members(a.changeset, b.changeset);
    match (a.page_actions, b.page_actions) {
        (Some((a_actions, _)), Some((b_actions, _))) => {
            crate::screen::actions::lemma_action_set_by_members(a_actions, b_actions);
        },
        _ => {},
    }
}

impl Default for ScreenState {
    fn default() -> (state: Self)
        ensures
            state@.changeset == Set::<DataSource>::full(),
            state@.active_page == Page::Summary,
            state@.page_actions is None,
    {
        ScreenState::new()
    }
}

/// One pass of the screen's input side: takes `event` into `state` and asks
/// for a redraw, once, however much the event changed. Returns what the
/// event asks of the rest of the system.
pub fn process(
    state: &mut ScreenState,
    draw_request: &mut Signal,
    event: ScreenEvent,
    active: ActionSet,
) -> (command: Option<Command>)
    ensures
        final(state)@ == handled(old(state)@, event, active@),
        command == match triggered(old(state)@, event) {
            Some(action) => action.spec_trigger(),
            None => None,
        },
        final(draw_request).pending(),
{
    let action = state.handle(event, active);
    draw_request.notify();
    match action {
        Some(action) => action.trigger(),
        None => None,
    }
}

/// One pass of the screen's drawing side. Where a redraw was asked for, the
/// request is consumed and the state handed out for drawing, and in the same
/// step the state starts over with nothing marked as changed: what changes
/// during the drawing is marked anew and asks for the next redraw. Where none
/// was asked for, nothing happens and the caller has to suspend.
pub fn run_draw(state: &mut ScreenState, draw_request: &mut Signal) -> (snapshot: Option<
    ScreenState,
>)
    ensures
        !final(draw_request).pending(),
        old(draw_request).pending() ==> snapshot == Some(*old(state)) && final(state)@ == (
        ScreenView { changeset: Set::<DataSource>::empty(), ..old(state)@ }),
        !old(draw_request).pending() ==> snapshot is None && *final(state) == *old(state),
{
    if draw_request.try_wait() {
        Some(state.take_changes())
    } else {
        None
    }
}

/// With no menu open, "previous" and "next" both turn to the other page,
/// and turning twice comes back to where it began. No menu opens by it.
pub proof fn lemma_pages_toggle(before: ScreenView, active: Set<Action>)
    requires
        before.page_actions is None,
    ensures
        handled(before, ScreenEvent::Button1, active).active_page == before.active_page.other(),
        handled(before, ScreenEvent::Button2, active).active_page == before.active_page.other(),
        before.active_page.other() != before.active_page,
        before.active_page.other().other() == before.active_page,
        handled(before, ScreenEvent::Button1, active).page_actions is None,
        handled(before, ScreenEvent::Button2, active).page_actions is None,
{
}

/// "Select" without a menu opens the menu of the page. On the summary page,
/// with any of its four actions active, the menu holds the active ones of
/// them and the means to dismiss it, and the topmost of the active ones is
/// selected. With none of them active no menu opens at all, and on the
/// battery page none ever does.
pub proof fn lemma_menu_opens_on_first_active(before: ScreenView, active: Set<Action>)
    requires
        before.page_actions is None,
    ensures
        before.active_page == Page::Battery ==> handled(
            before,
            ScreenEvent::Button3,
            active,
        ).page_actions is None,
        page_menu(Page::Battery, active) == Set::<Action>::empty(),
        page_menu(before.active_page, active).contains(Action::Dismiss) <==> eligible_actions(
            before.active_page,
        ).intersect(active) != Set::<Action>::empty(),
        handled(before, ScreenEvent::Button3, active).page_actions is Some
            <==> before.active_page == Page::Summary && (active.contains(Action::OpenValve)
            || active.contains(Action::CloseValve) || active.contains(Action::Arm)
            || active.contains(Action::Disarm)),
        handled(before, ScreenEvent::Button3, active).page_actions matches Some((menu, selected))
            ==> {
            &&& menu == eligible_actions(Page::Summary).intersect(active).insert(Action::Dismiss)
            &&& Some(selected) == first_after(eligible_actions(Page::Summary).intersect(active), -1)
            &&& selected != Action::Dismiss
            &&& active.contains(selected)
        },
{
    let enabled = eligible_actions(before.active_page).intersect(active);
    assert(eligible_actions(Page::Battery).intersect(active) =~= Set::<Action>::empty());
    if before.active_page == Page::Summary {
        if active.contains(Action::OpenValve) {
        }
        if active.contains(Action::CloseValve) {
        }
        if active.contains(Action::Arm) {
        }
        if active.contains(Action::Disarm) {
        }
        if !(active.contains(Action::OpenValve) || active.contains(Action::CloseValve)
            || active.contains(Action::Arm) || active.contains(Action::Disarm)) {
            assert(enabled =~= Set::<Action>::empty());
        }
    }
}

/// An event that is no button press marks its source and leaves page and
/// menu alone; a button press marks the page.
pub proof fn lemma_events_mark_their_source(
    before: ScreenView,
    event: ScreenEvent,
    active: Set<Action>,
)
    ensures
        handled(before, event, active).changeset.contains(marked(event)),
        before.changeset.subset_of(handled(before, event, active).changeset),
        marked(event) != DataSource::Page ==> handled(before, event, active).active_page
            == before.active_page && handled(before, event, active).page_actions
            == before.page_actions,
{
}

} // verus!
