//! What the status indicator shows for a given application state.
use crate::compositor::{
    label_text, strip_width, Compositor, IconPlan, CANVAS_HEIGHT, TEXT_X_OFFSET,
};
use crate::types::{
    copy_text_opt, text_opt, zones_model, AppState, PlaybackState, StateModel, Zone, ZoneModel,
};
use vstd::prelude::*;
use vstd::string::StringExecFns;

verus! {

/// What the icon is to show.
#[derive(Clone, Debug, PartialEq, Eq)]
pub enum IconRequest {
    /// Nothing is displayed yet: the icon stays as it is.
    Keep,
    /// The displayed track neither plays nor pauses: the waiting icon.
    Idle,
    /// The displayed track.
    Track { artwork: Option<String>, title: String, artist: String },
}

/// What a choice in the menu asks for.
#[derive(Clone, Copy, Debug, PartialEq, Eq, Structural)]
pub enum MenuAction {
    /// End the application.
    Quit,
    /// Make the zone whose id the entry carries the selected one.
    SelectZone,
}

/// One row of the menu: a zone that can be picked.
#[derive(Clone, Debug, PartialEq, Eq)]
pub struct MenuRow {
    pub id: String,
    pub label: String,
    pub checked: bool,
    pub enabled: bool,
}

/// Model of [`MenuRow`].
pub struct MenuRowModel {
    pub id: Seq<char>,
    pub label: Seq<char>,
    pub checked: bool,
    pub enabled: bool,
}

impl View for MenuRow {
    type V = MenuRowModel;

    open spec fn view(&self) -> MenuRowModel {
        MenuRowModel {
            id: self.id@,
            label: self.label@,
            checked: self.checked,
            enabled: self.enabled,
        }
    }
}

/// Model of a list of rows.
pub open spec fn rows_model(rows: Seq<MenuRow>) -> Seq<MenuRowModel> {
    rows.map_values(|r: MenuRow| r@)
}

/// The row of a zone: it carries the zone's id, shows its name, can always be
/// picked, and is checked when the zone is the active one.
pub open spec fn row_of(zone: ZoneModel, active: Option<Seq<char>>) -> MenuRowModel {
    MenuRowModel {
        id: zone.zone_id,
        label: zone.display_name,
        checked: active == Some(zone.zone_id),
        enabled: true,
    }
}

/// The rows of the menu: one for each zone, in the order of the zone list.
pub open spec fn rows_of(s: StateModel) -> Seq<MenuRowModel> {
    Seq::new(s.all_zones.len(), |i: int| row_of(s.all_zones[i], s.active_zone_id))
}

/// Makes the row of a zone.
pub fn menu_row(zone: &Zone, active: &Option<String>) -> (row: MenuRow)
    ensures
        row@ == row_of(zone@, text_opt(*active)),
{
    let checked = match active {
        Some(id) => *id == zone.zone_id,
        None => false,
    };
    MenuRow { id: zone.zone_id.clone(), label: zone.display_name.clone(), checked, enabled: true }
}

/// Makes the rows of the menu for the present state.
pub fn menu_rows(state: &AppState) -> (rows: Vec<MenuRow>)
    ensures
        rows_model(rows@) == rows_of(state@),
{
    let mut rows: Vec<MenuRow> = Vec::new();
    let mut i: usize = 0;
    while i < state.all_zones.len()
        invariant
            0 <= i <= state.all_zones@.len(),
            rows@.len() == i,
            forall|k: int|
                0 <= k < i ==> (#[trigger] rows@[k])@ == row_of(
                    zones_model(state.all_zones@)[k],
                    text_opt(state.active_zone_id),
                ),
        decreases state.all_zones.len() - i,
    {
        let row = menu_row(&state.all_zones[i], &state.active_zone_id);
        rows.push(row);
        i += 1;
    }
    assert(rows_model(rows@) =~= rows_of(state@));
    rows
}

/// Draws the status indicator with its compositor.
#[derive(Clone, Debug, PartialEq, Eq)]
pub struct TrayManager {
    pub compositor: Compositor,
}

impl TrayManager {
    /// A tray manager that draws with the given compositor.
    pub fn new(compositor: Compositor) -> (manager: TrayManager)
        ensures
            manager.compositor == compositor,
    {
        TrayManager { compositor }
    }

    /// Plans the icon shown while no track is displayed. `text_width` is the
    /// measured width of its line.
    pub fn create_initial_icon(&self, text_width: u32) -> (plan: IconPlan)
        ensures
            plan.canvas_width == strip_width(Some(text_width)),
            plan.canvas_height == CANVAS_HEIGHT,
            plan.artwork is None,
            plan.label is Some,
            plan.label->0@ == label_text("Now Playing"@, "Waiting for music..."@),
            plan.text_room == plan.canvas_width - TEXT_X_OFFSET,
    {
        proof {
            reveal_strlit("Now Playing");
        }
        self.compositor.create_menu_bar_icon(None, "Now Playing", "Waiting for music...", text_width)
    }

    /// Decides what the icon shows: the displayed track while it plays or
    /// pauses, the waiting icon while it does neither, and no change where no
    /// track is displayed.
    pub fn update_icon(state: &AppState) -> (request: IconRequest)
        ensures
            match state@.current_track {
                None => request is Keep,
                Some(track) => if track.state is Playing || track.state is Paused {
                    &&& request matches IconRequest::Track { artwork, title, artist }
                    &&& text_opt(artwork) == track.artwork
                    &&& title@ == track.title
                    &&& artist@ == track.artist
                } else {
                    request is Idle
                },
            },
    {
        match &state.current_track {
            None => IconRequest::Keep,
            Some(track) => match track.state {
                PlaybackState::Playing | PlaybackState::Paused => IconRequest::Track {
                    artwork: copy_text_opt(&track.artwork),
                    title: track.title.clone(),
                    artist: track.artist.clone(),
                },
                _ => IconRequest::Idle,
            },
        }
    }

    /// Decides what a choice in the menu asks for: the entry `quit` ends the
    /// application, and any other entry is the row of a zone, which is picked,
    /// be the zone still listed or not.
    pub fn on_menu_event(id: &str) -> (action: MenuAction)
        ensures
            action == if id@ == "quit"@ {
                MenuAction::Quit
            } else {
                MenuAction::SelectZone
            },
    {
        if String::from_str(id) == String::from_str("quit") {
            MenuAction::Quit
        } else {
            MenuAction::SelectZone
        }
    }
}

} // verus!
