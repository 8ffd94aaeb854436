//! The view model: a pure mapping from the application state to the data
//! each pane of the terminal frame shows.  The shell only turns this plain
//! data into widgets; every choice of text and marking is made and
//! verified here, so the same state always yields the same frame.

use crate::controller::App;
use crate::text::{dec_rep, usize_to_string};
use vstd::prelude::*;

verus! {

/// How one listing row is marked: the row carrying the live playing name,
/// the row under the cursor, or neither.  The playing mark wins when both
/// apply, and it follows the name, not the cursor.
#[derive(Clone, Copy, Debug, PartialEq, Eq, Structural)]
pub enum Marker {
    NowPlaying,
    Selected,
    Plain,
}

/// The marker of the row at `i` named `name`, given the playing name and
/// the cursor.
pub open spec fn marker_of(playing: Option<Seq<char>>, selected: int, i: int, name: Seq<char>) -> Marker {
    if playing == Some(name) {
        Marker::NowPlaying
    } else if i == selected {
        Marker::Selected
    } else {
        Marker::Plain
    }
}

/// The title of the file list: the one-based cursor position shown over
/// the track count.
pub open spec fn list_title(shown: int, len: int) -> Seq<char> {
    "Music Files ("@ + dec_rep(shown) + "/"@ + dec_rep(len) + ")"@
}

/// A percentage, as the info pane shows it.
pub open spec fn percent_label(v: int) -> Seq<char> {
    dec_rep(v) + "%"@
}

/// One row of the file list.
pub struct RowView {
    pub name: String,
    pub marker: Marker,
}

/// The file list pane: its title and its rows.  An empty listing has no
/// rows; the shell renders the placeholder panel in that case.
pub struct ListPane {
    pub title: String,
    pub rows: Vec<RowView>,
}

/// The player info pane.
pub struct InfoPane {
    pub now_playing: Option<String>,
    pub paused: bool,
    pub status_word: String,
    pub volume_label: String,
}

/// The header pane: the configured library root.
pub struct HeaderView {
    pub directory: String,
}

/// The footer pane: the status line, and whether a track is marked
/// playing, which picks its colour.
pub struct FooterView {
    pub status: String,
    pub playing: bool,
}

/// The whole frame.
pub struct FrameView {
    pub header: HeaderView,
    pub list: ListPane,
    pub info: InfoPane,
    pub footer: FooterView,
}

/// What the header must show for `app`.
pub open spec fn header_matches(app: &App, h: &HeaderView) -> bool {
    h.directory@ == app.music_directory@
}

/// What the file list must show for `app`.
pub open spec fn list_matches(app: &App, l: &ListPane) -> bool {
    &&& l.rows@.len() == app.music_files@.len()
    &&& (app.music_files@.len() == 0 ==> l.title@ == list_title(0, 0))
    &&& (app.music_files@.len() > 0 ==> l.title@ == list_title(
        app.selected_index + 1,
        app.music_files@.len() as int,
    ))
    &&& forall|i: int|
        0 <= i < l.rows@.len() ==> {
            &&& (#[trigger] l.rows@[i]).name@ == app.music_files@[i].name@
            &&& l.rows@[i].marker == marker_of(
                app.playing_name(),
                app.selected_index as int,
                i,
                app.music_files@[i].name@,
            )
        }
}

/// What the info pane must show for `app`.
pub open spec fn info_matches(app: &App, p: &InfoPane) -> bool {
    &&& (match (app.current_playing, p.now_playing) {
        (Some(a), Some(b)) => a@ == b@,
        (None, None) => true,
        _ => false,
    })
    &&& p.paused == app.is_paused
    &&& (app.current_playing is Some && app.is_paused ==> p.status_word@ == "Paused"@)
    &&& (app.current_playing is Some && !app.is_paused ==> p.status_word@ == "Playing"@)
    &&& (app.current_playing is None ==> p.status_word@ == "Stopped"@)
    &&& p.volume_label@ == percent_label(app.volume as int)
}

/// What the footer must show for `app`.
pub open spec fn footer_matches(app: &App, f: &FooterView) -> bool {
    &&& f.status@ == app.status_message@
    &&& f.playing == (app.current_playing is Some)
}

/// Builds `list_title` for concrete numbers.
fn make_list_title(shown: usize, len: usize) -> (s: String)
    ensures
        s@ == list_title(shown as int, len as int),
{
    let mut s = "Music Files (".to_owned();
    s.append(usize_to_string(shown).as_str());
    s.append("/");
    s.append(usize_to_string(len).as_str());
    s.append(")");
    proof {
        assert(s@ =~= list_title(shown as int, len as int));
    }
    s
}

/// The header pane for `app`.
pub fn draw_header(app: &App) -> (h: HeaderView)
    ensures
        header_matches(app, &h),
{
    HeaderView { directory: app.music_directory.clone() }
}

/// The file list pane for `app`: one row per track, each with its marker.
pub fn draw_file_list(app: &App) -> (l: ListPane)
    requires
        app.wf(),
    ensures
        list_matches(app, &l),
{
    let len = app.music_files.len();
    let title = if len == 0 {
        make_list_title(0, 0)
    } else {
        make_list_title(app.selected_index + 1, len)
    };
    let mut rows: Vec<RowView> = Vec::new();
    let mut i: usize = 0;
    while i < len
        invariant
            i <= len,
            len == app.music_files@.len(),
            len > 0 ==> app.selected_index < len,
            rows@.len() == i,
            forall|k: int|
                0 <= k < i ==> {
                    &&& (#[trigger] rows@[k]).name@ == app.music_files@[k].name@
                    &&& rows@[k].marker == marker_of(
                        app.playing_name(),
                        app.selected_index as int,
                        k,
                        app.music_files@[k].name@,
                    )
                },
        decreases len - i,
    {
        let name_matches_playing = match &app.current_playing {
            Some(n) => n.eq(&app.music_files[i].name),
            None => false,
        };
        let marker = if name_matches_playing {
            Marker::NowPlaying
        } else if i == app.selected_index {
            Marker::Selected
        } else {
            Marker::Plain
        };
        rows.push(RowView { name: app.music_files[i].name.clone(), marker });
        i = i + 1;
    }
    ListPane { title, rows }
}

/// The info pane for `app`.
pub fn draw_info_panel(app: &App) -> (p: InfoPane)
    ensures
        info_matches(app, &p),
{
    let now_playing = match &app.current_playing {
        Some(n) => Some(n.clone()),
        None => None,
    };
    let status_word = match &app.current_playing {
        Some(_) => if app.is_paused {
            "Paused".to_owned()
        } else {
            "Playing".to_owned()
        },
        None => "Stopped".to_owned(),
    };
    let mut volume_label = usize_to_string(app.volume as usize);
    volume_label.append("%");
    InfoPane { now_playing, paused: app.is_paused, status_word, volume_label }
}

/// The footer pane for `app`.
pub fn draw_footer(app: &App) -> (f: FooterView)
    ensures
        footer_matches(app, &f),
{
    FooterView {
        status: app.status_message.clone(),
        playing: app.current_playing.is_some(),
    }
}

/// The whole frame for `app`: header, file list, info pane and footer,
/// every field pinned by the state alone.
pub fn draw(app: &App) -> (v: FrameView)
    requires
        app.wf(),
    ensures
        header_matches(app, &v.header),
        list_matches(app, &v.list),
        info_matches(app, &v.info),
        footer_matches(app, &v.footer),
{
    FrameView {
        header: draw_header(app),
        list: draw_file_list(app),
        info: draw_info_panel(app),
        footer: draw_footer(app),
    }
}

} // verus!
