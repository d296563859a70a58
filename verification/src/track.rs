//! Tracks and the name they are shown under.

use vstd::prelude::*;
use vstd::string::StringExecFns;

verus! {

/// The path of a file in a directory: the two with a slash between them.
pub open spec fn path_of(directory: Seq<char>, file_name: Seq<char>) -> Seq<char> {
    directory.push('/') + file_name
}

/// The path under which the file `file_name` of `directory` is opened.
pub fn track_path(directory: &str, file_name: &str) -> (path: String)
    ensures
        path@ == path_of(directory@, file_name@),
{
    proof {
        reveal_strlit("/");
    }
    let mut path = String::new();
    path.append(directory);
    path.append("/");
    path.append(file_name);
    proof {
        assert("/"@ =~= seq!['/']);
        assert(path@ =~= path_of(directory@, file_name@));
    }
    path
}

/// The name a track is shown under: its title where titles are asked for and
/// one is known, its file name otherwise.
pub open spec fn display_name(
    file_name: Seq<char>,
    title: Option<Seq<char>>,
    show_title: bool,
) -> Seq<char> {
    match title {
        Some(title) if show_title => title,
        _ => file_name,
    }
}

/// A title as contracts see it.
pub open spec fn title_view(title: Option<&str>) -> Option<Seq<char>> {
    match title {
        Some(title) => Some(title@),
        None => None,
    }
}

/// The name to show for the file `file_name`. `title` is what the look-up of
/// the file's title tag gave: `None` where the file has no readable tag.
pub fn get_display_name(file_name: &str, title: Option<&str>, show_title: bool) -> (shown: String)
    ensures
        shown@ == display_name(file_name@, title_view(title), show_title),
{
    if show_title {
        match title {
            Some(title) => title.to_owned(),
            None => file_name.to_owned(),
        }
    } else {
        file_name.to_owned()
    }
}

/// One playable file. Its place in the playlist identifies it, not its name.
#[derive(Clone, Debug)]
pub struct Track {
    name: String,
    title: Option<String>,
}

/// A track as contracts see it.
pub struct TrackModel {
    pub name: Seq<char>,
    pub title: Option<Seq<char>>,
}

impl View for Track {
    type V = TrackModel;

    closed spec fn view(&self) -> TrackModel {
        TrackModel {
            name: self.name@,
            title: match self.title {
                Some(title) => Some(title@),
                None => None,
            },
        }
    }
}

impl Track {
    /// A track whose title has not been looked up.
    pub fn new(name: String) -> (track: Self)
        ensures
            track@ == (TrackModel { name: name@, title: None }),
    {
        Track { name, title: None }
    }

    /// Takes what the look-up of the title gave.
    pub fn resolve_title(&mut self, title: Option<String>)
        ensures
            final(self)@ == (TrackModel {
                name: old(self)@.name,
                title: match title {
                    Some(title) => Some(title@),
                    None => None,
                },
            }),
    {
        self.title = title;
    }

    pub fn name(&self) -> (name: &String)
        ensures
            name@ == self@.name,
    {
        &self.name
    }

    /// The name the track is shown under.
    pub fn display_name(&self, show_title: bool) -> (shown: String)
        ensures
            shown@ == display_name(self@.name, self@.title, show_title),
    {
        match &self.title {
            Some(title) => get_display_name(self.name.as_str(), Some(title.as_str()), show_title),
            None => get_display_name(self.name.as_str(), None, show_title),
        }
    }
}

} // verus!
