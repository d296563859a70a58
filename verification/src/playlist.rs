//! The ordered track list of the active directory, and navigation in it.

use crate::error::PlayerError;
use crate::names::ascending;
use crate::names::has_supported_extension;
use crate::names::is_supported_name;
use crate::names::lemma_bytes_le_antisymmetric;
use crate::names::lemma_bytes_le_reflexive;
use crate::names::lemma_bytes_le_total;
use crate::names::lemma_bytes_le_transitive;
use crate::names::name_le;
use crate::names::names_in_order;
use crate::names::names_of;
use crate::names::Names;
use crate::queue::queue_text;
use crate::queue::save_queue;
use rand::Rng;
use vstd::arithmetic::div_mod::lemma_fundamental_div_mod;
use vstd::arithmetic::div_mod::lemma_fundamental_div_mod_converse;
use vstd::prelude::*;
use vstd::relations::sorted_by;
use vstd::relations::total_ordering;
use vstd::seq_lib::lemma_sorted_unique;
use vstd::seq_lib::to_multiset_build;
use vstd::seq_lib::to_multiset_insert;
use vstd::seq_lib::to_multiset_update;
use vstd::utf8::encode_utf8;
use vstd::utf8::encode_utf8_decode_utf8;

verus! {

/// One entry of a directory as it was listed: its name, and whether it is a
/// regular file.
#[derive(Clone, Debug)]
pub struct DirEntry {
    pub name: String,
    pub is_file: bool,
}

/// A directory entry as contracts see it.
pub struct EntryModel {
    pub name: Seq<char>,
    pub is_file: bool,
}

impl View for DirEntry {
    type V = EntryModel;

    open spec fn view(&self) -> EntryModel {
        EntryModel { name: self.name@, is_file: self.is_file }
    }
}

/// The entries that a vector holds.
pub open spec fn entries_of(v: Seq<DirEntry>) -> Seq<EntryModel> {
    Seq::new(v.len(), |i: int| v[i]@)
}

/// The names of the regular files with the supported extension among
/// `entries`, in the order of the listing.
pub open spec fn playable(entries: Seq<EntryModel>) -> Names
    decreases entries.len(),
{
    if entries.len() == 0 {
        Seq::empty()
    } else {
        let before = playable(entries.drop_last());
        let entry = entries.last();
        if entry.is_file && has_supported_extension(entry.name) {
            before.push(entry.name)
        } else {
            before
        }
    }
}

/// Whether `names` is what loading a directory with these entries gives: the
/// playable names, each as often as it is listed, in ascending order.
pub open spec fn is_listing_of(names: Names, entries: Seq<EntryModel>) -> bool {
    &&& ascending(names)
    &&& names.to_multiset() == playable(entries).to_multiset()
}

/// Whether `name` is the name of a regular file among `entries`.
pub open spec fn is_file_among(name: Seq<char>, entries: Seq<EntryModel>) -> bool {
    exists|j: int| 0 <= j < entries.len() && (#[trigger] entries[j]).name == name && entries[j].is_file
}

/// The playable names are the names of the regular files with the supported
/// extension, and no others.
proof fn lemma_playable_contains(entries: Seq<EntryModel>, name: Seq<char>)
    ensures
        playable(entries).contains(name) <==> has_supported_extension(name) && is_file_among(
            name,
            entries,
        ),
    decreases entries.len(),
{
    if entries.len() > 0 {
        let earlier = entries.drop_last();
        let entry = entries.last();
        let before = playable(earlier);
        lemma_playable_contains(earlier, name);
        if is_file_among(name, earlier) {
            let j = choose|j: int|
                0 <= j < earlier.len() && (#[trigger] earlier[j]).name == name && earlier[j].is_file;
            assert(entries[j] == earlier[j]);
        }
        if is_file_among(name, entries) {
            let j = choose|j: int|
                0 <= j < entries.len() && (#[trigger] entries[j]).name == name && entries[j].is_file;
            if j < earlier.len() {
                assert(earlier[j] == entries[j]);
            }
        }
        if entry.is_file && has_supported_extension(entry.name) {
            let grown = before.push(entry.name);
            assert(grown[before.len() as int] == entry.name);
            if before.contains(name) {
                let k = choose|k: int| 0 <= k < before.len() && before[k] == name;
                assert(grown[k] == name);
            }
            if grown.contains(name) {
                let k = choose|k: int| 0 <= k < grown.len() && grown[k] == name;
                if k < before.len() {
                    assert(before[k] == name);
                }
            }
            assert(entries[entries.len() - 1] == entry);
        }
    }
}

/// A listing holds the names of the regular files with the supported
/// extension and nothing else, and as many names as there are such files.
pub proof fn lemma_listing_is_of_supported_files(names: Names, entries: Seq<EntryModel>)
    requires
        is_listing_of(names, entries),
    ensures
        names.len() == playable(entries).len(),
        forall|name: Seq<char>| #[trigger]
            names.contains(name) <==> has_supported_extension(name) && is_file_among(name, entries),
{
    vstd::seq_lib::to_multiset_len(names);
    vstd::seq_lib::to_multiset_len(playable(entries));
    assert forall|name: Seq<char>| #[trigger]
        names.contains(name) <==> has_supported_extension(name) && is_file_among(
            name,
            entries,
        ) by {
        vstd::seq_lib::to_multiset_contains(names, name);
        vstd::seq_lib::to_multiset_contains(playable(entries), name);
        lemma_playable_contains(entries, name);
    }
}

/// The listing of a directory is fixed by its entries: two sequences that
/// are both it are the same.
pub proof fn lemma_listing_unique(first: Names, second: Names, entries: Seq<EntryModel>)
    requires
        is_listing_of(first, entries),
        is_listing_of(second, entries),
    ensures
        first == second,
{
    let le = |a: Seq<char>, b: Seq<char>| name_le(a, b);
    assert forall|a: Seq<char>| #[trigger] le(a, a) by {
        lemma_bytes_le_reflexive(encode_utf8(a));
    }
    assert forall|a: Seq<char>, b: Seq<char>| #[trigger] le(a, b) && #[trigger] le(b, a) implies a
        == b by {
        lemma_bytes_le_antisymmetric(encode_utf8(a), encode_utf8(b));
        encode_utf8_decode_utf8(a);
        encode_utf8_decode_utf8(b);
    }
    assert forall|a: Seq<char>, b: Seq<char>, c: Seq<char>| #[trigger]
        le(a, b) && #[trigger] le(b, c) implies le(a, c) by {
        lemma_bytes_le_transitive(encode_utf8(a), encode_utf8(b), encode_utf8(c));
    }
    assert forall|a: Seq<char>, b: Seq<char>| #[trigger] le(a, b) || #[trigger] le(b, a) by {
        lemma_bytes_le_total(encode_utf8(a), encode_utf8(b));
    }
    assert(total_ordering(le));
    assert(sorted_by(first, le));
    assert(sorted_by(second, le));
    lemma_sorted_unique(first, second, le);
}

/// A name that is put into an ascending sequence behind the names that go
/// before it and in front of one that it goes before leaves the sequence
/// ascending.
proof fn lemma_insert_keeps_ascending(names: Names, at: int, name: Seq<char>)
    requires
        ascending(names),
        0 <= at <= names.len(),
        forall|k: int| 0 <= k < at ==> name_le(#[trigger] names[k], name),
        at < names.len() ==> name_le(name, names[at]),
    ensures
        ascending(names.insert(at, name)),
{
    let grown = names.insert(at, name);
    assert forall|i: int, j: int| 0 <= i < j < grown.len() implies name_le(
        #[trigger] grown[i],
        #[trigger] grown[j],
    ) by {
        if j == at {
            assert(grown[i] == names[i]);
        } else if i == at {
            assert(grown[j] == names[j - 1]);
            if j - 1 > at {
                assert(name_le(names[at], names[j - 1]));
                lemma_bytes_le_transitive(
                    encode_utf8(name),
                    encode_utf8(names[at]),
                    encode_utf8(names[j - 1]),
                );
            }
        } else {
            let i0 = if i < at {
                i
            } else {
                i - 1
            };
            let j0 = if j < at {
                j
            } else {
                j - 1
            };
            assert(grown[i] == names[i0]);
            assert(grown[j] == names[j0]);
            assert(name_le(names[i0], names[j0]));
        }
    }
}

/// The names in `names`, in ascending order.
pub fn sort_names(names: &Vec<String>) -> (sorted: Vec<String>)
    ensures
        ascending(names_of(sorted@)),
        names_of(sorted@).to_multiset() == names_of(names@).to_multiset(),
{
    let mut out: Vec<String> = Vec::new();
    let mut i: usize = 0;
    proof {
        assert(names_of(names@).take(0) =~= names_of(out@));
    }
    while i < names.len()
        invariant
            i <= names.len(),
            ascending(names_of(out@)),
            names_of(out@).to_multiset() == names_of(names@).take(i as int).to_multiset(),
        decreases names.len() - i,
    {
        let name = &names[i];
        let mut at: usize = 0;
        let mut found = false;
        while at < out.len() && !found
            invariant
                at <= out.len(),
                forall|k: int| 0 <= k < at ==> name_le(#[trigger] names_of(out@)[k], name@),
                found ==> at < out.len() && !name_le(out@[at as int]@, name@),
            decreases out.len() - at + (if found { 0int } else { 1int }),
        {
            if names_in_order(out[at].as_str(), name.as_str()) {
                at += 1;
            } else {
                found = true;
            }
        }
        proof {
            let before = names_of(out@);
            if at < out.len() {
                lemma_bytes_le_total(encode_utf8(before[at as int]), encode_utf8(name@));
            }
            lemma_insert_keeps_ascending(before, at as int, name@);
            to_multiset_insert(before, at as int, name@);
            to_multiset_build(names_of(names@).take(i as int), name@);
            assert(names_of(names@).take(i + 1) =~= names_of(names@).take(i as int).push(name@));
            assert(names_of(out@.insert(at as int, *name)) =~= before.insert(at as int, name@));
        }
        out.insert(at, name.clone());
        i += 1;
    }
    proof {
        assert(names_of(names@).take(names.len() as int) =~= names_of(names@));
    }
    out
}

/// The names of the regular files with the supported extension in `listing`,
/// in the order of the listing.
pub fn playable_names(listing: &Vec<DirEntry>) -> (found: Vec<String>)
    ensures
        names_of(found@) == playable(entries_of(listing@)),
{
    let mut found: Vec<String> = Vec::new();
    let mut i: usize = 0;
    proof {
        assert(names_of(found@) =~= playable(entries_of(listing@).take(0)));
    }
    while i < listing.len()
        invariant
            i <= listing.len(),
            names_of(found@) == playable(entries_of(listing@).take(i as int)),
        decreases listing.len() - i,
    {
        let entry = &listing[i];
        proof {
            let upto = entries_of(listing@).take(i + 1);
            assert(upto.drop_last() =~= entries_of(listing@).take(i as int));
            assert(upto.last() == entry@);
            assert(names_of(found@.push(entry.name)) =~= names_of(found@).push(entry.name@));
        }
        if entry.is_file && is_supported_name(entry.name.as_str()) {
            found.push(entry.name.clone());
        }
        i += 1;
    }
    proof {
        assert(entries_of(listing@).take(listing.len() as int) =~= entries_of(listing@));
    }
    found
}

/// The track list of a directory from its listing: the playable names in
/// ascending order. `None` stands for a directory that could not be read.
pub fn load_mp3_files(listing: Option<&Vec<DirEntry>>) -> (loaded: Result<Vec<String>, PlayerError>)
    ensures
        match loaded {
            Ok(names) => listing matches Some(entries) && is_listing_of(
                names_of(names@),
                entries_of(entries@),
            ),
            Err(error) => listing is None && error == PlayerError::Io,
        },
{
    match listing {
        None => Err(PlayerError::Io),
        Some(entries) => {
            let found = playable_names(entries);
            Ok(sort_names(&found))
        },
    }
}

/// A copy of `names`.
pub fn copy_names(names: &Vec<String>) -> (copy: Vec<String>)
    ensures
        names_of(copy@) == names_of(names@),
{
    let mut copy: Vec<String> = Vec::new();
    let mut i: usize = 0;
    while i < names.len()
        invariant
            i <= names.len(),
            copy.len() == i,
            forall|k: int| 0 <= k < i ==> copy@[k]@ == names@[k]@,
        decreases names.len() - i,
    {
        copy.push(names[i].clone());
        i += 1;
    }
    proof {
        assert(names_of(copy@) =~= names_of(names@));
    }
    copy
}

/// `names` with the names at `i` and `j` in each other's place, where both
/// are places in it, and as it is otherwise.
pub open spec fn swapped(names: Names, i: int, j: int) -> Names {
    if 0 <= i < names.len() && 0 <= j < names.len() {
        names.update(i, names[j]).update(j, names[i])
    } else {
        names
    }
}

/// Swapping two names keeps every name as often as it was there.
pub proof fn lemma_swapped_is_permutation(names: Names, i: int, j: int)
    ensures
        swapped(names, i, j).to_multiset() == names.to_multiset(),
        swapped(names, i, j).len() == names.len(),
{
    if 0 <= i < names.len() && 0 <= j < names.len() {
        let half = names.update(i, names[j]);
        to_multiset_update(names, i, names[j]);
        to_multiset_update(half, j, names[i]);
        if i == j {
            assert(swapped(names, i, j) =~= names);
        } else {
            assert(half[j] == names[j]);
            assert(names.to_multiset().count(names[i]) > 0) by {
                vstd::seq_lib::to_multiset_contains(names, names[i]);
                assert(names.contains(names[i]));
            }
            assert(names.to_multiset().insert(names[j]).remove(names[i]).insert(names[i]).remove(
                names[j],
            ) =~= names.to_multiset());
        }
    }
}

/// Puts the names at `i` and `j` in each other's place. Where one of them is
/// no place in `names`, nothing changes.
pub fn swap_names(names: &mut Vec<String>, i: usize, j: usize)
    ensures
        names_of(final(names)@) == swapped(names_of(old(names)@), i as int, j as int),
{
    if i < names.len() && j < names.len() && i != j {
        let (low, high) = if i < j {
            (i, j)
        } else {
            (j, i)
        };
        let upper = names.remove(high);
        let lower = names.remove(low);
        names.insert(low, upper);
        names.insert(high, lower);
    }
    proof {
        assert(names_of(names@) =~= swapped(names_of(old(names)@), i as int, j as int));
    }
}

/// Draws a number below `bound` with `gen_range` on rand's `thread_rng()`,
/// called with the range from 0 up to and without `bound`. rand returns a
/// value inside the range it is given and panics on an empty one, which
/// `bound > 0` rules out. Which value comes back is left open, and so is
/// that the values are spread evenly, which rand promises and no contract
/// here can say.
#[verifier::external_body]
fn random_below(bound: usize) -> (drawn: usize)
    requires
        bound > 0,
    ensures
        drawn < bound,
{
    rand::thread_rng().gen_range(0..bound)
}

/// Brings `names` into a random order: from the last place down, each place
/// changes names with a place drawn from those up to it.
pub fn shuffle_names(names: &mut Vec<String>)
    ensures
        names_of(final(names)@).to_multiset() == names_of(old(names)@).to_multiset(),
        final(names).len() == old(names).len(),
{
    let mut i: usize = names.len();
    while i > 1
        invariant
            i <= names.len(),
            names.len() == old(names).len(),
            names_of(names@).to_multiset() == names_of(old(names)@).to_multiset(),
        decreases i,
    {
        i -= 1;
        let j = random_below(i + 1);
        proof {
            lemma_swapped_is_permutation(names_of(names@), i as int, j as int);
        }
        swap_names(names, i, j);
    }
}

/// The playlist as contracts see it.
pub struct PlaylistModel {
    /// The directory the tracks were loaded from.
    pub directory: Seq<char>,
    /// The tracks in the order they are played in.
    pub current: Names,
    /// The tracks in the order the last load gave.
    pub original: Names,
    /// The place of the selected track.
    pub selected: Option<usize>,
}

/// The selection after the order changed: the first track, if there is one.
pub open spec fn first_of(len: nat) -> Option<usize> {
    if len == 0 {
        None
    } else {
        Some(0)
    }
}

/// The place after `from`, going round: none in an empty list.
pub open spec fn place_after(len: nat, from: int) -> Option<usize> {
    if len == 0 {
        None
    } else {
        Some(((from + 1) % (len as int)) as usize)
    }
}

/// The place before `from`, going round: none in an empty list.
pub open spec fn place_before(len: nat, from: int) -> Option<usize> {
    if len == 0 {
        None
    } else {
        Some(((from - 1 + len) % (len as int)) as usize)
    }
}

impl PlaylistModel {
    pub open spec fn empty() -> Self {
        PlaylistModel {
            directory: Seq::empty(),
            current: Seq::empty(),
            original: Seq::empty(),
            selected: None,
        }
    }

    /// A track is selected exactly when there is one, and the selection is a
    /// place in the list.
    pub open spec fn wf(self) -> bool {
        match self.selected {
            None => self.current.len() == 0,
            Some(i) => i < self.current.len(),
        }
    }

    /// The playlist of `directory` with `names` as both orders.
    pub open spec fn loaded(directory: Seq<char>, names: Names) -> Self {
        PlaylistModel {
            directory,
            current: names,
            original: names,
            selected: first_of(names.len()),
        }
    }

    /// The playlist with the order of the last load back in place.
    pub open spec fn restored(self) -> Self {
        PlaylistModel {
            current: self.original,
            selected: first_of(self.original.len()),
            ..self
        }
    }

    /// The playlist with no track to play.
    pub open spec fn cleared(self) -> Self {
        PlaylistModel { current: Seq::empty(), selected: None, ..self }
    }

    /// Whether the playlist is `before` after a shuffle: the same tracks in
    /// some order, the first one selected, the rest as it was.
    pub open spec fn is_shuffle_of(self, before: Self) -> bool {
        &&& self.current.to_multiset() == before.current.to_multiset()
        &&& self.current.len() == before.current.len()
        &&& self.selected == first_of(before.current.len())
        &&& self.original == before.original
        &&& self.directory == before.directory
    }

    /// The playlist with the track at `index` selected, if there is one.
    pub open spec fn with_selected(self, index: usize) -> Self {
        if index < self.current.len() {
            PlaylistModel { selected: Some(index), ..self }
        } else {
            self
        }
    }

    /// The playlist with the selection moved on by one track, or back by
    /// one, going round.
    pub open spec fn with_selection_moved(self, forward: bool) -> Self {
        match self.selected {
            Some(from) => PlaylistModel {
                selected: if forward {
                    place_after(self.current.len(), from as int)
                } else {
                    place_before(self.current.len(), from as int)
                },
                ..self
            },
            None => self,
        }
    }
}

/// Going one place on from `from` in a round of `len` places.
proof fn lemma_place_after(len: int, from: int)
    requires
        len > 0,
        from >= 0,
    ensures
        (from + 1) % len == if from % len + 1 == len {
            0
        } else {
            from % len + 1
        },
{
    let q = from / len;
    let r = from % len;
    lemma_fundamental_div_mod(from, len);
    if r + 1 == len {
        assert(from + 1 == (q + 1) * len + 0) by (nonlinear_arith)
            requires
                from == len * q + r,
                r + 1 == len,
        ;
        lemma_fundamental_div_mod_converse(from + 1, len, q + 1, 0);
    } else {
        assert(from + 1 == q * len + (r + 1)) by (nonlinear_arith)
            requires
                from == len * q + r,
        ;
        lemma_fundamental_div_mod_converse(from + 1, len, q, r + 1);
    }
}

/// Going one place back from `from` in a round of `len` places.
proof fn lemma_place_before(len: int, from: int)
    requires
        len > 0,
        from >= 0,
    ensures
        (from - 1 + len) % len == if from % len == 0 {
            len - 1
        } else {
            from % len - 1
        },
{
    let q = from / len;
    let r = from % len;
    lemma_fundamental_div_mod(from, len);
    if r == 0 {
        assert(from - 1 + len == q * len + (len - 1)) by (nonlinear_arith)
            requires
                from == len * q + r,
                r == 0,
        ;
        lemma_fundamental_div_mod_converse(from - 1 + len, len, q, len - 1);
    } else {
        assert(from - 1 + len == (q + 1) * len + (r - 1)) by (nonlinear_arith)
            requires
                from == len * q + r,
        ;
        lemma_fundamental_div_mod_converse(from - 1 + len, len, q + 1, r - 1);
    }
}

/// The track list of one directory.
pub struct PlaylistManager {
    directory: String,
    current_order: Vec<String>,
    original_order: Vec<String>,
    selected_index: Option<usize>,
}

impl View for PlaylistManager {
    type V = PlaylistModel;

    closed spec fn view(&self) -> PlaylistModel {
        PlaylistModel {
            directory: self.directory@,
            current: names_of(self.current_order@),
            original: names_of(self.original_order@),
            selected: self.selected_index,
        }
    }
}

impl PlaylistManager {
    #[verifier::type_invariant]
    spec fn selection_in_place(self) -> bool {
        self@.wf()
    }

    /// A playlist without a directory and without tracks.
    pub fn new() -> (playlist: Self)
        ensures
            playlist@ == PlaylistModel::empty(),
    {
        let playlist = PlaylistManager {
            directory: String::new(),
            current_order: Vec::new(),
            original_order: Vec::new(),
            selected_index: None,
        };
        proof {
            assert(playlist@.current =~= Seq::empty());
            assert(playlist@.original =~= Seq::empty());
        }
        playlist
    }

    /// The playlist that a saved queue holds: `files` in the order they were
    /// saved in, under `directory`.
    pub fn from_queue(directory: String, files: Vec<String>) -> (playlist: Self)
        ensures
            playlist@ == PlaylistModel::loaded(directory@, names_of(files@)),
    {
        let selected_index = if files.len() == 0 {
            None
        } else {
            Some(0)
        };
        let original_order = copy_names(&files);
        PlaylistManager { directory, current_order: files, original_order, selected_index }
    }

    /// Takes the listing of `directory` as the new track list and returns it:
    /// the playable names in ascending order, as both orders, with the first
    /// track selected. `None` stands for a directory that could not be read:
    /// the playlist is then left as it was.
    pub fn load(&mut self, directory: &str, listing: Option<&Vec<DirEntry>>) -> (loaded: Result<
        Vec<String>,
        PlayerError,
    >)
        ensures
            final(self)@.wf(),
            match loaded {
                Ok(names) => {
                    &&& listing matches Some(entries)
                    &&& is_listing_of(names_of(names@), entries_of(entries@))
                    &&& final(self)@ == PlaylistModel::loaded(directory@, names_of(names@))
                },
                Err(error) => {
                    &&& listing is None
                    &&& error == PlayerError::Io
                    &&& final(self)@ == old(self)@
                },
            },
    {
        proof {
            use_type_invariant(&*self);
        }
        match load_mp3_files(listing) {
            Err(error) => Err(error),
            Ok(names) => {
                let selected_index = if names.len() == 0 {
                    None
                } else {
                    Some(0)
                };
                *self = PlaylistManager {
                    directory: directory.to_owned(),
                    current_order: copy_names(&names),
                    original_order: copy_names(&names),
                    selected_index,
                };
                Ok(names)
            },
        }
    }

    /// Brings the tracks into a random order and selects the first one.
    pub fn shuffle(&mut self)
        ensures
            final(self)@.wf(),
            final(self)@.is_shuffle_of(old(self)@),
    {
        let mut order = copy_names(&self.current_order);
        shuffle_names(&mut order);
        let selected_index = if order.len() == 0 {
            None
        } else {
            Some(0)
        };
        *self = PlaylistManager {
            directory: self.directory.clone(),
            current_order: order,
            original_order: copy_names(&self.original_order),
            selected_index,
        };
    }

    /// Puts the order of the last load back and selects the first track.
    pub fn restore_original(&mut self)
        ensures
            final(self)@.wf(),
            final(self)@ == old(self)@.restored(),
    {
        let selected_index = if self.original_order.len() == 0 {
            None
        } else {
            Some(0)
        };
        *self = PlaylistManager {
            directory: self.directory.clone(),
            current_order: copy_names(&self.original_order),
            original_order: copy_names(&self.original_order),
            selected_index,
        };
    }

    /// Empties the order that is played. The order of the last load stays.
    pub fn clear(&mut self)
        ensures
            final(self)@.wf(),
            final(self)@ == old(self)@.cleared(),
    {
        *self = PlaylistManager {
            directory: self.directory.clone(),
            current_order: Vec::new(),
            original_order: copy_names(&self.original_order),
            selected_index: None,
        };
        proof {
            assert(self@.current =~= Seq::empty());
        }
    }

    /// The text to write to the queue file: the directory and the tracks in
    /// the order they are played in.
    pub fn queue_contents(&self) -> (contents: String)
        ensures
            contents@ == queue_text(self@.directory, self@.current),
    {
        save_queue(&self.current_order, self.directory.as_str())
    }

    /// The place after `from_index`, going round to the first at the end.
    pub fn next(&self, from_index: usize) -> (place: Option<usize>)
        ensures
            place == place_after(self@.current.len(), from_index as int),
            place is None <==> self@.current.len() == 0,
            place matches Some(i) ==> i < self@.current.len(),
    {
        let len = self.current_order.len();
        if len == 0 {
            None
        } else {
            let at = from_index % len;
            proof {
                lemma_place_after(len as int, from_index as int);
            }
            if at + 1 == len {
                Some(0)
            } else {
                Some(at + 1)
            }
        }
    }

    /// The place before `from_index`, going round to the last at the start.
    pub fn previous(&self, from_index: usize) -> (place: Option<usize>)
        ensures
            place == place_before(self@.current.len(), from_index as int),
            place is None <==> self@.current.len() == 0,
            place matches Some(i) ==> i < self@.current.len(),
    {
        let len = self.current_order.len();
        if len == 0 {
            None
        } else {
            let at = from_index % len;
            proof {
                lemma_place_before(len as int, from_index as int);
            }
            if at == 0 {
                Some(len - 1)
            } else {
                Some(at - 1)
            }
        }
    }

    /// Selects the track at `index`, if there is one, and says whether there
    /// is.
    pub fn select(&mut self, index: usize) -> (selected: bool)
        ensures
            final(self)@.wf(),
            selected == (index < old(self)@.current.len()),
            final(self)@ == old(self)@.with_selected(index),
    {
        proof {
            use_type_invariant(&*self);
        }
        if index < self.current_order.len() {
            self.selected_index = Some(index);
            true
        } else {
            false
        }
    }

    /// Moves the selection on to the next track, from the last to the first.
    pub fn select_next(&mut self)
        ensures
            final(self)@.wf(),
            final(self)@ == old(self)@.with_selection_moved(true),
    {
        proof {
            use_type_invariant(&*self);
        }
        match self.selected_index {
            Some(from) => {
                let place = self.next(from);
                self.selected_index = place;
            },
            None => {},
        }
    }

    /// Moves the selection back to the track before, from the first to the
    /// last.
    pub fn select_previous(&mut self)
        ensures
            final(self)@.wf(),
            final(self)@ == old(self)@.with_selection_moved(false),
    {
        proof {
            use_type_invariant(&*self);
        }
        match self.selected_index {
            Some(from) => {
                let place = self.previous(from);
                self.selected_index = place;
            },
            None => {},
        }
    }

    /// The directory the tracks were loaded from.
    pub fn directory(&self) -> (directory: &String)
        ensures
            directory@ == self@.directory,
    {
        &self.directory
    }

    /// The tracks in the order they are played in.
    pub fn current_order(&self) -> (order: &Vec<String>)
        ensures
            names_of(order@) == self@.current,
    {
        &self.current_order
    }

    /// The tracks in the order the last load gave.
    pub fn original_order(&self) -> (order: &Vec<String>)
        ensures
            names_of(order@) == self@.original,
    {
        &self.original_order
    }

    /// The place of the selected track: none exactly when there is no track.
    pub fn selected_index(&self) -> (selected: Option<usize>)
        ensures
            selected == self@.selected,
            self@.wf(),
    {
        proof {
            use_type_invariant(self);
        }
        self.selected_index
    }

    /// How many tracks there are to play.
    pub fn len(&self) -> (len: usize)
        ensures
            len == self@.current.len(),
    {
        self.current_order.len()
    }

    /// The name of the track at `index`, if there is one.
    pub fn track(&self, index: usize) -> (name: Option<&String>)
        ensures
            match name {
                Some(name) => index < self@.current.len() && name@ == self@.current[index as int],
                None => index >= self@.current.len(),
            },
    {
        if index < self.current_order.len() {
            Some(&self.current_order[index])
        } else {
            None
        }
    }
}

impl PlaylistModel {
    /// Whether the playlist is `before` after one change other than a load:
    /// after a shuffle, after the order of the load was put back, after it
    /// was emptied, or after the selection went to another track.
    pub open spec fn is_change_of(self, before: Self) -> bool {
        ||| self.is_shuffle_of(before)
        ||| self == before.restored()
        ||| self == before.cleared()
        ||| self == before.with_selection_moved(true)
        ||| self == before.with_selection_moved(false)
        ||| exists|index: usize| self == #[trigger] before.with_selected(index)
    }
}

/// Only a load changes the order that a playlist was loaded with, and every
/// change leaves a track selected exactly when there is one.
pub proof fn lemma_changes_keep_order_of_load(before: PlaylistModel, after: PlaylistModel)
    requires
        before.wf(),
        after.is_change_of(before),
    ensures
        after.original == before.original,
        after.directory == before.directory,
        after.wf(),
{
}

/// However often a playlist was shuffled since it was loaded, and whatever
/// else but a load was done to it, restoring it gives the playlist as the
/// load left it.
pub proof fn lemma_restore_undoes_shuffles(
    directory: Seq<char>,
    names: Names,
    states: Seq<PlaylistModel>,
)
    requires
        states.len() > 0,
        states[0] == PlaylistModel::loaded(directory, names),
        forall|k: int| 1 <= k < states.len() ==> (#[trigger] states[k]).is_change_of(states[k - 1]),
    ensures
        states.last().restored() == PlaylistModel::loaded(directory, names),
    decreases states.len(),
{
    if states.len() > 1 {
        let earlier = states.drop_last();
        assert forall|k: int| 1 <= k < earlier.len() implies (#[trigger] earlier[k]).is_change_of(
            earlier[k - 1],
        ) by {
            assert(states[k].is_change_of(states[k - 1]));
        }
        lemma_restore_undoes_shuffles(directory, names, earlier);
        assert(states.last().is_change_of(states[states.len() - 2]));
        assert(earlier.last() == states[states.len() - 2]);
    }
}

/// A playlist that was just loaded has a track selected exactly when the
/// directory has one.
pub proof fn lemma_loaded_is_wf(directory: Seq<char>, names: Names)
    requires
        names.len() <= usize::MAX,
    ensures
        PlaylistModel::loaded(directory, names).wf(),
        PlaylistModel::empty().wf(),
{
}

/// Going on from the last place leads to the first, going back from the first
/// leads to the last, and in a list without tracks there is no place to go to.
pub proof fn lemma_places_wrap(len: nat)
    requires
        len <= usize::MAX,
    ensures
        len > 0 ==> place_after(len, len - 1) == Some(0usize),
        len > 0 ==> place_before(len, 0) == Some((len - 1) as usize),
        forall|from: int| place_after(0, from) is None && place_before(0, from) is None,
{
    if len > 0 {
        lemma_place_after(len as int, len - 1);
        lemma_place_before(len as int, 0);
        lemma_fundamental_div_mod_converse(len - 1, len as int, 0, len - 1);
        lemma_fundamental_div_mod_converse(0, len as int, 0, 0);
    }
}

/// Inside the list, going on and then back, or back and then on, leads to
/// the place one started from.
pub proof fn lemma_places_inverse(len: nat, from: int)
    requires
        0 <= from < len <= usize::MAX,
    ensures
        place_after(len, from) matches Some(after) && place_before(len, after as int) == Some(
            from as usize,
        ),
        place_before(len, from) matches Some(before) && place_after(len, before as int) == Some(
            from as usize,
        ),
{
    let n = len as int;
    lemma_fundamental_div_mod_converse(from, n, 0, from);
    lemma_place_after(n, from);
    lemma_place_before(n, from);
    let after = (from + 1) % n;
    let before = (from - 1 + n) % n;
    lemma_place_before(n, after);
    lemma_place_after(n, before);
    lemma_fundamental_div_mod_converse(after, n, 0, after);
    lemma_fundamental_div_mod_converse(before, n, 0, before);
}

} // verus!
