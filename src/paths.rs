use vstd::prelude::*;
use vstd::string::*;

verus! {

/// The directory that holds every playlist.
pub open spec fn playlist_root() -> Seq<char> {
    seq!['p', 'l', 'a', 'y', 'l', 'i', 's', 't']
}

/// The directory that holds the tracks available for import.
pub open spec fn music_root() -> Seq<char> {
    seq!['m', 'u', 's', 'i', 'c']
}

/// `playlist/<name>`
pub open spec fn playlist_dir_of(name: Seq<char>) -> Seq<char> {
    playlist_root() + seq!['/'] + name
}

/// `music/<file>`
pub open spec fn source_path_of(file: Seq<char>) -> Seq<char> {
    music_root() + seq!['/'] + file
}

/// `playlist/<name>/<file>`
pub open spec fn track_path_of(name: Seq<char>, file: Seq<char>) -> Seq<char> {
    playlist_dir_of(name) + seq!['/'] + file
}

/// The directory of the playlist called `name`.
pub fn playlist_dir(name: &str) -> (r: String)
    ensures
        r@ == playlist_dir_of(name@),
{
    proof {
        reveal_strlit("playlist/");
    }
    let mut r = String::from_str("playlist/");
    r.append(name);
    assert(r@ =~= playlist_dir_of(name@));
    r
}

/// Where the track `file` is taken from when it is imported.
pub fn source_path(file: &str) -> (r: String)
    ensures
        r@ == source_path_of(file@),
{
    proof {
        reveal_strlit("music/");
    }
    let mut r = String::from_str("music/");
    r.append(file);
    assert(r@ =~= source_path_of(file@));
    r
}

/// Where the track `file` of the playlist `name` is kept, and played from.
pub fn track_path(name: &str, file: &str) -> (r: String)
    ensures
        r@ == track_path_of(name@, file@),
{
    proof {
        reveal_strlit("/");
    }
    let mut r = playlist_dir(name);
    r.append("/");
    r.append(file);
    assert(r@ =~= track_path_of(name@, file@));
    r
}

} // verus!
