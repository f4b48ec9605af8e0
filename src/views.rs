//! What the API shows: directory listings under the media root and the
//! speakers' current state.

use vstd::prelude::*;
use crate::net::{Ipv4, PeerAddr};
use crate::environment::OperationEnv;
use crate::access::{ApiError, Route};
use crate::paths::{joined, normalized, normalize, join};

verus! {

/// One entry of a directory, as read from disk.
#[derive(Clone, Debug)]
pub struct DirEntry {
    pub name: String,
    pub is_dir: bool,
}

/// How an entry is listed: its name, with `/` after a directory's.
pub open spec fn marked(e: DirEntry) -> Seq<char> {
    if e.is_dir {
        e.name@ + seq!['/']
    } else {
        e.name@
    }
}

/// A hidden entry: its name starts with a dot.
pub open spec fn is_hidden(name: Seq<char>) -> bool {
    name.len() > 0 && name[0] == '.'
}

/// The listing of a directory's entries, in order: hidden ones left out,
/// directories marked.
pub open spec fn listing(entries: Seq<DirEntry>) -> Seq<Seq<char>>
    decreases entries.len(),
{
    if entries.len() == 0 {
        Seq::empty()
    } else {
        let rest = listing(entries.drop_last());
        if is_hidden(marked(entries.last())) {
            rest
        } else {
            rest.push(marked(entries.last()))
        }
    }
}

/// The names to list for a directory's entries.
pub fn listing_names(entries: &Vec<DirEntry>) -> (r: Vec<String>)
    ensures
        r@.map_values(|s: String| s@) == listing(entries@),
{
    let mut r: Vec<String> = Vec::new();
    let mut i: usize = 0;
    while i < entries.len()
        invariant
            i <= entries@.len(),
            r@.map_values(|s: String| s@) == listing(entries@.take(i as int)),
        decreases entries@.len() - i,
    {
        let e = &entries[i];
        let mut n = e.name.clone();
        if e.is_dir {
            n.append("/");
            proof {
                reveal_strlit("/");
            }
        }
        assert(n@ == marked(entries@[i as int]));
        assert(entries@.take(i + 1).drop_last() =~= entries@.take(i as int));
        let hidden = n.as_str().unicode_len() > 0 && n.as_str().get_char(0) == '.';
        if !hidden {
            let ghost before = r@;
            r.push(n);
            assert(r@.map_values(|s: String| s@) =~= before.map_values(|s: String| s@).push(
                marked(entries@[i as int]),
            ));
        }
        i += 1;
    }
    assert(entries@.take(i as int) =~= entries@);
    r
}

/// A listing shows no hidden entry; each name it shows is an entry's name,
/// with `/` appended exactly when that entry is a directory; and every entry
/// that is not hidden is shown.
pub proof fn lemma_listing_shape(entries: Seq<DirEntry>)
    ensures
        forall|k: int| 0 <= k < listing(entries).len() ==> !is_hidden(#[trigger] listing(entries)[k]),
        forall|k: int|
            0 <= k < listing(entries).len() ==> exists|j: int|
                0 <= j < entries.len() && #[trigger] listing(entries)[k] == if entries[j].is_dir {
                    entries[j].name@ + seq!['/']
                } else {
                    entries[j].name@
                },
        forall|j: int|
            0 <= j < entries.len() && !is_hidden(marked(#[trigger] entries[j])) ==> listing(
                entries,
            ).contains(marked(entries[j])),
    decreases entries.len(),
{
    if entries.len() > 0 {
        let init = entries.drop_last();
        lemma_listing_shape(init);
        let e = entries.last();
        let l = listing(entries);
        let li = listing(init);
        assert forall|k: int| 0 <= k < l.len() implies exists|j: int|
            0 <= j < entries.len() && #[trigger] l[k] == if entries[j].is_dir {
                entries[j].name@ + seq!['/']
            } else {
                entries[j].name@
            } by {
            if k < li.len() {
                let j = choose|j: int|
                    0 <= j < init.len() && li[k] == if init[j].is_dir {
                        init[j].name@ + seq!['/']
                    } else {
                        init[j].name@
                    };
                assert(init[j] == entries[j]);
            } else {
                assert(l[k] == marked(entries[entries.len() - 1]));
            }
        }
        assert forall|j: int|
            0 <= j < entries.len() && !is_hidden(marked(#[trigger] entries[j])) implies l.contains(
            marked(entries[j]),
        ) by {
            if j < init.len() {
                assert(init[j] == entries[j]);
                let k = choose|k: int| 0 <= k < li.len() && li[k] == marked(init[j]);
                assert(l[k] == li[k]);
            } else {
                assert(l[l.len() - 1] == marked(e));
            }
        }
    }
}

/// Where entry names hold no `/`, as the names in a directory never do, a
/// listed name ends with `/` exactly when its entry is a directory.
pub proof fn lemma_directory_marks(entries: Seq<DirEntry>)
    requires
        forall|j: int| 0 <= j < entries.len() ==> !entries[j].name@.contains('/'),
    ensures
        forall|j: int|
            0 <= j < entries.len() ==> (marked(#[trigger] entries[j]).len() > 0 && marked(
                entries[j],
            ).last() == '/' <==> entries[j].is_dir),
{
    assert forall|j: int|
        0 <= j < entries.len() implies (marked(#[trigger] entries[j]).len() > 0 && marked(
            entries[j],
        ).last() == '/' <==> entries[j].is_dir) by {
        let m = marked(entries[j]);
        if !entries[j].is_dir && m.len() > 0 && m.last() == '/' {
            assert(entries[j].name@.contains('/'));
        }
    }
}

/// Where a listing request for `rel` reads: the normal form of `rel` under
/// the media root, or nothing where `rel` would leave the root.
pub open spec fn listing_dir(env: OperationEnv, rel: Seq<char>) -> Option<Seq<char>> {
    match normalized(rel) {
        Some(p) => Some(joined(env.root@, p)),
        None => None,
    }
}

/// Decides a listing request from `peer` for the directory `rel` under the
/// media root. `Ok(None)`: there is nothing to list.
pub fn listing_path(env: &OperationEnv, peer: PeerAddr, rel: &str) -> (r: Result<
    Option<String>,
    ApiError,
>)
    ensures
        !env.spec_admits(Route::FileList, peer) ==> r == Err::<Option<String>, ApiError>(
            ApiError::Forbidden,
        ),
        env.spec_admits(Route::FileList, peer) ==> (r matches Ok(p) && match listing_dir(*env, rel@) {
            Some(d) => p matches Some(s) && s@ == d,
            None => p is None,
        }),
{
    if !env.admits(Route::FileList, peer) {
        return Err(ApiError::Forbidden);
    }
    match normalize(rel) {
        Some(p) => Ok(Some(join(env.root.as_str(), p.as_str()))),
        None => Ok(None),
    }
}

/// The current track of a speaker.
#[derive(Clone, Debug)]
pub struct TrackInfo {
    pub creator: Option<String>,
    pub title: String,
    pub duration: u32,
    pub elapsed: u32,
}

/// The state of one speaker, read fresh for each request.
#[derive(Clone, Debug)]
pub struct ApiSpeaker {
    pub ip: Ipv4,
    pub trackname: String,
    pub trackduration: u32,
    pub trackelapsed: u32,
    pub volume: u16,
    pub is_playing: bool,
}

/// How a track is named: `creator - title`, with `unknown` for a missing
/// creator, or `None` when nothing is loaded.
pub open spec fn track_label(track: Option<TrackInfo>) -> Seq<char> {
    match track {
        None => "None"@,
        Some(t) => match t.creator {
            Some(c) => c@ + " - "@ + t.title@,
            None => "unknown"@ + " - "@ + t.title@,
        },
    }
}

impl ApiSpeaker {
    /// The view of a speaker at `ip` from what it reported.
    pub fn from_reading(ip: Ipv4, track: Option<TrackInfo>, volume: u16, is_playing: bool) -> (r:
        ApiSpeaker)
        ensures
            r.ip == ip,
            r.trackname@ == track_label(track),
            r.trackduration == (match track {
                Some(t) => t.duration,
                None => 0,
            }),
            r.trackelapsed == (match track {
                Some(t) => t.elapsed,
                None => 0,
            }),
            r.volume == volume,
            r.is_playing == is_playing,
    {
        match track {
            None => ApiSpeaker {
                ip,
                trackname: String::from_str("None"),
                trackduration: 0,
                trackelapsed: 0,
                volume,
                is_playing,
            },
            Some(t) => {
                let mut name = match t.creator {
                    Some(c) => c,
                    None => String::from_str("unknown"),
                };
                name.append(" - ");
                name.append(t.title.as_str());
                ApiSpeaker {
                    ip,
                    trackname: name,
                    trackduration: t.duration,
                    trackelapsed: t.elapsed,
                    volume,
                    is_playing,
                }
            },
        }
    }
}

/// An address that asks for every speaker: `0.0.0.0` or `255.255.255.255`.
pub open spec fn is_wildcard(address: Ipv4) -> bool {
    address == Ipv4::spec_unspecified() || address == Ipv4::spec_broadcast()
}

/// The views that a request for `address` shows, in order.
pub open spec fn selected(views: Seq<ApiSpeaker>, address: Ipv4) -> Seq<ApiSpeaker>
    decreases views.len(),
{
    if is_wildcard(address) {
        views
    } else if views.len() == 0 {
        Seq::empty()
    } else {
        let rest = selected(views.drop_last(), address);
        if views.last().ip == address {
            rest.push(views.last())
        } else {
            rest
        }
    }
}

/// The speakers' views that a request for `address` shows: all of them for a
/// wildcard address, else those at that address.
pub fn filter_views(views: Vec<ApiSpeaker>, address: Ipv4) -> (r: Vec<ApiSpeaker>)
    ensures
        r@ == selected(views@, address),
{
    if address == Ipv4::unspecified() || address == Ipv4::broadcast() {
        return views;
    }
    let ghost all = views@;
    let mut r: Vec<ApiSpeaker> = Vec::new();
    for v in it: views.into_iter()
        invariant
            it.seq() == all,
            !is_wildcard(address),
            r@ == selected(all.take(it.index() as int), address),
    {
        let ghost k = it.index();
        assert(all.take(k + 1).drop_last() =~= all.take(k as int));
        if v.ip == address {
            r.push(v);
        }
    }
    assert(all.take(all.len() as int) =~= all);
    r
}

/// A wildcard address shows every speaker; any other address shows only
/// speakers at that address, and no more of them than there are.
pub proof fn lemma_selection(views: Seq<ApiSpeaker>, address: Ipv4)
    ensures
        is_wildcard(address) ==> selected(views, address) == views,
        !is_wildcard(address) ==> forall|k: int|
            0 <= k < selected(views, address).len() ==> (#[trigger] selected(views, address)[k]).ip
                == address,
        selected(views, address).len() <= views.len(),
    decreases views.len(),
{
    if !is_wildcard(address) && views.len() > 0 {
        lemma_selection(views.drop_last(), address);
    }
}

} // verus!
