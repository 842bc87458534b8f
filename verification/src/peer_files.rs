//! The files in which what is kept for hosts is stored, one for each host.

use vstd::prelude::*;
use vstd::utf8::{decode_utf8, encode_utf8, valid_utf8};
use crate::outside::{
    base64_bytes, base64_decode, base64_encode, base64_text, from_utf8_lossy, lossy_text,
    pattern_found,
};
use crate::paths::{dir_text, located, with_toml};
use crate::config::Config;
use crate::peer_config::PeerConfig;
use crate::ranking::{arranges, rank_order, Ranked};
use crate::text::{
    chars_of, holds, join, list_holds, replace_all, replaced_all, same_text, starts_with,
    text_between,
};

verus! {

/// The directory of the files.
pub const PEERS: &'static str = "peers";

/// What stands before an id that was encoded.
pub const ENCODED: &'static str = "base64_";

/// How many hosts are loaded at once.
pub const BATCH_LOADING_COUNT: usize = 100;

/// How long a batch may take at most, in milliseconds, for the rest not to be loaded ahead.
pub const FAST_BATCH_MILLIS: u128 = 10;

/// The pattern of the ids that cannot be the name of a file.
pub const FORBIDDEN_PATTERN: &'static str = ".*[<>:/\\\\|\\?\\*].*";

/// Whether a character cannot be part of the name of a file.
pub open spec fn forbidden_char(c: char) -> bool {
    c == '<' || c == '>' || c == ':' || c == '/' || c == '\\' || c == '|' || c == '?' || c == '*'
}

/// Whether an id cannot be the name of a file.
pub open spec fn forbidden(id: Seq<char>) -> bool {
    exists|i: int| 0 <= i < id.len() && forbidden_char(#[trigger] id[i])
}

/// The name of the file for an id. `found` tells whether the id cannot be the name of a file, as
/// far as that could be found out.
pub open spec fn file_stem(id: Seq<char>, found: Option<bool>) -> Seq<char> {
    match found {
        Some(true) => ENCODED@ + base64_text(encode_utf8(id)),
        Some(false) => id,
        None => replaced_all(id, ":"@, "_"@),
    }
}

/// Whether an id can be read back from the name of a file to which it was encoded.
pub open spec fn encodes(stem: Seq<char>, id: Seq<char>) -> bool {
    ENCODED@.is_prefix_of(stem) && stem.len() > ENCODED@.len() && base64_bytes(
        stem.skip(ENCODED@.len() as int),
    ) == Some(encode_utf8(id))
}

/// The name of the file for an id.
///
/// `found` tells whether the id cannot be the name of a file, as far as that could be found out.
pub fn peer_file_stem(id: &str, found: Option<bool>) -> (r: String)
    ensures
        r@ == file_stem(id@, found),
        found == Some(true) && id@.len() > 0 ==> encodes(r@, id@),
{
    match found {
        Some(true) => {
            let code = base64_encode(id.as_bytes());
            let r = join(ENCODED, code.as_str());
            proof {
                assert(ENCODED@ =~= r@.subrange(0, ENCODED@.len() as int));
                assert(r@.skip(ENCODED@.len() as int) =~= code@);
                vstd::utf8::encode_utf8_decode_utf8(id@);
                if id@.len() > 0 && encode_utf8(id@).len() == 0 {
                    assert(encode_utf8(id@) =~= encode_utf8(Seq::<char>::empty()));
                    vstd::utf8::encode_utf8_decode_utf8(Seq::<char>::empty());
                }
            }
            r
        },
        Some(false) => id.to_owned(),
        None => {
            proof {
                reveal_strlit(":");
            }
            replace_all(id, ":", "_")
        },
    }
}

/// The id that the name of a file stands for.
pub open spec fn id_of(stem: Seq<char>) -> Seq<char> {
    if ENCODED@.is_prefix_of(stem) && stem.len() > ENCODED@.len() {
        match base64_bytes(stem.skip(ENCODED@.len() as int)) {
            Some(bytes) => lossy_text(bytes),
            None => Seq::empty(),
        }
    } else {
        stem
    }
}

/// The id that the name of a file stands for.
pub fn peer_id(stem: &str) -> (r: String)
    ensures
        r@ == id_of(stem@),
        forall|id: Seq<char>| #[trigger] encodes(stem@, id) ==> r@ == id,
{
    proof {
        reveal_strlit("base64_");
    }
    let chars = chars_of(stem);
    if starts_with(stem, ENCODED) && chars.len() != 7 {
        let code = text_between(&chars, 7, chars.len());
        assert(code@ =~= stem@.skip(7));
        let bytes = match base64_decode(code.as_str()) {
            Some(bytes) => bytes,
            None => Vec::new(),
        };
        let r = from_utf8_lossy(bytes.as_slice());
        proof {
            if base64_bytes(code@) is None {
                assert(valid_utf8(bytes@));
                assert(decode_utf8(bytes@) =~= Seq::<char>::empty());
            }
            assert forall|id: Seq<char>| #[trigger] encodes(stem@, id) implies r@ == id by {
                vstd::utf8::encode_utf8_valid_utf8(id);
                vstd::utf8::encode_utf8_decode_utf8(id);
            }
        }
        return r;
    }
    stem.to_owned()
}

/// A file in the directory of the files.
pub struct PeerFile {
    /// Its name without the extension; empty where it is not a text.
    pub stem: String,
    /// Its extension; empty where it is not a text.
    pub extension: Option<String>,
    /// Whether it is a file, and not a directory.
    pub is_file: bool,
    /// When it was last written.
    pub modified: i128,
}

/// A host for which something is stored.
pub struct PeerEntry {
    pub id: String,
    /// When its file was last written.
    pub modified: i128,
    /// The number of its file.
    pub at: usize,
}

/// What a [`PeerEntry`] stands for.
pub struct PeerEntryView {
    pub id: Seq<char>,
    pub modified: i128,
    pub at: usize,
}

impl View for PeerEntry {
    type V = PeerEntryView;

    open spec fn view(&self) -> PeerEntryView {
        PeerEntryView { id: self.id@, modified: self.modified, at: self.at }
    }
}

/// The file that was written last comes first.
impl Ranked for PeerEntry {
    open spec fn ahead(a: PeerEntryView, b: PeerEntryView) -> bool {
        a.modified > b.modified
    }

    fn is_ahead(&self, other: &Self) -> (r: bool) {
        self.modified > other.modified
    }

    proof fn ahead_is_an_order(a: PeerEntryView, b: PeerEntryView, c: PeerEntryView) {
    }
}

/// Whether a file is one of a host that is asked for.
pub open spec fn asked_for(file: PeerFile, id_filters: Option<Vec<String>>) -> bool {
    &&& file.is_file
    &&& file.extension is Some
    &&& file.extension->0@ == "toml"@
    &&& id_filters matches Some(ids) ==> holds(ids@, id_of(file.stem@))
}

/// Whether an entry is the one of the file with its number. Where the name of the file is encoded,
/// the id is the one that it was made from.
pub open spec fn entry_of(files: Seq<PeerFile>, entry: PeerEntryView) -> bool {
    &&& 0 <= entry.at < files.len()
    &&& entry.id == id_of(files[entry.at as int].stem@)
    &&& forall|id: Seq<char>| #[trigger]
        encodes(files[entry.at as int].stem@, id) ==> entry.id == id
    &&& entry.modified == files[entry.at as int].modified
}

/// Whether a list holds one entry for each file of a host that is asked for.
pub open spec fn lists_files(
    files: Seq<PeerFile>,
    id_filters: Option<Vec<String>>,
    entries: Seq<PeerEntryView>,
) -> bool {
    &&& forall|j: int|
        0 <= j < entries.len() ==> entry_of(files, #[trigger] entries[j]) && asked_for(
            files[entries[j].at as int],
            id_filters,
        )
    &&& forall|j: int, k: int|
        0 <= j < entries.len() && 0 <= k < entries.len() && j != k ==> (#[trigger] entries[j]).at
            != (#[trigger] entries[k]).at
    &&& forall|i: int|
        0 <= i < files.len() && asked_for(#[trigger] files[i], id_filters) ==> exists|j: int|
            0 <= j < entries.len() && (#[trigger] entries[j]).at == i
}

impl PeerConfig {
    /// The file of a host.
    ///
    /// `dir` is the directory of configuration files, where there is one.
    pub fn path(dir: Option<&str>, id: &str) -> (r: String)
        ensures
            r@ == with_toml(
                located(dir_text(dir), PEERS@ + "/"@ + file_stem(id@, Some(forbidden(id@)))),
            ),
            r@ == with_toml(
                located(dir_text(dir), "peers"@ + "/"@ + file_stem(id@, Some(forbidden(id@)))),
            ),
            forbidden(id@) ==> encodes(file_stem(id@, Some(true)), id@),
    {
        let found = pattern_found(FORBIDDEN_PATTERN, id);
        let stem = peer_file_stem(id, found);
        let name = crate::text::join3(PEERS, "/", stem.as_str());
        let path = Config::path(dir, name.as_str());
        Config::with_extension(path.as_str())
    }

    /// The hosts for which something is stored, as far as they are asked for; the one whose file
    /// was written last comes first.
    pub fn get_vec_id_modified_time_path(
        files: &Vec<PeerFile>,
        id_filters: &Option<Vec<String>>,
    ) -> (r: Vec<PeerEntry>)
        ensures
            lists_files(files@, *id_filters, crate::ranking::views(r@)),
            crate::ranking::ranked::<PeerEntry>(crate::ranking::views(r@)),
    {
        let mut entries: Vec<PeerEntry> = Vec::new();
        let mut i: usize = 0;
        while i < files.len()
            invariant
                i <= files.len(),
                forall|j: int|
                    0 <= j < entries@.len() ==> entry_of(files@, (#[trigger] entries@[j])@)
                        && asked_for(files@[entries@[j].at as int], *id_filters) && entries@[j].at
                        < i,
                forall|j: int, k: int|
                    0 <= j < entries@.len() && 0 <= k < entries@.len() && j != k ==> (
                    #[trigger] entries@[j]).at != (#[trigger] entries@[k]).at,
                forall|n: int|
                    0 <= n < i && asked_for(#[trigger] files@[n], *id_filters) ==> exists|j: int|
                        0 <= j < entries@.len() && (#[trigger] entries@[j]).at == n,
            decreases files.len() - i,
        {
            let file = &files[i];
            let is_toml = file.is_file && match &file.extension {
                Some(extension) => same_text(extension.as_str(), "toml"),
                None => false,
            };
            let id = peer_id(file.stem.as_str());
            let wanted = match id_filters {
                Some(ids) => list_holds(ids, id.as_str()),
                None => true,
            };
            let ghost before = entries@;
            if is_toml && wanted {
                entries.push(PeerEntry { id, modified: file.modified, at: i });
                assert forall|n: int|
                    0 <= n < i + 1 && asked_for(#[trigger] files@[n], *id_filters) implies exists|
                    j: int,
                |
                    0 <= j < entries@.len() && (#[trigger] entries@[j]).at == n by {
                    if n < i {
                        let j = choose|j: int| 0 <= j < before.len() && (#[trigger] before[j]).at == n;
                        assert(entries@[j].at == n);
                    } else {
                        assert(entries@[before.len() as int].at == n);
                    }
                }
            }
            i += 1;
        }
        let order = rank_order(&entries);
        let r = in_order(&entries, &order);
        proof {
            let list = crate::ranking::views(r@);
            let all = crate::ranking::views(entries@);
            assert(list =~= order@.map_values(|i: usize| entries@[i as int]@));
            assert forall|j: int| 0 <= j < list.len() implies entry_of(files@, #[trigger] list[j])
                && asked_for(files@[list[j].at as int], *id_filters) by {
                assert(list[j] == entries@[order@[j] as int]@);
            }
            assert forall|j: int, k: int|
                0 <= j < list.len() && 0 <= k < list.len() && j != k implies (
            #[trigger] list[j]).at != (#[trigger] list[k]).at by {
                assert(order@[j] != order@[k]);
                assert(entries@[order@[j] as int].at != entries@[order@[k] as int].at);
            }
            assert forall|n: int|
                0 <= n < files@.len() && asked_for(#[trigger] files@[n], *id_filters) implies exists|
                j: int,
            |
                0 <= j < list.len() && (#[trigger] list[j]).at == n by {
                let at = choose|at: int| 0 <= at < entries@.len() && (#[trigger] entries@[at]).at == n;
                crate::ranking::lemma_arrangement_is_onto(order@, entries@.len(), at as usize);
                let j = choose|j: int| 0 <= j < order@.len() && order@[j] == at as usize;
                assert(list[j].at == n);
            }
        }
        r
    }

    /// Which hosts of a list of the given length are loaded next: from the first number up to the
    /// second one. The third number is where to go on.
    pub fn batch_range(total: usize, from: usize, to: Option<usize>) -> (r: (usize, usize, usize))
        ensures
            r == batch(total, from, to),
    {
        if from >= total {
            return (0, 0, 0);
        }
        let to: usize = match to {
            Some(to) => if to < total {
                to
            } else {
                total
            },
            None => if total - from > BATCH_LOADING_COUNT {
                from + BATCH_LOADING_COUNT
            } else {
                total
            },
        };
        if to <= from {
            return (from, from, from);
        }
        (from, to, to)
    }

    /// Which files are opened ahead next, so that they are read faster later. `done` is how many
    /// were opened, and `millis` how long the last batch of them took.
    pub fn preload_range(total: usize, done: usize, millis: u128) -> (r: Option<(usize, usize)>)
        ensures
            r == preload(total, done, millis),
    {
        if done >= total || (done > 0 && millis < FAST_BATCH_MILLIS) {
            return None;
        }
        let (from, to, _) = Self::batch_range(total, done, None);
        Some((from, to))
    }
}

/// A second list of the entries with the given numbers.
fn in_order(entries: &Vec<PeerEntry>, order: &Vec<usize>) -> (r: Vec<PeerEntry>)
    requires
        arranges(order@, entries@.len()),
    ensures
        crate::ranking::views(r@) == order@.map_values(|i: usize| entries@[i as int]@),
{
    let mut r: Vec<PeerEntry> = Vec::new();
    let mut n: usize = 0;
    while n < order.len()
        invariant
            n <= order.len(),
            arranges(order@, entries@.len()),
            r@.len() == n,
            forall|i: int| 0 <= i < n ==> (#[trigger] r@[i])@ == entries@[order@[i] as int]@,
        decreases order.len() - n,
    {
        let entry = &entries[order[n]];
        r.push(PeerEntry { id: entry.id.clone(), modified: entry.modified, at: entry.at });
        n += 1;
    }
    assert(crate::ranking::views(r@) =~= order@.map_values(|i: usize| entries@[i as int]@));
    r
}

/// Which hosts of a list are loaded next, and where to go on. Past the end there are none, and
/// loading starts over.
pub open spec fn batch(total: usize, from: usize, to: Option<usize>) -> (usize, usize, usize) {
    let end = match to {
        Some(to) => if to < total {
            to
        } else {
            total
        },
        None => if from + BATCH_LOADING_COUNT < total {
            (from + BATCH_LOADING_COUNT) as usize
        } else {
            total
        },
    };
    if from >= total {
        (0, 0, 0)
    } else if end <= from {
        (from, from, from)
    } else {
        (from, end, end)
    }
}

/// Which files are opened ahead next. Where a batch of them was fast, no more are opened.
pub open spec fn preload(total: usize, done: usize, millis: u128) -> Option<(usize, usize)> {
    if done >= total || (done > 0 && millis < FAST_BATCH_MILLIS) {
        None
    } else {
        Some((batch(total, done, None).0, batch(total, done, None).1))
    }
}

// ---------------------------------------------------------------------------------------------
// Laws
// ---------------------------------------------------------------------------------------------

/// The id of a host is read back from the name of its file, unless the name was not encoded and
/// looks as though it were. `stem` is the name that was made for the id, and `read` is what was
/// read back from it.
pub proof fn law_peer_id_is_read_back(id: Seq<char>, stem: Seq<char>, read: Seq<char>)
    requires
        stem == file_stem(id, Some(forbidden(id))),
        forbidden(id) ==> encodes(stem, id),
        read == id_of(stem),
        forall|other: Seq<char>| #[trigger] encodes(stem, other) ==> read == other,
        !forbidden(id) ==> !(ENCODED@.is_prefix_of(id) && id.len() > ENCODED@.len()),
    ensures
        read == id,
{
}

/// Batches cover the whole list: each one starts where the one before has ended, is not empty as
/// long as there is something left, and never goes past the end.
pub proof fn law_batches_cover_the_list(total: usize, from: usize)
    requires
        from < total,
    ensures
        ({
            let (start, end, next) = batch(total, from, None);
            &&& start == from
            &&& start < end <= total
            &&& next == end
            &&& end - start <= BATCH_LOADING_COUNT
            &&& end < total ==> end - start == BATCH_LOADING_COUNT
        }),
{
}

/// A batch that goes to the end of the list covers all of it.
pub proof fn law_one_batch_can_cover_the_list(total: usize)
    requires
        total > 0,
    ensures
        batch(total, 0, Some(total)) == (0usize, total, total),
{
}

/// An id cannot be the name of a file where one of the eight characters that have a meaning in
/// paths is in it, and only there.
pub proof fn law_which_ids_are_forbidden(a: Seq<char>, b: Seq<char>, c: char)
    ensures
        !forbidden(Seq::<char>::empty()),
        forbidden(seq![c]) <==> c == '<' || c == '>' || c == ':' || c == '/' || c == '\\' || c == '|'
            || c == '?' || c == '*',
        forbidden(a + b) <==> forbidden(a) || forbidden(b),
{
    assert(seq![c][0] == c);
    if forbidden(a) {
        let i = choose|i: int| 0 <= i < a.len() && forbidden_char(#[trigger] a[i]);
        assert((a + b)[i] == a[i]);
    }
    if forbidden(b) {
        let i = choose|i: int| 0 <= i < b.len() && forbidden_char(#[trigger] b[i]);
        assert((a + b)[a.len() + i] == b[i]);
    }
    if forbidden(a + b) {
        let i = choose|i: int| 0 <= i < (a + b).len() && forbidden_char(#[trigger] (a + b)[i]);
        if i < a.len() {
            assert(forbidden_char(a[i]));
        } else {
            assert(forbidden_char(b[i - a.len()]));
        }
    }
}

/// An id that can be the name of a file is its name. One that cannot is written in Base64, behind
/// a mark. Where it could not be found out, a line takes the place of each colon, and every other
/// character stays.
pub proof fn law_names_of_files(id: Seq<char>)
    ensures
        file_stem(id, Some(false)) == id,
        file_stem(id, Some(true)) == "base64_"@ + base64_text(encode_utf8(id)),
        file_stem(id, None).len() == id.len(),
        forall|i: int|
            0 <= i < id.len() ==> #[trigger] file_stem(id, None)[i] == (if id[i] == ':' {
                '_'
            } else {
                id[i]
            }),
{
    lemma_colons_replaced(id);
}

proof fn lemma_colons_replaced(id: Seq<char>)
    ensures
        replaced_all(id, ":"@, "_"@).len() == id.len(),
        forall|i: int|
            0 <= i < id.len() ==> #[trigger] replaced_all(id, ":"@, "_"@)[i] == (if id[i] == ':' {
                '_'
            } else {
                id[i]
            }),
    decreases id.len(),
{
    reveal_strlit(":");
    reveal_strlit("_");
    if id.len() > 0 {
        let rest = id.skip(1);
        lemma_colons_replaced(rest);
        if ":"@.is_prefix_of(id) {
            assert(id.subrange(0, 1)[0] == ':');
        } else if id[0] == ':' {
            assert(":"@ =~= id.subrange(0, 1));
        }
        let r = replaced_all(id, ":"@, "_"@);
        let tail = replaced_all(rest, ":"@, "_"@);
        assert(r =~= seq![(if id[0] == ':' {
            '_'
        } else {
            id[0]
        })] + tail);
        assert forall|i: int| 0 <= i < id.len() implies #[trigger] r[i] == (if id[i] == ':' {
            '_'
        } else {
            id[i]
        }) by {
            if i > 0 {
                assert(r[i] == tail[i - 1]);
                assert(rest[i - 1] == id[i]);
            }
        }
    }
}

/// A name that was encoded is the mark and the Base64 text of the id; no other name is.
pub proof fn law_which_names_are_encoded(code: Seq<char>, stem: Seq<char>, id: Seq<char>)
    ensures
        encodes("base64_"@ + code, id) <==> code.len() > 0 && base64_bytes(code) == Some(
            encode_utf8(id),
        ),
        !"base64_"@.is_prefix_of(stem) ==> !encodes(stem, id),
{
    let whole = "base64_"@ + code;
    assert(whole.skip("base64_"@.len() as int) =~= code);
    assert("base64_"@ =~= whole.subrange(0, "base64_"@.len() as int));
}

/// A name without the mark, and the mark alone, is the id itself. Behind the mark the bytes are
/// read as a text, and what is not Base64 gives the empty id.
pub proof fn law_which_id_a_name_stands_for(code: Seq<char>, stem: Seq<char>)
    ensures
        !"base64_"@.is_prefix_of(stem) ==> id_of(stem) == stem,
        id_of("base64_"@) == "base64_"@,
        code.len() > 0 ==> (base64_bytes(code) matches Some(bytes) ==> id_of("base64_"@ + code)
            == lossy_text(bytes)),
        code.len() > 0 && base64_bytes(code) is None ==> id_of("base64_"@ + code).len() == 0,
{
    let whole = "base64_"@ + code;
    assert(whole.skip("base64_"@.len() as int) =~= code);
    assert("base64_"@ =~= whole.subrange(0, "base64_"@.len() as int));
}

/// A list of hosts has an entry for each file with the extension `toml` whose id is asked for, and
/// for no other: with its id and its time, each file once, and the latest time first.
pub proof fn law_list_of_hosts(
    files: Seq<PeerFile>,
    id_filters: Option<Vec<String>>,
    entries: Seq<PeerEntryView>,
)
    requires
        lists_files(files, id_filters, entries),
        crate::ranking::ranked::<PeerEntry>(entries),
    ensures
        forall|j: int|
            0 <= j < entries.len() ==> {
                let entry = #[trigger] entries[j];
                let file = files[entry.at as int];
                &&& entry.at < files.len()
                &&& file.is_file
                &&& file.extension is Some
                &&& file.extension->Some_0@ == "toml"@
                &&& entry.id == id_of(file.stem@)
                &&& entry.modified == file.modified
                &&& id_filters matches Some(ids) ==> exists|n: int|
                    0 <= n < ids@.len() && (#[trigger] ids@[n])@ == entry.id
            },
        forall|i: int|
            0 <= i < files.len() && (#[trigger] files[i]).is_file && files[i].extension is Some
                && files[i].extension->Some_0@ == "toml"@ && (id_filters matches Some(ids)
                ==> exists|n: int| 0 <= n < ids@.len() && (#[trigger] ids@[n])@ == id_of(
                files[i].stem@,
            )) ==> exists|j: int| 0 <= j < entries.len() && (#[trigger] entries[j]).at == i,
        forall|j: int, k: int|
            0 <= j < k < entries.len() ==> (#[trigger] entries[j]).at != (#[trigger] entries[k]).at
                && entries[j].modified >= entries[k].modified,
{
    assert forall|j: int, k: int| 0 <= j < k < entries.len() implies (#[trigger] entries[j]).at != (
    #[trigger] entries[k]).at && entries[j].modified >= entries[k].modified by {
        assert(!<PeerEntry as Ranked>::ahead(entries[k], entries[j]));
    }
    assert forall|i: int|
        0 <= i < files.len() && (#[trigger] files[i]).is_file && files[i].extension is Some
            && files[i].extension->Some_0@ == "toml"@ && (id_filters matches Some(ids)
            ==> exists|n: int| 0 <= n < ids@.len() && (#[trigger] ids@[n])@ == id_of(
            files[i].stem@,
        )) implies exists|j: int| 0 <= j < entries.len() && (#[trigger] entries[j]).at == i by {
        assert(asked_for(files[i], id_filters));
    }
}

/// What an entry stands for tells the id, the time and the file.
pub proof fn law_entry_tells_its_file(entry: PeerEntry)
    ensures
        entry@.id == entry.id@,
        entry@.modified == entry.modified,
        entry@.at == entry.at,
{
}

/// Without a given end a batch has a hundred hosts, or those that are left; with one it goes up to
/// that end, as far as the list goes. Past the end of the list, loading starts over with nothing.
pub proof fn law_what_a_batch_holds(total: usize, from: usize, to: usize)
    ensures
        from < total && total - from <= 100 ==> batch(total, from, None) == (from, total, total),
        from < total && total - from > 100 ==> batch(total, from, None) == (
            from,
            (from + 100) as usize,
            (from + 100) as usize,
        ),
        from < total && from < to <= total ==> batch(total, from, Some(to)) == (from, to, to),
        from < total < to ==> batch(total, from, Some(to)) == (from, total, total),
        to <= from < total ==> batch(total, from, Some(to)) == (from, from, from),
        from >= total ==> batch(total, from, None) == (0usize, 0usize, 0usize) && batch(
            total,
            from,
            Some(to),
        ) == (0usize, 0usize, 0usize),
{
}

/// The first files are always opened ahead, as long as there are some. Further ones are where the
/// last batch took ten milliseconds or more, up to a hundred at once from where the last batch
/// has ended.
pub proof fn law_what_is_opened_ahead(total: usize, done: usize, millis: u128)
    ensures
        done >= total ==> preload(total, done, millis) is None,
        0 < done < total && millis < 10 ==> preload(total, done, millis) is None,
        done < total && (done == 0 || millis >= 10) ==> (preload(total, done, millis) matches Some(
            range,
        ) && range.0 == done && done < range.1 <= total && range.1 - done <= 100 && (range.1 < total
            ==> range.1 - done == 100)),
{
}

} // verus!
