use vstd::prelude::*;
use crate::error::BridgeError;
use vstd::string::StringExecFns;
use crate::text::{chars_of, push_char};

verus! {

/// The schema version that a new collection list carries.
pub const VERSION: u32 = 20220424;

/// A collection as plain values: its name, and its beatmap hashes in order.
pub type CollectionView = (Option<Seq<char>>, Seq<Option<Seq<char>>>);

/// A collection list as plain values: its version, and its collections in order.
pub type CollectionListView = (u32, Seq<CollectionView>);

pub open spec fn opt_chars(o: Option<String>) -> Option<Seq<char>> {
    match o {
        Some(s) => Some(s@),
        None => None,
    }
}

pub open spec fn hashes_view(hs: Seq<Option<String>>) -> Seq<Option<Seq<char>>> {
    hs.map_values(|h: Option<String>| opt_chars(h))
}

pub open spec fn strings_view(v: Seq<String>) -> Seq<Seq<char>> {
    v.map_values(|p: String| p@)
}

/// Each piece as a present hash.
pub open spec fn present_hashes(pieces: Seq<Seq<char>>) -> Seq<Option<Seq<char>>> {
    pieces.map_values(|p: Seq<char>| Some(p))
}

/// A named group of beatmap hashes; absent names and hashes are allowed.
pub struct Collection {
    pub name: Option<String>,
    pub beatmap_hashes: Vec<Option<String>>,
}

impl View for Collection {
    type V = CollectionView;

    open spec fn view(&self) -> CollectionView {
        (opt_chars(self.name), hashes_view(self.beatmap_hashes@))
    }
}

/// The collections of a document, in order, with the document's version.
pub struct CollectionList {
    pub version: u32,
    pub collections: Vec<Collection>,
}

impl View for CollectionList {
    type V = CollectionListView;

    open spec fn view(&self) -> CollectionListView {
        (self.version, self.collections@.map_values(|c: Collection| c@))
    }
}

/// `b` is `a` but for the collection at `i`, which keeps its name.
pub open spec fn same_but_hashes_at(a: Seq<Collection>, b: Seq<Collection>, i: int) -> bool {
    &&& b.len() == a.len()
    &&& 0 <= i < a.len()
    &&& forall|j: int| 0 <= j < a.len() && j != i ==> b[j] == a[j]
    &&& b[i].name == a[i].name
}

/// Pieces of `s` between commas, empty ones left out: the pieces closed so far,
/// and the piece still open at the end.
pub open spec fn split_scan(s: Seq<char>) -> (Seq<Seq<char>>, Seq<char>)
    decreases s.len(),
{
    if s.len() == 0 {
        (Seq::empty(), Seq::empty())
    } else {
        let (done, open) = split_scan(s.drop_last());
        if s.last() == ',' {
            (if open.len() > 0 {
                done.push(open)
            } else {
                done
            }, Seq::empty())
        } else {
            (done, open.push(s.last()))
        }
    }
}

/// The non-empty pieces of `s` between commas, in order.
pub open spec fn split_hashes_spec(s: Seq<char>) -> Seq<Seq<char>> {
    let (done, open) = split_scan(s);
    if open.len() > 0 {
        done.push(open)
    } else {
        done
    }
}

/// The non-empty comma-separated pieces of `s`, in order.
pub fn split_hashes(s: &str) -> (r: Vec<String>)
    ensures
        strings_view(r@) == split_hashes_spec(s@),
{
    let chars = chars_of(s);
    let mut done: Vec<String> = Vec::new();
    let mut open = String::new();
    let mut open_empty = true;
    let mut i: usize = 0;
    while i < chars.len()
        invariant
            chars@ == s@,
            i <= chars@.len(),
            (strings_view(done@), open@) == split_scan(chars@.subrange(0, i as int)),
            open_empty == (open@.len() == 0),
        decreases chars@.len() - i,
    {
        let c = chars[i];
        let ghost prefix = chars@.subrange(0, i as int);
        assert(chars@.subrange(0, i + 1).drop_last() =~= prefix);
        if c == ',' {
            if !open_empty {
                let ghost before = done@;
                let ghost piece = open@;
                done.push(open);
                assert(strings_view(done@) =~= strings_view(before).push(
                    piece,
                ));
            }
            open = String::new();
            open_empty = true;
        } else {
            push_char(&mut open, c);
            open_empty = false;
        }
        i = i + 1;
    }
    assert(chars@.subrange(0, chars@.len() as int) =~= s@);
    if !open_empty {
        let ghost before = done@;
        done.push(open);
        assert(strings_view(done@) =~= strings_view(before).push(
            split_scan(s@).1,
        ));
    }
    done
}

/// The collection at `index` of `b` has hash view `hashes`; the rest of `b` is `a`.
pub open spec fn hashes_now(
    a: Seq<Collection>,
    b: Seq<Collection>,
    index: int,
    hashes: Seq<Option<Seq<char>>>,
) -> bool {
    &&& same_but_hashes_at(a, b, index)
    &&& hashes_view(b[index].beatmap_hashes@) == hashes
}

/// The outcome of an edit of one collection's hashes: where `valid`, `m` is `l` with
/// those hashes now `hashes`; else an `IndexOutOfRange` error and `m` is `l`.
pub open spec fn hash_edit_post(
    l: CollectionList,
    m: CollectionList,
    index: int,
    valid: bool,
    hashes: Seq<Option<Seq<char>>>,
    r: Result<(), BridgeError>,
) -> bool {
    &&& m.version == l.version
    &&& if valid {
        r is Ok && hashes_now(l.collections@, m.collections@, index, hashes)
    } else {
        r == Err::<(), BridgeError>(BridgeError::IndexOutOfRange) && m.collections@
            == l.collections@
    }
}

pub open spec fn collection_in_range(l: CollectionList, index: int) -> bool {
    0 <= index < l.collections@.len()
}

/// The hashes of the collection at `index`, as plain values.
pub open spec fn hashes_at(l: CollectionList, index: int) -> Seq<Option<Seq<char>>> {
    hashes_view(l.collections@[index].beatmap_hashes@)
}

pub open spec fn remove_collection_post(
    l: CollectionList,
    m: CollectionList,
    index: int,
    r: Result<(), BridgeError>,
) -> bool {
    &&& m.version == l.version
    &&& if collection_in_range(l, index) {
        r is Ok && m.collections@ == l.collections@.remove(index)
    } else {
        r == Err::<(), BridgeError>(BridgeError::IndexOutOfRange) && m.collections@
            == l.collections@
    }
}

pub open spec fn set_name_post(
    l: CollectionList,
    m: CollectionList,
    index: int,
    name: Seq<char>,
    r: Result<(), BridgeError>,
) -> bool {
    &&& m.version == l.version
    &&& if collection_in_range(l, index) {
        &&& r is Ok
        &&& m.collections@.len() == l.collections@.len()
        &&& forall|j: int|
            0 <= j < l.collections@.len() && j != index ==> m.collections@[j]
                == l.collections@[j]
        &&& opt_chars(m.collections@[index].name) == Some(name)
        &&& m.collections@[index].beatmap_hashes == l.collections@[index].beatmap_hashes
    } else {
        r == Err::<(), BridgeError>(BridgeError::IndexOutOfRange) && m.collections@
            == l.collections@
    }
}

pub open spec fn clear_hashes_post(
    l: CollectionList,
    m: CollectionList,
    index: int,
    r: Result<(), BridgeError>,
) -> bool {
    hash_edit_post(l, m, index, collection_in_range(l, index), Seq::empty(), r)
}

pub open spec fn append_hash_post(
    l: CollectionList,
    m: CollectionList,
    index: int,
    hash: Seq<char>,
    r: Result<(), BridgeError>,
) -> bool {
    hash_edit_post(
        l,
        m,
        index,
        collection_in_range(l, index),
        hashes_at(l, index).push(Some(hash)),
        r,
    )
}

pub open spec fn append_hashes_post(
    l: CollectionList,
    m: CollectionList,
    index: int,
    hashes: Seq<char>,
    r: Result<(), BridgeError>,
) -> bool {
    hash_edit_post(
        l,
        m,
        index,
        collection_in_range(l, index),
        hashes_at(l, index) + present_hashes(split_hashes_spec(hashes)),
        r,
    )
}

pub open spec fn insert_hash_post(
    l: CollectionList,
    m: CollectionList,
    index: int,
    hash_index: int,
    hash: Seq<char>,
    r: Result<(), BridgeError>,
) -> bool {
    hash_edit_post(
        l,
        m,
        index,
        collection_in_range(l, index) && 0 <= hash_index <= hashes_at(l, index).len(),
        hashes_at(l, index).insert(hash_index, Some(hash)),
        r,
    )
}

pub open spec fn set_hash_post(
    l: CollectionList,
    m: CollectionList,
    index: int,
    hash_index: int,
    hash: Seq<char>,
    r: Result<(), BridgeError>,
) -> bool {
    hash_edit_post(
        l,
        m,
        index,
        collection_in_range(l, index) && 0 <= hash_index < hashes_at(l, index).len(),
        hashes_at(l, index).update(hash_index, Some(hash)),
        r,
    )
}

pub open spec fn remove_hash_post(
    l: CollectionList,
    m: CollectionList,
    index: int,
    hash_index: int,
    r: Result<(), BridgeError>,
) -> bool {
    hash_edit_post(
        l,
        m,
        index,
        collection_in_range(l, index) && 0 <= hash_index < hashes_at(l, index).len(),
        hashes_at(l, index).remove(hash_index),
        r,
    )
}

/// `m` is `l` with one more collection at the end, named `name` and holding the
/// non-empty comma-separated pieces of `hashes`.
pub open spec fn add_collection_post(
    l: CollectionList,
    m: CollectionList,
    name: Seq<char>,
    hashes: Seq<char>,
    r: Result<(), BridgeError>,
) -> bool {
    &&& r is Ok
    &&& m.version == l.version
    &&& m.collections@.len() == l.collections@.len() + 1
    &&& forall|j: int| 0 <= j < l.collections@.len() ==> m.collections@[j] == l.collections@[j]
    &&& m.collections@.last()@ == (Some(name), present_hashes(split_hashes_spec(hashes)))
}

impl Collection {
    pub fn new(name: Option<String>) -> (r: Collection)
        ensures
            r.name == name,
            r.beatmap_hashes@.len() == 0,
    {
        Collection { name, beatmap_hashes: Vec::new() }
    }
}

impl CollectionList {
    /// An empty list of the given version.
    pub fn new(version: u32) -> (r: CollectionList)
        ensures
            r.version == version,
            r.collections@.len() == 0,
    {
        CollectionList { version, collections: Vec::new() }
    }

    pub fn len(&self) -> (r: usize)
        ensures
            r == self.collections@.len(),
    {
        self.collections.len()
    }

    pub fn push_collection(&mut self, c: Collection)
        ensures
            final(self).version == old(self).version,
            final(self).collections@ == old(self).collections@.push(c),
    {
        self.collections.push(c);
    }

    pub fn remove_collection(&mut self, index: usize) -> (r: Result<(), BridgeError>)
        ensures
            remove_collection_post(*old(self), *final(self), index as int, r),
    {
        if index >= self.collections.len() {
            return Err(BridgeError::IndexOutOfRange);
        }
        self.collections.remove(index);
        Ok(())
    }

    /// Appends a collection named `name` with the non-empty comma-separated pieces
    /// of `hashes` as its hashes.
    pub fn add_collection(&mut self, name: String, hashes: &str) -> (r: Result<(), BridgeError>)
        ensures
            add_collection_post(*old(self), *final(self), name@, hashes@, r),
    {
        let c = Collection::new(Some(name));
        self.push_collection(c);
        let ghost mid = *self;
        let last = self.collections.len() - 1;
        assert(hashes_at(mid, last as int) =~= Seq::empty());
        let r = self.append_hashes(last, hashes);
        assert(hashes_at(mid, last as int) + present_hashes(split_hashes_spec(hashes@))
            =~= present_hashes(split_hashes_spec(hashes@)));
        r
    }

    /// Moves the collection at `index` out, leaving an empty one in its place.
    fn take_collection(&mut self, index: usize) -> (c: Collection)
        requires
            index < old(self).collections@.len(),
        ensures
            final(self).version == old(self).version,
            c == old(self).collections@[index as int],
            final(self).collections@.len() == old(self).collections@.len(),
            forall|j: int|
                0 <= j < old(self).collections@.len() && j != index ==> final(self).collections@[j]
                    == old(self).collections@[j],
    {
        let mut c = Collection { name: None, beatmap_hashes: Vec::new() };
        self.collections.set_and_swap(index, &mut c);
        c
    }

    pub fn clear_hashes(&mut self, index: usize) -> (r: Result<(), BridgeError>)
        ensures
            clear_hashes_post(*old(self), *final(self), index as int, r),
    {
        if index >= self.collections.len() {
            return Err(BridgeError::IndexOutOfRange);
        }
        let mut c = self.take_collection(index);
        c.beatmap_hashes.clear();
        self.collections.set(index, c);
        assert(hashes_view(c.beatmap_hashes@) =~= Seq::empty());
        Ok(())
    }

    pub fn set_name(&mut self, index: usize, name: String) -> (r: Result<(), BridgeError>)
        ensures
            set_name_post(*old(self), *final(self), index as int, name@, r),
    {
        if index >= self.collections.len() {
            return Err(BridgeError::IndexOutOfRange);
        }
        let mut c = self.take_collection(index);
        c.name = Some(name);
        self.collections.set(index, c);
        Ok(())
    }

    pub fn append_hash(&mut self, index: usize, hash: String) -> (r: Result<(), BridgeError>)
        ensures
            append_hash_post(*old(self), *final(self), index as int, hash@, r),
    {
        if index >= self.collections.len() {
            return Err(BridgeError::IndexOutOfRange);
        }
        let mut c = self.take_collection(index);
        let ghost before = c.beatmap_hashes@;
        c.beatmap_hashes.push(Some(hash));
        assert(hashes_view(c.beatmap_hashes@) =~= hashes_view(before).push(Some(hash@)));
        self.collections.set(index, c);
        Ok(())
    }

    /// Appends each non-empty comma-separated piece of `hashes` to the collection
    /// at `index`, in order.
    pub fn append_hashes(&mut self, index: usize, hashes: &str) -> (r: Result<(), BridgeError>)
        ensures
            append_hashes_post(*old(self), *final(self), index as int, hashes@, r),
    {
        if index >= self.collections.len() {
            return Err(BridgeError::IndexOutOfRange);
        }
        let pieces = split_hashes(hashes);
        let ghost pieces_view = strings_view(pieces@);
        let mut c = self.take_collection(index);
        let ghost before = hashes_view(c.beatmap_hashes@);
        let ghost rest = *self;
        let mut i: usize = 0;
        while i < pieces.len()
            invariant
                *self == rest,
                c.name == old(self).collections@[index as int].name,
                i <= pieces@.len(),
                pieces_view == strings_view(pieces@),
                hashes_view(c.beatmap_hashes@) == before + present_hashes(
                    pieces_view.subrange(0, i as int),
                ),
            decreases pieces@.len() - i,
        {
            let piece = pieces[i].clone();
            let ghost mid = c.beatmap_hashes@;
            c.beatmap_hashes.push(Some(piece));
            assert(hashes_view(c.beatmap_hashes@) =~= hashes_view(mid).push(
                Some(pieces_view[i as int]),
            ));
            assert(present_hashes(pieces_view.subrange(0, i + 1)) =~= present_hashes(
                pieces_view.subrange(0, i as int),
            ).push(Some(pieces_view[i as int])));
            i = i + 1;
        }
        assert(pieces_view.subrange(0, pieces@.len() as int) =~= pieces_view);
        self.collections.set(index, c);
        Ok(())
    }

    pub fn insert_hash(&mut self, index: usize, hash_index: usize, hash: String) -> (r: Result<
        (),
        BridgeError,
    >)
        ensures
            insert_hash_post(*old(self), *final(self), index as int, hash_index as int, hash@, r),
    {
        if index >= self.collections.len() || hash_index
            > self.collections[index].beatmap_hashes.len() {
            return Err(BridgeError::IndexOutOfRange);
        }
        let mut c = self.take_collection(index);
        let ghost before = c.beatmap_hashes@;
        c.beatmap_hashes.insert(hash_index, Some(hash));
        assert(hashes_view(c.beatmap_hashes@) =~= hashes_view(before).insert(
            hash_index as int,
            Some(hash@),
        ));
        self.collections.set(index, c);
        Ok(())
    }

    pub fn set_hash(&mut self, index: usize, hash_index: usize, hash: String) -> (r: Result<
        (),
        BridgeError,
    >)
        ensures
            set_hash_post(*old(self), *final(self), index as int, hash_index as int, hash@, r),
    {
        if index >= self.collections.len() || hash_index
            >= self.collections[index].beatmap_hashes.len() {
            return Err(BridgeError::IndexOutOfRange);
        }
        let mut c = self.take_collection(index);
        let ghost before = c.beatmap_hashes@;
        c.beatmap_hashes.set(hash_index, Some(hash));
        assert(hashes_view(c.beatmap_hashes@) =~= hashes_view(before).update(
            hash_index as int,
            Some(hash@),
        ));
        self.collections.set(index, c);
        Ok(())
    }

    pub fn remove_hash(&mut self, index: usize, hash_index: usize) -> (r: Result<(), BridgeError>)
        ensures
            remove_hash_post(*old(self), *final(self), index as int, hash_index as int, r),
    {
        if index >= self.collections.len() || hash_index
            >= self.collections[index].beatmap_hashes.len() {
            return Err(BridgeError::IndexOutOfRange);
        }
        let mut c = self.take_collection(index);
        let ghost before = c.beatmap_hashes@;
        c.beatmap_hashes.remove(hash_index);
        assert(hashes_view(c.beatmap_hashes@) =~= hashes_view(before).remove(hash_index as int));
        self.collections.set(index, c);
        Ok(())
    }
}

/// The text of an optional string; nothing where it is absent.
pub open spec fn opt_text(o: Option<String>) -> Seq<char> {
    match o {
        Some(s) => s@,
        None => Seq::empty(),
    }
}

/// Each hash followed by a comma.
pub open spec fn hashes_summary(hs: Seq<Option<String>>) -> Seq<char>
    decreases hs.len(),
{
    if hs.len() == 0 {
        Seq::empty()
    } else {
        hashes_summary(hs.drop_last()) + opt_text(hs.last()) + seq![',']
    }
}

/// The name, a `#`, the hashes each followed by a comma, then a `|`.
pub open spec fn collection_summary(c: Collection) -> Seq<char> {
    opt_text(c.name) + seq!['#'] + hashes_summary(c.beatmap_hashes@) + seq!['|']
}

/// The summaries of the collections, one after the other.
pub open spec fn list_summary(cs: Seq<Collection>) -> Seq<char>
    decreases cs.len(),
{
    if cs.len() == 0 {
        Seq::empty()
    } else {
        list_summary(cs.drop_last()) + collection_summary(cs.last())
    }
}

fn push_opt(out: &mut String, o: &Option<String>)
    ensures
        final(out)@ == old(out)@ + opt_text(*o),
{
    match o {
        Some(s) => out.append(s.as_str()),
        None => {
            assert(old(out)@ + opt_text(*o) =~= old(out)@);
        },
    }
}

impl CollectionList {
    /// The text that hands the whole list to the host in one string.
    pub fn summary(&self) -> (r: String)
        ensures
            r@ == list_summary(self.collections@),
    {
        let mut out = String::new();
        let mut i: usize = 0;
        while i < self.collections.len()
            invariant
                i <= self.collections@.len(),
                out@ == list_summary(self.collections@.subrange(0, i as int)),
            decreases self.collections@.len() - i,
        {
            let c = &self.collections[i];
            let ghost start = out@;
            push_opt(&mut out, &c.name);
            push_char(&mut out, '#');
            let mut j: usize = 0;
            while j < c.beatmap_hashes.len()
                invariant
                    j <= c.beatmap_hashes@.len(),
                    out@ == start + opt_text(c.name) + seq!['#'] + hashes_summary(
                        c.beatmap_hashes@.subrange(0, j as int),
                    ),
                decreases c.beatmap_hashes@.len() - j,
            {
                push_opt(&mut out, &c.beatmap_hashes[j]);
                push_char(&mut out, ',');
                assert(c.beatmap_hashes@.subrange(0, j + 1).drop_last() =~= c.beatmap_hashes@.subrange(
                    0,
                    j as int,
                ));
                assert(out@ =~= start + opt_text(c.name) + seq!['#'] + hashes_summary(
                    c.beatmap_hashes@.subrange(0, j + 1),
                ));
                j = j + 1;
            }
            push_char(&mut out, '|');
            assert(c.beatmap_hashes@.subrange(0, c.beatmap_hashes@.len() as int) =~= c.beatmap_hashes@);
            assert(self.collections@.subrange(0, i + 1).drop_last() =~= self.collections@.subrange(
                0,
                i as int,
            ));
            assert(out@ =~= list_summary(self.collections@.subrange(0, i + 1)));
            i = i + 1;
        }
        assert(self.collections@.subrange(0, self.collections@.len() as int) =~= self.collections@);
        out
    }
}

} // verus!
