use vstd::prelude::*;
use crate::collection::{
    add_collection_post, append_hash_post, append_hashes_post, clear_hashes_post, insert_hash_post,
    remove_collection_post, remove_hash_post, set_hash_post, set_name_post, CollectionList,
    VERSION,
};
use crate::engine::{
    evaluable, gradual_over, steps_ahead, attributes_result, ends_piece, evaluated, is_ascii_letter, max_combo_in, mode_of_beatmap,
    no_trailing_letter_piece, performance_over, performance_with_combo, performance_with_mods,
    performance_with_state, with_mods, beatmap_mode, beatmap_parses, counts_fit, decoded_collection_list, difficulty_mods,
    encoded_collection_list, length_prefixes_short, max_combo_of, parse_beatmap,
    performance_calculate, performance_combo, performance_mods, performance_new,
    performance_result, performance_state, read_collection_list, set_beatmap_mode,
    write_collection_list,
};
use crate::error::BridgeError;
use crate::model::{GameMode, JniScore, ScoreState, ScoreTarget};
use crate::performance::{
    calculate_to_bytes, performance_to_bytes, spec_session_wire, PerformanceResult,
};
use crate::registry::{HandleRegistry, SLOT_LIMIT};
use crate::session::GradualSession;
use crate::wire::{MAP_ATTR_LEN, SCORE_LEN};

verus! {

/// A collection list held for the host.
pub struct JniCollectionList {
    pub data: CollectionList,
}

/// Everything a handle can refer to. A handle keeps the kind it was created with:
/// used as another kind it is invalid.
pub enum NativeValue {
    Gradual(GradualSession),
    Collections(JniCollectionList),
}

/// The registry behind every handle given to the host.
pub type Handles = HandleRegistry<NativeValue>;

/// The collection list that `h` refers to, if it refers to one.
pub open spec fn list_at(reg: &Handles, h: i64) -> Option<CollectionList> {
    if reg@.contains_key(h) {
        match reg@[h] {
            NativeValue::Collections(l) => Some(l.data),
            _ => None,
        }
    } else {
        None
    }
}

/// The gradual session that `h` refers to, if it refers to one.
pub open spec fn session_at(reg: &Handles, h: i64) -> Option<GradualSession> {
    if reg@.contains_key(h) {
        match reg@[h] {
            NativeValue::Gradual(s) => Some(s),
            _ => None,
        }
    } else {
        None
    }
}

/// `b` is `a` but for what `h` refers to; the same handles are live and released.
pub open spec fn others_kept(a: &Handles, b: &Handles, h: i64) -> bool {
    &&& b.wf()
    &&& b.spec_len() == a.spec_len()
    &&& b@.dom() == a@.dom()
    &&& forall|g: i64| g != h && a@.contains_key(g) ==> b@[g] == a@[g]
    &&& forall|g: i64| b.is_released(g) == a.is_released(g)
}

/// Takes the list behind `ptr` out for an edit.
fn take_list(reg: &mut Handles, ptr: i64) -> (r: Result<JniCollectionList, BridgeError>)
    requires
        old(reg).wf(),
    ensures
        final(reg).wf(),
        final(reg).spec_len() == old(reg).spec_len(),
        forall|g: i64| final(reg).is_released(g) == old(reg).is_released(g),
        r matches Ok(l) ==> list_at(old(reg), ptr) == Some(l.data) && final(reg).is_lent(ptr)
            && final(reg)@ == old(reg)@.remove(ptr),
        r is Err ==> r == Err::<JniCollectionList, BridgeError>(BridgeError::InvalidHandle)
            && list_at(old(reg), ptr) is None && final(reg)@ == old(reg)@,
{
    match reg.take(ptr) {
        Ok(NativeValue::Collections(l)) => Ok(l),
        Ok(other) => {
            reg.restore(ptr, other);
            assert(reg@ =~= old(reg)@);
            Err(BridgeError::InvalidHandle)
        },
        Err(e) => Err(e),
    }
}

/// Puts an edited list back under `ptr`.
fn put_list(reg: &mut Handles, ptr: i64, l: JniCollectionList)
    requires
        old(reg).wf(),
        old(reg).is_lent(ptr),
    ensures
        final(reg).wf(),
        final(reg).spec_len() == old(reg).spec_len(),
        forall|g: i64| final(reg).is_released(g) == old(reg).is_released(g),
        final(reg)@ == old(reg)@.insert(ptr, NativeValue::Collections(l)),
        list_at(final(reg), ptr) == Some(l.data),
{
    reg.restore(ptr, NativeValue::Collections(l));
}

/// An `i32` index as a position, or `None` where it is negative.
fn position(index: i32) -> (r: Option<usize>)
    ensures
        index >= 0 ==> r == Some(index as usize),
        index < 0 ==> r is None,
{
    if index < 0 {
        None
    } else {
        Some(index as usize)
    }
}

/// The outcome of an edit through a handle: an invalid handle changes nothing;
/// otherwise the list behind it becomes `m`, related to the old one by `post`.
pub open spec fn edited(a: &Handles, b: &Handles, ptr: i64, r: Result<(), BridgeError>, post: spec_fn(
    CollectionList,
    CollectionList,
) -> bool) -> bool {
    match list_at(a, ptr) {
        None => r == Err::<(), BridgeError>(BridgeError::InvalidHandle) && b@ == a@,
        Some(l) => match list_at(b, ptr) {
            Some(m) => post(l, m),
            None => false,
        },
    }
}

impl JniCollectionList {
    /// A new, empty collection list of the current schema version.
    pub fn new() -> (r: JniCollectionList)
        ensures
            r.data.version == VERSION,
            r.data.collections@.len() == 0,
    {
        JniCollectionList { data: CollectionList::new(VERSION) }
    }

    /// A new, empty collection list of the given schema version.
    pub fn with_version(version: u32) -> (r: JniCollectionList)
        ensures
            r.data.version == version,
            r.data.collections@.len() == 0,
    {
        JniCollectionList { data: CollectionList::new(version) }
    }

    /// Reads a persisted collection list.
    pub fn from_bytes(bytes: &[u8]) -> (r: Result<JniCollectionList, BridgeError>)
        ensures
            r matches Ok(l) ==> decoded_collection_list(bytes@) == Some(l.data@) && counts_fit(l.data@),
            r is Err ==> r == Err::<JniCollectionList, BridgeError>(BridgeError::DecodeError),
            length_prefixes_short(bytes@) && decoded_collection_list(bytes@) is Some ==> r is Ok,
    {
        if !check_length_prefixes(bytes) {
            return Err(BridgeError::DecodeError);
        }
        match read_collection_list(bytes) {
            Ok(data) => Ok(JniCollectionList { data }),
            Err(_) => Err(BridgeError::DecodeError),
        }
    }

    /// Releases the list behind `ptr` and hands it back.
    pub fn release(reg: &mut Handles, ptr: i64) -> (r: Result<JniCollectionList, BridgeError>)
        requires
            old(reg).wf(),
        ensures
            final(reg).wf(),
            list_at(old(reg), ptr) is None ==> r == Err::<JniCollectionList, BridgeError>(
                BridgeError::InvalidHandle,
            ) && *final(reg) == *old(reg),
            list_at(old(reg), ptr) matches Some(l) ==> r matches Ok(v) && v.data == l
                && final(reg)@ == old(reg)@.remove(ptr) && final(reg).is_released(ptr),
    {
        match reg.get(ptr) {
            Ok(NativeValue::Collections(_)) => {},
            _ => return Err(BridgeError::InvalidHandle),
        }
        match reg.release(ptr) {
            Ok(NativeValue::Collections(l)) => Ok(l),
            _ => Err(BridgeError::InvalidHandle),
        }
    }
}

/// Whether `length_prefixes_short` holds of `b`.
pub fn check_length_prefixes(b: &[u8]) -> (r: bool)
    ensures
        r == length_prefixes_short(b@),
{
    let n = b.len();
    let mut i: usize = 0;
    while i < n
        invariant
            n == b@.len(),
            i <= n,
            forall|j: int|
                0 <= j < i && j + 10 < b@.len() && b@[j] == 0x0b ==> exists|k: int|
                    1 <= k <= 10 && #[trigger] b@[j + k] < 0x80,
        decreases n - i,
    {
        if b[i] == 0x0b && 10 < n - i {
            let mut k: usize = 1;
            let mut found = false;
            while k <= 10 && !found
                invariant
                    1 <= k <= 11,
                    i + 10 < n,
                    n == b@.len(),
                    found ==> b@[i + k - 1] < 0x80 && k - 1 >= 1,
                    !found ==> forall|m: int| 1 <= m < k ==> #[trigger] b@[i + m] >= 0x80,
                decreases 11 - k + if found { 0int } else { 1int },
            {
                if b[i + k] < 0x80 {
                    found = true;
                }
                k = k + 1;
            }
            if !found {
                assert(!length_prefixes_short(b@)) by {
                    assert forall|m: int| 1 <= m <= 10 implies !(#[trigger] b@[i as int + m] < 0x80) by {
                        assert(b@[i + m] >= 0x80);
                    }
                }
                return false;
            }
            assert(b@[i + (k - 1) as int] < 0x80);
        }
        i = i + 1;
    }
    true
}

/// The persisted bytes of the list behind `ptr`.
pub fn write_collection(reg: &Handles, ptr: i64) -> (r: Result<Vec<u8>, BridgeError>)
    requires
        reg.wf(),
    ensures
        list_at(reg, ptr) is None ==> r == Err::<Vec<u8>, BridgeError>(BridgeError::InvalidHandle),
        list_at(reg, ptr) matches Some(l) ==> r matches Ok(b) && b@ == encoded_collection_list(l@)
            && (counts_fit(l@) ==> decoded_collection_list(b@) == Some(l@)),
{
    match reg.get(ptr) {
        Ok(NativeValue::Collections(l)) => match write_collection_list(&l.data) {
            Ok(b) => Ok(b),
            Err(_) => Err(BridgeError::InternalError),
        },
        _ => Err(BridgeError::InvalidHandle),
    }
}

/// What a new collection list hands the host: its handle, its version and its
/// contents in one string (see `CollectionList::summary`).
pub struct CollectionListInit {
    pub handle: i64,
    pub version: i32,
    pub summary: String,
}

/// Registers a collection list and describes it for the host.
pub fn init_jni_collection_list(reg: &mut Handles, list: JniCollectionList) -> (r: Result<
    CollectionListInit,
    BridgeError,
>)
    requires
        old(reg).wf(),
    ensures
        final(reg).wf(),
        r matches Ok(init) ==> {
            &&& !old(reg)@.contains_key(init.handle)
            &&& !old(reg).is_released(init.handle)
            &&& final(reg)@ == old(reg)@.insert(init.handle, NativeValue::Collections(list))
            &&& init.version == list.data.version as i32
            &&& init.summary@ == crate::collection::list_summary(list.data.collections@)
        },
        r is Err ==> r == Err::<CollectionListInit, BridgeError>(BridgeError::InternalError)
            && *final(reg) == *old(reg),
        old(reg).spec_len() < SLOT_LIMIT ==> r is Ok,
{
    if reg.slot_count() >= SLOT_LIMIT {
        return Err(BridgeError::InternalError);
    }
    let summary = list.data.summary();
    let version = list.data.version as i32;
    let handle = reg.allocate(NativeValue::Collections(list));
    Ok(CollectionListInit { handle, version, summary })
}

/// Removes the collection at `index` of the list behind `ptr`.
pub fn remove_collection(reg: &mut Handles, ptr: i64, index: i32) -> (r: Result<(), BridgeError>)
    requires
        old(reg).wf(),
    ensures
        others_kept(old(reg), final(reg), ptr),
        edited(old(reg), final(reg), ptr, r, |l: CollectionList, m: CollectionList| remove_collection_post(l, m, index as int, r)),
{
    let mut list = match take_list(reg, ptr) {
        Ok(l) => l,
        Err(e) => return Err(e),
    };
    let r = match position(index) {
        Some(i) => list.data.remove_collection(i),
        None => Err(BridgeError::IndexOutOfRange),
    };
    put_list(reg, ptr, list);
    r
}

/// Empties the hashes of the collection at `index`.
pub fn clear_collection(reg: &mut Handles, ptr: i64, index: i32) -> (r: Result<(), BridgeError>)
    requires
        old(reg).wf(),
    ensures
        others_kept(old(reg), final(reg), ptr),
        edited(old(reg), final(reg), ptr, r, |l: CollectionList, m: CollectionList| clear_hashes_post(l, m, index as int, r)),
{
    let mut list = match take_list(reg, ptr) {
        Ok(l) => l,
        Err(e) => return Err(e),
    };
    let r = match position(index) {
        Some(i) => list.data.clear_hashes(i),
        None => Err(BridgeError::IndexOutOfRange),
    };
    put_list(reg, ptr, list);
    r
}

/// Renames the collection at `index`.
pub fn set_collection_name(reg: &mut Handles, ptr: i64, index: i32, name: String) -> (r: Result<(), BridgeError>)
    requires
        old(reg).wf(),
    ensures
        others_kept(old(reg), final(reg), ptr),
        edited(old(reg), final(reg), ptr, r, |l: CollectionList, m: CollectionList| set_name_post(l, m, index as int, name@, r)),
{
    let mut list = match take_list(reg, ptr) {
        Ok(l) => l,
        Err(e) => return Err(e),
    };
    let r = match position(index) {
        Some(i) => list.data.set_name(i, name),
        None => Err(BridgeError::IndexOutOfRange),
    };
    put_list(reg, ptr, list);
    r
}

/// Appends one hash to the collection at `index`.
pub fn append_collection_hash(reg: &mut Handles, ptr: i64, index: i32, hash: String) -> (r: Result<(), BridgeError>)
    requires
        old(reg).wf(),
    ensures
        others_kept(old(reg), final(reg), ptr),
        edited(old(reg), final(reg), ptr, r, |l: CollectionList, m: CollectionList| append_hash_post(l, m, index as int, hash@, r)),
{
    let mut list = match take_list(reg, ptr) {
        Ok(l) => l,
        Err(e) => return Err(e),
    };
    let r = match position(index) {
        Some(i) => list.data.append_hash(i, hash),
        None => Err(BridgeError::IndexOutOfRange),
    };
    put_list(reg, ptr, list);
    r
}

/// Appends each non-empty comma-separated piece of `hashes` to the collection
/// at `index`.
pub fn add_all_collection_hash(reg: &mut Handles, ptr: i64, index: i32, hashes: &str) -> (r: Result<(), BridgeError>)
    requires
        old(reg).wf(),
    ensures
        others_kept(old(reg), final(reg), ptr),
        edited(old(reg), final(reg), ptr, r, |l: CollectionList, m: CollectionList| append_hashes_post(l, m, index as int, hashes@, r)),
{
    let mut list = match take_list(reg, ptr) {
        Ok(l) => l,
        Err(e) => return Err(e),
    };
    let r = match position(index) {
        Some(i) => list.data.append_hashes(i, hashes),
        None => Err(BridgeError::IndexOutOfRange),
    };
    put_list(reg, ptr, list);
    r
}

/// Inserts a hash at `hash_index` of the collection at `index`.
pub fn insert_collection_hash(reg: &mut Handles, ptr: i64, index: i32, hash_index: i32, hash: String) -> (r: Result<(), BridgeError>)
    requires
        old(reg).wf(),
    ensures
        others_kept(old(reg), final(reg), ptr),
        edited(old(reg), final(reg), ptr, r, |l: CollectionList, m: CollectionList| insert_hash_post(l, m, index as int, hash_index as int, hash@, r)),
{
    let mut list = match take_list(reg, ptr) {
        Ok(l) => l,
        Err(e) => return Err(e),
    };
    let r = match (position(index), position(hash_index)) {
        (Some(i), Some(j)) => list.data.insert_hash(i, j, hash),
        _ => Err(BridgeError::IndexOutOfRange),
    };
    put_list(reg, ptr, list);
    r
}

/// Replaces the hash at `hash_index` of the collection at `index`.
pub fn set_collection_hash(reg: &mut Handles, ptr: i64, index: i32, hash_index: i32, hash: String) -> (r: Result<(), BridgeError>)
    requires
        old(reg).wf(),
    ensures
        others_kept(old(reg), final(reg), ptr),
        edited(old(reg), final(reg), ptr, r, |l: CollectionList, m: CollectionList| set_hash_post(l, m, index as int, hash_index as int, hash@, r)),
{
    let mut list = match take_list(reg, ptr) {
        Ok(l) => l,
        Err(e) => return Err(e),
    };
    let r = match (position(index), position(hash_index)) {
        (Some(i), Some(j)) => list.data.set_hash(i, j, hash),
        _ => Err(BridgeError::IndexOutOfRange),
    };
    put_list(reg, ptr, list);
    r
}

/// Removes the hash at `hash_index` of the collection at `index`.
pub fn remove_collection_hash(reg: &mut Handles, ptr: i64, index: i32, hash_index: i32) -> (r: Result<(), BridgeError>)
    requires
        old(reg).wf(),
    ensures
        others_kept(old(reg), final(reg), ptr),
        edited(old(reg), final(reg), ptr, r, |l: CollectionList, m: CollectionList| remove_hash_post(l, m, index as int, hash_index as int, r)),
{
    let mut list = match take_list(reg, ptr) {
        Ok(l) => l,
        Err(e) => return Err(e),
    };
    let r = match (position(index), position(hash_index)) {
        (Some(i), Some(j)) => list.data.remove_hash(i, j),
        _ => Err(BridgeError::IndexOutOfRange),
    };
    put_list(reg, ptr, list);
    r
}

/// Adds a collection named `name` holding the non-empty comma-separated pieces of
/// `hashes` at the end of the list behind `ptr`.
pub fn add_collection(reg: &mut Handles, ptr: i64, name: String, hashes: &str) -> (r: Result<
    (),
    BridgeError,
>)
    requires
        old(reg).wf(),
    ensures
        others_kept(old(reg), final(reg), ptr),
        edited(
            old(reg),
            final(reg),
            ptr,
            r,
            |l: CollectionList, m: CollectionList| add_collection_post(l, m, name@, hashes@, r),
        ),
{
    let mut list = match take_list(reg, ptr) {
        Ok(l) => l,
        Err(e) => return Err(e),
    };
    let r = list.data.add_collection(name, hashes);
    put_list(reg, ptr, list);
    r
}

/// Stores `value` and returns its handle.
pub fn to_ptr(reg: &mut Handles, value: NativeValue) -> (h: i64)
    requires
        old(reg).wf(),
        old(reg).spec_len() < SLOT_LIMIT,
    ensures
        final(reg).wf(),
        h > 0,
        !old(reg)@.contains_key(h),
        !old(reg).is_released(h),
        final(reg)@ == old(reg)@.insert(h, value),
{
    reg.allocate(value)
}

/// The value behind `p`, checked.
pub fn to_status_use(reg: &Handles, p: i64) -> (r: Result<&NativeValue, BridgeError>)
    requires
        reg.wf(),
    ensures
        reg@.contains_key(p) ==> r == Ok::<&NativeValue, BridgeError>(&reg@[p]),
        !reg@.contains_key(p) ==> r == Err::<&NativeValue, BridgeError>(BridgeError::InvalidHandle),
{
    reg.get(p)
}

/// Whether `no_trailing_letter_piece` holds of `b`.
pub fn check_path_pieces(b: &[u8]) -> (r: bool)
    ensures
        r == no_trailing_letter_piece(b@),
{
    let n = b.len();
    let mut i: usize = 0;
    while i < n
        invariant
            n == b@.len(),
            i <= n,
            forall|p: int|
                0 <= p < i && p + 1 < b@.len() && b@[p] == 0x7c && is_ascii_letter(
                    #[trigger] b@[p + 1],
                ) ==> exists|j: int|
                    p + 1 < j < b@.len() && b@[j] == 0x7c && forall|k: int|
                        p + 1 < k < j ==> !ends_piece(#[trigger] b@[k]),
        decreases n - i,
    {
        if b[i] == 0x7c && 1 < n - i && ((0x41 <= b[i + 1] && b[i + 1] <= 0x5a) || (0x61 <= b[i
            + 1] && b[i + 1] <= 0x7a)) {
            let mut j: usize = i + 2;
            while j < n && !(b[j] == 0x7c || b[j] == 0x2c || b[j] == 0x0a || b[j] == 0x0d)
                invariant
                    n == b@.len(),
                    i + 2 <= j <= n,
                    forall|k: int| i + 1 < k < j ==> !ends_piece(#[trigger] b@[k]),
                decreases n - j,
            {
                j = j + 1;
            }
            if j >= n || b[j] != 0x7c {
                assert(!no_trailing_letter_piece(b@)) by {
                    assert(b@[i as int] == 0x7c && is_ascii_letter(b@[i + 1]));
                    assert forall|jj: int|
                        i + 1 < jj < b@.len() && b@[jj] == 0x7c implies !(forall|k: int|
                        i + 1 < k < jj ==> !ends_piece(#[trigger] b@[k])) by {
                        assert(jj >= j);
                        assert(jj > j ==> ends_piece(b@[j as int]));
                    }
                }
                return false;
            }
            assert(forall|k: int| i + 1 < k < j ==> !ends_piece(#[trigger] b@[k]));
        }
        i = i + 1;
    }
    true
}

/// Reads a beatmap, in the given mode where one is given. Bytes with a slider path
/// that ends in a lone letter are refused before rosu_pp reads them.
pub fn load_map(bytes: &[u8], mode: Option<GameMode>) -> (r: Result<rosu_pp::Beatmap, BridgeError>)
    ensures
        r is Ok <==> no_trailing_letter_piece(bytes@) && beatmap_parses(bytes@),
        r is Err ==> r == Err::<rosu_pp::Beatmap, BridgeError>(BridgeError::DecodeError),
        r matches Ok(map) ==> mode matches Some(m) ==> mode_of_beatmap(map) == m,
{
    if !check_path_pieces(bytes) {
        return Err(BridgeError::DecodeError);
    }
    match parse_beatmap(bytes) {
        Ok(mut map) => {
            match mode {
                Some(m) => set_beatmap_mode(&mut map, m),
                None => {},
            }
            Ok(map)
        },
        Err(_) => Err(BridgeError::DecodeError),
    }
}

/// A difficulty calculator for the given mods.
pub fn base_difficulty(mods: u32) -> (r: rosu_pp::Difficulty)
    ensures
        exists|d: rosu_pp::Difficulty| r == with_mods(d, mods),
{
    difficulty_mods(rosu_pp::Difficulty::new(), mods)
}

/// Opens a gradual session over `map` and answers with the mode played, the mods
/// and the session's handle.
pub fn get_calculate(
    reg: &mut Handles,
    map: &rosu_pp::Beatmap,
    difficulty: rosu_pp::Difficulty,
    mods: u32,
) -> (r: Result<Vec<u8>, BridgeError>)
    requires
        old(reg).wf(),
    ensures
        final(reg).wf(),
        r matches Ok(b) ==> exists|h: i64|
            {
                &&& b@ == spec_session_wire(h, mode_of_beatmap(*map), mods)
                &&& !old(reg)@.contains_key(h)
                &&& !old(reg).is_released(h)
                &&& final(reg)@.dom() == old(reg)@.dom().insert(h)
                &&& forall|g: i64| g != h && old(reg)@.contains_key(g) ==> final(reg)@[g] == old(reg)@[g]
                &&& session_at(final(reg), h) matches Some(s) && s.steps_left() == steps_ahead(
                    gradual_over(difficulty, *map),
                )
            },
        r is Err ==> r == Err::<Vec<u8>, BridgeError>(BridgeError::InternalError) && *final(reg)
            == *old(reg),
        old(reg).spec_len() < SLOT_LIMIT ==> r is Ok,
{
    if reg.slot_count() >= SLOT_LIMIT {
        return Err(BridgeError::InternalError);
    }
    let mode = beatmap_mode(map);
    let gradual = difficulty.gradual_performance(map);
    let h = reg.allocate(NativeValue::Gradual(GradualSession::new(gradual)));
    let mut out: Vec<u8> = Vec::new();
    calculate_to_bytes(h, mode, mods, &mut out);
    Ok(out)
}

/// One step of the gradual session behind `ptr`, for the request in `score`; the
/// answer is the performance so far.
pub fn calculate_pp(reg: &mut Handles, ptr: i64, score: &[u8]) -> (r: Result<Vec<u8>, BridgeError>)
    requires
        old(reg).wf(),
    ensures
        others_kept(old(reg), final(reg), ptr),
        session_at(old(reg), ptr) is None ==> r == Err::<Vec<u8>, BridgeError>(
            BridgeError::InvalidHandle,
        ) && final(reg)@ == old(reg)@,
        session_at(old(reg), ptr) matches Some(s) ==> session_at(final(reg), ptr) matches Some(t)
            && {
            &&& score@.len() < MAP_ATTR_LEN ==> r == Err::<Vec<u8>, BridgeError>(
                BridgeError::TruncatedInput,
            ) && t.steps_left() == s.steps_left()
            &&& MAP_ATTR_LEN <= score@.len() < SCORE_LEN ==> r == Err::<Vec<u8>, BridgeError>(
                BridgeError::MissingScoreState,
            ) && t.steps_left() == s.steps_left()
            &&& score@.len() >= SCORE_LEN && !ScoreState::spec_decode(
                score@,
                MAP_ATTR_LEN as int,
            ).spec_counts_bounded() ==> r == Err::<Vec<u8>, BridgeError>(BridgeError::InternalError)
                && t.steps_left() == s.steps_left()
            &&& score@.len() >= SCORE_LEN && ScoreState::spec_decode(
                score@,
                MAP_ATTR_LEN as int,
            ).spec_counts_bounded() && s.steps_left() == 0 ==> r == Err::<Vec<u8>, BridgeError>(
                BridgeError::Exhausted,
            ) && t.steps_left() == 0
            &&& score@.len() >= SCORE_LEN && ScoreState::spec_decode(
                score@,
                MAP_ATTR_LEN as int,
            ).spec_counts_bounded() && s.steps_left() > 0 ==> (r matches Ok(b) && b@
                == s.next_result(ScoreState::spec_decode(score@, MAP_ATTR_LEN as int)).spec_wire()
                && t.steps_left() == s.steps_left() - 1)
        },
{
    let session = match reg.take(ptr) {
        Ok(NativeValue::Gradual(s)) => s,
        Ok(other) => {
            reg.restore(ptr, other);
            assert(reg@ =~= old(reg)@);
            return Err(BridgeError::InvalidHandle);
        },
        Err(e) => return Err(e),
    };
    let (session, r) = match JniScore::decode(score) {
        Ok(request) => match session.advance(request.score) {
            (session, Ok(p)) => (session, Ok(performance_to_bytes(&p))),
            (session, Err(e)) => (session, Err(e)),
        },
        Err(e) => (session, Err(e)),
    };
    reg.restore(ptr, NativeValue::Gradual(session));
    r
}

/// Releases the gradual session behind `ptr`.
pub fn release_calculate(reg: &mut Handles, ptr: i64) -> (r: Result<(), BridgeError>)
    requires
        old(reg).wf(),
    ensures
        final(reg).wf(),
        session_at(old(reg), ptr) is None ==> r == Err::<(), BridgeError>(
            BridgeError::InvalidHandle,
        ) && *final(reg) == *old(reg),
        session_at(old(reg), ptr) is Some ==> r is Ok && final(reg)@ == old(reg)@.remove(ptr)
            && final(reg).is_released(ptr),
{
    match reg.get(ptr) {
        Ok(NativeValue::Gradual(_)) => {},
        _ => return Err(BridgeError::InvalidHandle),
    }
    match reg.release(ptr) {
        Ok(_) => Ok(()),
        Err(e) => Err(e),
    }
}

impl JniScore {
    /// The calculator that `performance` builds over `attr`.
    pub open spec fn spec_performance(self, attr: rosu_pp::any::DifficultyAttributes) -> rosu_pp::Performance<'static> {
        let p = performance_with_mods(performance_over(attr), self.attr.mods);
        match self.spec_target(max_combo_in(attr)) {
            ScoreTarget::State(s) => performance_with_state(p, s),
            ScoreTarget::FullCombo(c) => performance_with_combo(p, c),
        }
    }

    /// Whether rosu_pp can evaluate what this request asks for: a score state it
    /// hands over has bounded counts.
    pub open spec fn spec_evaluable(self, map_max_combo: u32) -> bool {
        match self.spec_target(map_max_combo) {
            ScoreTarget::State(s) => s.spec_counts_bounded(),
            ScoreTarget::FullCombo(_) => true,
        }
    }

    /// A performance calculator over `attr`, set to this request's mods and to what
    /// it asks to evaluate (see `target`), ready to evaluate. The accuracy is left
    /// for the caller to set. A score state whose counts rosu_pp cannot add up
    /// safely is refused as an internal error.
    pub fn performance(&self, attr: rosu_pp::any::DifficultyAttributes) -> (r: Result<
        rosu_pp::Performance<'static>,
        BridgeError,
    >)
        ensures
            self.spec_evaluable(max_combo_in(attr)) ==> (r matches Ok(p) && p
                == self.spec_performance(attr) && evaluable(p)),
            !self.spec_evaluable(max_combo_in(attr)) ==> r == Err::<
                rosu_pp::Performance<'static>,
                BridgeError,
            >(BridgeError::InternalError),
    {
        let max_combo = max_combo_of(&attr);
        match self.target(max_combo) {
            ScoreTarget::State(s) => {
                if !s.counts_bounded() {
                    return Err(BridgeError::InternalError);
                }
                let p = performance_mods(performance_new(attr), self.attr.mods);
                Ok(performance_state(p, &s))
            },
            ScoreTarget::FullCombo(c) => {
                let p = performance_mods(performance_new(attr), self.attr.mods);
                Ok(performance_combo(p, c))
            },
        }
    }
}

/// Evaluates a configured calculator and answers with the result.
pub fn performance_bytes(p: rosu_pp::Performance<'static>) -> (r: Vec<u8>)
    requires
        evaluable(p),
    ensures
        r@ == attributes_result(evaluated(p)).spec_wire(),
{
    let attrs = performance_calculate(p);
    let res = performance_result(&attrs);
    performance_to_bytes(&res)
}

} // verus!
