//! Bookkeeping of the recognition history: newest first, items found by id.

use vstd::prelude::*;
use crate::data_models::HistoryItem;
use crate::text::concat3;

verus! {

broadcast use vstd::string::group_string_axioms;

/// `h` without the items whose id is `id`, the others in their order.
pub open spec fn remove_id(h: Seq<HistoryItem>, id: Seq<char>) -> Seq<HistoryItem>
    decreases h.len(),
{
    if h.len() == 0 {
        Seq::empty()
    } else if h[0].id@ == id {
        remove_id(h.drop_first(), id)
    } else {
        seq![h[0]] + remove_id(h.drop_first(), id)
    }
}

/// Some item of `h` has the id `id`.
pub open spec fn has_id(h: Seq<HistoryItem>, id: Seq<char>) -> bool {
    exists|i: int| 0 <= i < h.len() && h[i].id@ == id
}

/// The index of the first item of `h` with the id `id`.
pub open spec fn first_with_id(h: Seq<HistoryItem>, id: Seq<char>) -> Option<int>
    decreases h.len(),
{
    if h.len() == 0 {
        None
    } else if h[0].id@ == id {
        Some(0)
    } else {
        match first_with_id(h.drop_first(), id) {
            Some(k) => Some(k + 1),
            None => None,
        }
    }
}

/// The message given when no item has the id `id`.
pub open spec fn not_found_message(id: Seq<char>) -> Seq<char> {
    "Item with ID '"@ + id + "' not found"@
}

/// Removing an id keeps the length exactly when no item has that id, and
/// then keeps the whole sequence.
pub proof fn lemma_remove_id_len(h: Seq<HistoryItem>, id: Seq<char>)
    ensures
        remove_id(h, id).len() <= h.len(),
        remove_id(h, id).len() == h.len() <==> !has_id(h, id),
        !has_id(h, id) ==> remove_id(h, id) == h,
    decreases h.len(),
{
    if h.len() > 0 {
        lemma_remove_id_len(h.drop_first(), id);
        if has_id(h.drop_first(), id) {
            let i = choose|i: int| 0 <= i < h.drop_first().len() && h.drop_first()[i].id@ == id;
            assert(h[i + 1].id@ == id);
        }
        if !has_id(h, id) {
            assert(h[0].id@ != id);
            assert forall|i: int| 0 <= i < h.drop_first().len() implies h.drop_first()[i].id@ != id by {
                assert(h[i + 1].id@ != id);
            }
            assert(h =~= seq![h[0]] + h.drop_first());
        } else {
            let i = choose|i: int| 0 <= i < h.len() && h[i].id@ == id;
            if i > 0 {
                assert(h.drop_first()[i - 1].id@ == id);
            }
        }
    }
}

/// The first index of an item with the id `id`, if any.
fn find_item(history: &Vec<HistoryItem>, id: &String) -> (r: Option<usize>)
    ensures
        r matches Some(k) ==> first_with_id(history@, id@) == Some(k as int),
        r is None ==> first_with_id(history@, id@) is None,
{
    let n = history.len();
    assert(history@.skip(0) =~= history@);
    for i in 0..n
        invariant
            n == history@.len(),
            first_with_id(history@, id@) == match first_with_id(history@.skip(i as int), id@) {
                Some(k) => Some(k + i),
                None => None,
            },
    {
        assert(history@.skip(i as int).drop_first() =~= history@.skip(i + 1));
        if history[i].id == *id {
            return Some(i);
        }
    }
    assert(history@.skip(n as int) =~= Seq::<HistoryItem>::empty());
    None
}

/// Puts a new item in front of the history.
pub fn save_to_history(history: &mut Vec<HistoryItem>, item: HistoryItem)
    ensures
        final(history)@ == seq![item] + old(history)@,
{
    history.insert(0, item);
    assert(history@ =~= seq![item] + old(history)@);
}

/// Removes every item with the id `id`; fails, leaving the history
/// unchanged, when there is none.
pub fn delete_history_item(history: &mut Vec<HistoryItem>, id: &String) -> (r: Result<(), String>)
    ensures
        match r {
            Ok(_) => has_id(old(history)@, id@) && final(history)@ == remove_id(old(history)@, id@),
            Err(e) => !has_id(old(history)@, id@) && final(history)@ == old(history)@ && e@
                == not_found_message(id@),
        },
{
    let before_len = history.len();
    let mut rest: Vec<HistoryItem> = Vec::new();
    std::mem::swap(&mut rest, history);
    let ghost orig = rest@;
    assert(history@ + remove_id(rest@, id@) =~= remove_id(orig, id@));
    while rest.len() > 0
        invariant
            history@ + remove_id(rest@, id@) == remove_id(orig, id@),
        decreases rest.len(),
    {
        let ghost before = rest@;
        let item = rest.remove(0);
        assert(rest@ =~= before.drop_first());
        if item.id != *id {
            history.push(item);
            assert(history@ + remove_id(rest@, id@) =~= remove_id(orig, id@));
        }
    }
    assert(history@ =~= remove_id(orig, id@));
    proof {
        lemma_remove_id_len(orig, id@);
    }
    if history.len() == before_len {
        return Err(concat3("Item with ID '", id.as_str(), "' not found"));
    }
    Ok(())
}

/// The history with the title of item `k` replaced.
pub open spec fn with_title(h: Seq<HistoryItem>, k: int, title: String) -> Seq<HistoryItem> {
    h.update(k, HistoryItem { title: title, ..h[k] })
}

/// The history with the favourite flag of item `k` replaced.
pub open spec fn with_favorite(h: Seq<HistoryItem>, k: int, flag: bool) -> Seq<HistoryItem> {
    h.update(k, HistoryItem { is_favorite: flag, ..h[k] })
}

/// Gives the first item with the id `id` the title `title`; fails, leaving
/// the history unchanged, when there is none.
pub fn update_history_title(history: &mut Vec<HistoryItem>, id: &String, title: String) -> (r:
    Result<(), String>)
    ensures
        match first_with_id(old(history)@, id@) {
            Some(k) => r is Ok && final(history)@ == with_title(old(history)@, k, title),
            None => final(history)@ == old(history)@ && (r matches Err(e) && e@ == not_found_message(
                id@,
            )),
        },
{
    match find_item(history, id) {
        Some(k) => {
            proof {
                lemma_first_with_id_bound(history@, id@);
            }
            let mut item = history.remove(k);
            item.title = title;
            history.insert(k, item);
            assert(history@ =~= with_title(old(history)@, k as int, title));
            Ok(())
        },
        None => Err(concat3("Item with ID '", id.as_str(), "' not found")),
    }
}

/// Sets the favourite flag of the first item with the id `id`. The flag is
/// taken from `is_favorite`, else from `is_favorite_camel` (the two spellings
/// a caller may use); without either, or without such an item, it fails and
/// leaves the history unchanged.
pub fn update_favorite_status(
    history: &mut Vec<HistoryItem>,
    id: &String,
    is_favorite: Option<bool>,
    is_favorite_camel: Option<bool>,
) -> (r: Result<(), String>)
    ensures
        is_favorite is None && is_favorite_camel is None ==> final(history)@ == old(history)@ && (
        r matches Err(e) && e@ == "missing is_favorite/isFavorite"@),
        is_favorite is Some || is_favorite_camel is Some ==> {
            let flag = if is_favorite is Some {
                is_favorite->0
            } else {
                is_favorite_camel->0
            };
            match first_with_id(old(history)@, id@) {
                Some(k) => r is Ok && final(history)@ == with_favorite(old(history)@, k, flag),
                None => final(history)@ == old(history)@ && (r matches Err(e) && e@
                    == not_found_message(id@)),
            }
        },
{
    let flag = match is_favorite {
        Some(f) => f,
        None => match is_favorite_camel {
            Some(f) => f,
            None => {
                return Err(crate::text::owned("missing is_favorite/isFavorite"));
            },
        },
    };
    match find_item(history, id) {
        Some(k) => {
            proof {
                lemma_first_with_id_bound(history@, id@);
            }
            let mut item = history.remove(k);
            item.is_favorite = flag;
            history.insert(k, item);
            assert(history@ =~= with_favorite(old(history)@, k as int, flag));
            Ok(())
        },
        None => Err(concat3("Item with ID '", id.as_str(), "' not found")),
    }
}

/// The first index with an id is an index of an item with that id, and none
/// before it has that id.
pub proof fn lemma_first_with_id_bound(h: Seq<HistoryItem>, id: Seq<char>)
    ensures
        first_with_id(h, id) matches Some(k) ==> 0 <= k < h.len() && h[k].id@ == id && forall|j: int|
            0 <= j < k ==> h[j].id@ != id,
        first_with_id(h, id) is None <==> !has_id(h, id),
    decreases h.len(),
{
    if h.len() > 0 {
        lemma_first_with_id_bound(h.drop_first(), id);
        if first_with_id(h, id) is None {
            assert forall|i: int| 0 <= i < h.len() implies h[i].id@ != id by {
                if i > 0 {
                    assert(h.drop_first()[i - 1].id@ != id);
                }
            }
        } else if h[0].id@ != id {
            let k = first_with_id(h.drop_first(), id)->0;
            assert forall|j: int| 0 <= j < k + 1 implies h[j].id@ != id by {
                if j > 0 {
                    assert(h.drop_first()[j - 1].id@ != id);
                }
            }
        }
    }
}

// ---------------------------------------------------------------------------
// Cache of the last history read
// ---------------------------------------------------------------------------

/// The last history read from the history file, with the file's
/// modification time at that read (in nanoseconds since the Unix epoch;
/// `None` when it could not be read).
#[derive(Debug)]
pub struct HistoryCache {
    last_mtime: Option<u128>,
    data: Vec<HistoryItem>,
}

/// What a cache answers for a file modified at `mtime`: the history it
/// holds when it was read at that very time, nothing otherwise.
pub open spec fn cache_answer(cached_mtime: Option<u128>, data: Seq<HistoryItem>, mtime: u128) -> Option<
    Seq<HistoryItem>,
> {
    if cached_mtime == Some(mtime) {
        Some(data)
    } else {
        None
    }
}

impl HistoryCache {
    /// Modification time of the file when the cached history was read.
    pub closed spec fn spec_mtime(&self) -> Option<u128> {
        self.last_mtime
    }

    /// The cached history.
    pub closed spec fn spec_data(&self) -> Seq<HistoryItem> {
        self.data@
    }

    /// An empty cache, which answers no lookup.
    pub fn new() -> (r: HistoryCache)
        ensures
            r.spec_mtime() is None,
            r.spec_data() == Seq::<HistoryItem>::empty(),
    {
        HistoryCache { last_mtime: None, data: Vec::new() }
    }

    /// The cached history, if the file was last modified at `mtime` when it
    /// was read.
    pub fn lookup(&self, mtime: u128) -> (r: Option<&Vec<HistoryItem>>)
        ensures
            match r {
                Some(d) => cache_answer(self.spec_mtime(), self.spec_data(), mtime) == Some(d@),
                None => cache_answer(self.spec_mtime(), self.spec_data(), mtime) is None,
            },
    {
        match self.last_mtime {
            Some(last) => {
                if last == mtime {
                    Some(&self.data)
                } else {
                    None
                }
            },
            None => None,
        }
    }

    /// Remembers a history and the modification time of the file it was
    /// read from or written to.
    pub fn remember(&mut self, mtime: Option<u128>, data: Vec<HistoryItem>)
        ensures
            final(self).spec_mtime() == mtime,
            final(self).spec_data() == data@,
    {
        self.last_mtime = mtime;
        self.data = data;
    }
}

} // verus!
