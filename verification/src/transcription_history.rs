//! The list of past transcripts: how it is ordered, how it grows, and how
//! entries leave it.

use crate::domain::vocabulary::at_most;
use crate::text::str_eq;
use vstd::prelude::*;

verus! {

/// How many transcripts a stored history is cut down to when it is read.
pub const MAX_HISTORY_ITEMS: usize = 50;

/// The mathematical value of a [`TranscriptionHistoryItem`].
pub struct ItemView {
    pub id: Seq<char>,
    pub text: Seq<char>,
    pub created_at_ms: i64,
}

/// One remembered transcript.
#[derive(Debug)]
pub struct TranscriptionHistoryItem {
    pub id: String,
    pub text: String,
    pub created_at_ms: i64,
}

impl View for TranscriptionHistoryItem {
    type V = ItemView;

    open spec fn view(&self) -> ItemView {
        ItemView { id: self.id@, text: self.text@, created_at_ms: self.created_at_ms }
    }
}

impl DeepView for TranscriptionHistoryItem {
    type V = ItemView;

    open spec fn deep_view(&self) -> ItemView {
        self@
    }
}

impl Clone for TranscriptionHistoryItem {
    fn clone(&self) -> (copy: TranscriptionHistoryItem)
        ensures
            copy@ == self@,
    {
        TranscriptionHistoryItem {
            id: self.id.clone(),
            text: self.text.clone(),
            created_at_ms: self.created_at_ms,
        }
    }
}

// ---------------------------------------------------------------------------
// Order
// ---------------------------------------------------------------------------
/// Whether no item stands behind an older one.
pub open spec fn newest_first(items: Seq<ItemView>) -> bool {
    forall|i: int, j: int|
        0 <= i <= j < items.len() ==> items[i].created_at_ms >= items[j].created_at_ms
}

/// Where an item created at `created_at_ms` goes in an ordered list: in front
/// of the first item that is strictly older, behind everything else.
pub open spec fn place_for(items: Seq<ItemView>, created_at_ms: i64, from: int) -> int
    decreases items.len() - from,
{
    if 0 <= from < items.len() && items[from].created_at_ms >= created_at_ms {
        place_for(items, created_at_ms, from + 1)
    } else {
        from
    }
}

/// `items` with `item` put in at its place.
pub open spec fn placed(items: Seq<ItemView>, item: ItemView) -> Seq<ItemView> {
    items.insert(place_for(items, item.created_at_ms, 0), item)
}

/// `items` ordered newest first; items of the same age keep their order.
pub open spec fn ordered(items: Seq<ItemView>) -> Seq<ItemView>
    decreases items.len(),
{
    if items.len() == 0 {
        Seq::empty()
    } else {
        placed(ordered(items.drop_last()), items.last())
    }
}

/// What a reader sees of a stored history: its items newest first, cut down
/// to [`MAX_HISTORY_ITEMS`].
pub open spec fn normalized(items: Seq<ItemView>) -> Seq<ItemView> {
    at_most(ordered(items), MAX_HISTORY_ITEMS as nat)
}

proof fn lemma_place_for_bounds(items: Seq<ItemView>, created_at_ms: i64, from: int)
    requires
        0 <= from <= items.len(),
    ensures
        from <= place_for(items, created_at_ms, from) <= items.len(),
        forall|k: int|
            from <= k < place_for(items, created_at_ms, from) ==> items[k].created_at_ms
                >= created_at_ms,
        place_for(items, created_at_ms, from) < items.len() ==> items[place_for(
            items,
            created_at_ms,
            from,
        )].created_at_ms < created_at_ms,
    decreases items.len() - from,
{
    if from < items.len() && items[from].created_at_ms >= created_at_ms {
        lemma_place_for_bounds(items, created_at_ms, from + 1);
    }
}

proof fn lemma_placed_keeps_order(items: Seq<ItemView>, item: ItemView)
    requires
        newest_first(items),
    ensures
        newest_first(placed(items, item)),
        placed(items, item).len() == items.len() + 1,
        placed(items, item).to_multiset() == items.to_multiset().insert(item),
{
    lemma_place_for_bounds(items, item.created_at_ms, 0);
    let at = place_for(items, item.created_at_ms, 0);
    vstd::seq_lib::to_multiset_insert(items, at, item);
}

/// Ordering rearranges and nothing else: the result holds exactly the items
/// of the input, each as often as the input does, and no item stands behind
/// an older one.
pub proof fn lemma_ordered_is_sorted_permutation(items: Seq<ItemView>)
    ensures
        newest_first(ordered(items)),
        ordered(items).len() == items.len(),
        ordered(items).to_multiset() == items.to_multiset(),
    decreases items.len(),
{
    if items.len() == 0 {
        assert(items =~= ordered(items));
    } else {
        let shorter = items.drop_last();
        lemma_ordered_is_sorted_permutation(shorter);
        lemma_placed_keeps_order(ordered(shorter), items.last());
        assert(shorter.push(items.last()) =~= items);
        vstd::seq_lib::to_multiset_build(shorter, items.last());
    }
}

/// A list that is already ordered is left as it is.
pub proof fn lemma_ordered_keeps_ordered(items: Seq<ItemView>)
    requires
        newest_first(items),
    ensures
        ordered(items) == items,
    decreases items.len(),
{
    if items.len() > 0 {
        let shorter = items.drop_last();
        lemma_ordered_keeps_ordered(shorter);
        lemma_place_for_end(shorter, items.last().created_at_ms, 0);
    }
}

proof fn lemma_place_for_end(items: Seq<ItemView>, created_at_ms: i64, from: int)
    requires
        0 <= from <= items.len(),
        forall|k: int| 0 <= k < items.len() ==> items[k].created_at_ms >= created_at_ms,
    ensures
        place_for(items, created_at_ms, from) == items.len(),
    decreases items.len() - from,
{
    if from < items.len() {
        lemma_place_for_end(items, created_at_ms, from + 1);
    }
}

/// What a reader sees is ordered and never longer than [`MAX_HISTORY_ITEMS`].
pub proof fn lemma_normalized_shape(items: Seq<ItemView>)
    ensures
        newest_first(normalized(items)),
        normalized(items).len() <= MAX_HISTORY_ITEMS,
        normalized(items).len() <= items.len(),
{
    lemma_ordered_is_sorted_permutation(items);
}

/// Orders the items newest first, items of the same age in the order they
/// came, and keeps the first [`MAX_HISTORY_ITEMS`].
pub fn normalize_items(items: Vec<TranscriptionHistoryItem>) -> (normal: Vec<
    TranscriptionHistoryItem,
>)
    ensures
        normal.deep_view() == normalized(items.deep_view()),
{
    let mut sorted: Vec<TranscriptionHistoryItem> = Vec::new();
    let mut i: usize = 0;
    while i < items.len()
        invariant
            0 <= i <= items.len(),
            sorted.len() == i,
            sorted.deep_view() == ordered(items.deep_view().take(i as int)),
        decreases items.len() - i,
    {
        let item = items[i].clone();
        let mut at: usize = 0;
        while at < sorted.len() && sorted[at].created_at_ms >= item.created_at_ms
            invariant
                0 <= at <= sorted.len(),
                place_for(sorted.deep_view(), item.created_at_ms, at as int) == place_for(
                    sorted.deep_view(),
                    item.created_at_ms,
                    0,
                ),
            decreases sorted.len() - at,
        {
            at += 1;
        }
        proof {
            assert(items.deep_view().take(i + 1).drop_last() =~= items.deep_view().take(i as int));
        }
        sorted.insert(at, item);
        i += 1;
    }
    proof {
        assert(items.deep_view().take(items.len() as int) =~= items.deep_view());
    }
    if sorted.len() > MAX_HISTORY_ITEMS {
        sorted.truncate(MAX_HISTORY_ITEMS);
    }
    sorted
}

/// What a reader sees of the stored items: newest first, at most
/// [`MAX_HISTORY_ITEMS`] of them. A history that was never stored is read as
/// an empty list of stored items.
pub fn load_history(stored: Vec<TranscriptionHistoryItem>) -> (items: Vec<TranscriptionHistoryItem>)
    ensures
        items.deep_view() == normalized(stored.deep_view()),
{
    normalize_items(stored)
}

// ---------------------------------------------------------------------------
// Growing and shrinking
// ---------------------------------------------------------------------------
/// The history after a transcript has been remembered: the new item in front
/// of what a reader saw before, cut down to `max_items`.
pub open spec fn appended(stored: Seq<ItemView>, item: ItemView, max_items: nat) -> Seq<ItemView> {
    at_most(seq![item] + normalized(stored), max_items)
}

/// Remembers a transcript: the stored items are read as [`load_history`]
/// reads them, the new item goes in front, and the first `max_items` are
/// kept.
pub fn append_item(
    stored: Vec<TranscriptionHistoryItem>,
    id: String,
    text: &str,
    created_at_ms: i64,
    max_items: usize,
) -> (items: Vec<TranscriptionHistoryItem>)
    ensures
        items.deep_view() == appended(
            stored.deep_view(),
            ItemView { id: id@, text: text@, created_at_ms },
            max_items as nat,
        ),
{
    let mut items = normalize_items(stored);
    let item = TranscriptionHistoryItem { id, text: text.to_owned(), created_at_ms };
    proof {
        lemma_normalized_shape(stored.deep_view());
    }
    items.insert(0, item);
    if items.len() > max_items {
        items.truncate(max_items);
    }
    items
}

/// `items` without those that carry `id`.
pub open spec fn without_id(items: Seq<ItemView>, id: Seq<char>) -> Seq<ItemView>
    decreases items.len(),
{
    if items.len() == 0 {
        Seq::empty()
    } else if items.last().id == id {
        without_id(items.drop_last(), id)
    } else {
        without_id(items.drop_last(), id).push(items.last())
    }
}

/// After a deletion no item carries the deleted identifier, and every item
/// that is left was there before.
pub proof fn lemma_without_id_shape(items: Seq<ItemView>, id: Seq<char>)
    ensures
        forall|k: int| 0 <= k < without_id(items, id).len() ==> without_id(items, id)[k].id != id,
        forall|k: int|
            0 <= k < without_id(items, id).len() ==> items.contains(
                #[trigger] without_id(items, id)[k],
            ),
        without_id(items, id).len() <= items.len(),
    decreases items.len(),
{
    if items.len() > 0 {
        let shorter = items.drop_last();
        lemma_without_id_shape(shorter, id);
        let kept = without_id(items, id);
        assert forall|k: int| 0 <= k < kept.len() implies items.contains(#[trigger] kept[k]) by {
            if k < without_id(shorter, id).len() {
                let found = choose|at: int|
                    0 <= at < shorter.len() && shorter[at] == without_id(shorter, id)[k];
                assert(items[found] == kept[k]);
            } else {
                assert(items[items.len() - 1] == kept[k]);
            }
        }
    }
}

/// Forgets the transcripts that carry `id`: the stored items are read as
/// [`load_history`] reads them, and those with another identifier are kept
/// in their order.
pub fn delete_item(stored: Vec<TranscriptionHistoryItem>, id: &str) -> (items: Vec<
    TranscriptionHistoryItem,
>)
    ensures
        items.deep_view() == without_id(normalized(stored.deep_view()), id@),
{
    let loaded = normalize_items(stored);
    let mut kept: Vec<TranscriptionHistoryItem> = Vec::new();
    let mut i: usize = 0;
    while i < loaded.len()
        invariant
            0 <= i <= loaded.len(),
            kept.deep_view() == without_id(loaded.deep_view().take(i as int), id@),
        decreases loaded.len() - i,
    {
        proof {
            assert(loaded.deep_view().take(i + 1).drop_last() =~= loaded.deep_view().take(
                i as int,
            ));
        }
        if !str_eq(loaded[i].id.as_str(), id) {
            kept.push(loaded[i].clone());
        }
        i += 1;
    }
    proof {
        assert(loaded.deep_view().take(loaded.len() as int) =~= loaded.deep_view());
    }
    kept
}

/// The history after everything has been forgotten.
pub fn clear_history() -> (items: Vec<TranscriptionHistoryItem>)
    ensures
        items@.len() == 0,
        items.deep_view() == Seq::<ItemView>::empty(),
{
    let items: Vec<TranscriptionHistoryItem> = Vec::new();
    items
}

// ---------------------------------------------------------------------------
// The last failure
// ---------------------------------------------------------------------------
/// Notes a failure to remember a transcript, in place of any noted before.
pub fn set_last_error(slot: &mut Option<String>, message: String)
    ensures
        final(slot).deep_view() == Some(message@),
{
    *slot = Some(message);
}

/// Notes a failure that came up while the application ran.
pub fn record_runtime_error(slot: &mut Option<String>, message: String)
    ensures
        final(slot).deep_view() == Some(message@),
{
    set_last_error(slot, message);
}

/// Hands out the failure noted last, if any, and forgets it.
pub fn take_runtime_error(slot: &mut Option<String>) -> (message: Option<String>)
    ensures
        message.deep_view() == old(slot).deep_view(),
        *final(slot) is None,
{
    slot.take()
}

} // verus!
