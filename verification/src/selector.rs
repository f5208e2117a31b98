//! Narrowing the enumerated device sequence to the subset the user asked for.
//!
//! The device source yields one element per physical display, in a fixed
//! enumeration order; an element is either a live handle or an enumeration
//! error for that slot. The caller walks that sequence lazily, numbers the
//! elements from 0 in source order, and keeps exactly the elements that
//! [`DeviceSelector::keeps`] accepts. Name lookups are only needed for
//! name-based selection, as [`DeviceSelector::wants_name`] says.
use vstd::prelude::*;

verus! {

/// One element of the enumerated device sequence, reduced to what selection
/// reads: whether the slot held a device, and what its name lookup returned.
pub enum SourceItem {
    /// The source yielded an error for this slot.
    Unavailable,
    /// The slot holds a live device; `name` is the result of looking up its
    /// name, and `None` where the lookup failed or was never made.
    Device { name: Option<String> },
}

/// A rule narrowing which devices a command affects. The variants are
/// mutually exclusive by construction.
pub enum DeviceSelector {
    /// Keep every element, errors included, in source order.
    All,
    /// Keep a device iff its name lookup succeeded and returned a member of
    /// the list. Error elements and failed lookups are dropped silently.
    ByName(Vec<String>),
    /// Keep an element iff its position in the source sequence is listed,
    /// whether or not the slot held a live device. Positions count from 0.
    ByIndex(Vec<usize>),
}

/// Whether the selector keeps the element `item` standing at position
/// `index` of the source sequence.
pub open spec fn spec_keeps(selector: DeviceSelector, index: usize, item: SourceItem) -> bool {
    match selector {
        DeviceSelector::All => true,
        DeviceSelector::ByName(names) => match item {
            SourceItem::Device { name: Some(n) } => names.deep_view().contains(n@),
            _ => false,
        },
        DeviceSelector::ByIndex(indices) => indices@.contains(index),
    }
}

/// The positions the selector keeps among the first `k` elements of the
/// source sequence, in source order.
pub open spec fn spec_selected_indices(
    selector: DeviceSelector,
    items: Seq<SourceItem>,
    k: int,
) -> Seq<usize>
    decreases k,
{
    if k <= 0 {
        Seq::empty()
    } else {
        let prefix = spec_selected_indices(selector, items, k - 1);
        if spec_keeps(selector, (k - 1) as usize, items[k - 1]) {
            prefix.push((k - 1) as usize)
        } else {
            prefix
        }
    }
}

/// What selection means, position by position: every selected position is
/// in range and kept by the selector, every kept position is selected, and
/// the selected positions keep the source's order.
pub proof fn lemma_selected_indices_characterized(
    selector: DeviceSelector,
    items: Seq<SourceItem>,
    k: int,
)
    requires
        0 <= k <= usize::MAX as int,
    ensures
        forall|j: int|
            0 <= j < spec_selected_indices(selector, items, k).len()
                ==> #[trigger] (spec_selected_indices(selector, items, k)[j] as int) < k,
        forall|j: int|
            0 <= j < spec_selected_indices(selector, items, k).len() ==> spec_keeps(
                selector,
                #[trigger] spec_selected_indices(selector, items, k)[j],
                items[spec_selected_indices(selector, items, k)[j] as int],
            ),
        forall|i: int|
            0 <= i < k && spec_keeps(selector, i as usize, items[i])
                ==> spec_selected_indices(selector, items, k).contains(i as usize),
        forall|a: int, b: int|
            0 <= a < b < spec_selected_indices(selector, items, k).len()
                ==> spec_selected_indices(selector, items, k)[a] < spec_selected_indices(
                selector,
                items,
                k,
            )[b],
    decreases k,
{
    if k > 0 {
        lemma_selected_indices_characterized(selector, items, k - 1);
        let prefix = spec_selected_indices(selector, items, k - 1);
        let whole = spec_selected_indices(selector, items, k);
        assert forall|i: int| 0 <= i < k && spec_keeps(selector, i as usize, items[i]) implies
            whole.contains(i as usize) by {
            if i < k - 1 {
                let j = choose|j: int| 0 <= j < prefix.len() && prefix[j] == i as usize;
                assert(whole[j] == i as usize);
            } else {
                assert(whole[whole.len() - 1] == i as usize);
            }
        }
    }
}

/// Whether `item` is a live device whose name lookup succeeded and
/// returned a member of `names`.
pub open spec fn spec_names_cover(names: Vec<String>, item: SourceItem) -> bool {
    match item {
        SourceItem::Device { name: Some(n) } => names.deep_view().contains(n@),
        _ => false,
    }
}

/// An empty name list selects no devices at all.
pub proof fn lemma_by_name_empty_selects_nothing(
    names: Vec<String>,
    items: Seq<SourceItem>,
    k: int,
)
    requires
        names@.len() == 0,
    ensures
        spec_selected_indices(DeviceSelector::ByName(names), items, k).len() == 0,
    decreases k,
{
    if k > 0 {
        lemma_by_name_empty_selects_nothing(names, items, k - 1);
        assert(names.deep_view().len() == 0);
    }
}

/// A name list that covers every device of the source selects exactly the
/// positions `All` selects, on a source whose every element is a live
/// device with a known name.
pub proof fn lemma_by_name_covering_selects_all(
    names: Vec<String>,
    items: Seq<SourceItem>,
    k: int,
)
    requires
        0 <= k <= items.len(),
        forall|i: int| 0 <= i < items.len() ==> spec_names_cover(names, #[trigger] items[i]),
    ensures
        spec_selected_indices(DeviceSelector::ByName(names), items, k)
            == spec_selected_indices(DeviceSelector::All, items, k),
    decreases k,
{
    if k > 0 {
        lemma_by_name_covering_selects_all(names, items, k - 1);
    }
}

/// Selecting by one position keeps exactly the element at that position of
/// the enumeration order when it is in range; an out-of-range position
/// selects nothing, and is not an error.
pub proof fn lemma_by_index_singleton(
    indices: Vec<usize>,
    position: usize,
    items: Seq<SourceItem>,
    k: int,
)
    requires
        indices@ =~= seq![position],
        0 <= k <= usize::MAX as int,
    ensures
        spec_selected_indices(DeviceSelector::ByIndex(indices), items, k) == if (
        position as int) < k {
            seq![position]
        } else {
            Seq::<usize>::empty()
        },
    decreases k,
{
    if k > 0 {
        lemma_by_index_singleton(indices, position, items, k - 1);
        let last = (k - 1) as usize;
        if position as int == k - 1 {
            assert(indices@.contains(last)) by {
                assert(indices@[0] == position);
            }
            assert(Seq::<usize>::empty().push(position) =~= seq![position]);
        } else {
            assert(!indices@.contains(last)) by {
                if indices@.contains(last) {
                    let j = choose|j: int| 0 <= j < indices@.len() && indices@[j] == last;
                    assert(indices@.len() == 1);
                    assert(indices@[j] == position);
                }
            }
        }
    }
}

fn contains_name(names: &Vec<String>, target: &String) -> (r: bool)
    ensures
        r == names.deep_view().contains(target@),
{
    let mut i: usize = 0;
    while i < names.len()
        invariant
            i <= names.len(),
            forall|j: int| 0 <= j < i ==> names.deep_view()[j] != target@,
        decreases names.len() - i,
    {
        if names[i] == *target {
            assert(names.deep_view()[i as int] == target@);
            return true;
        }
        i += 1;
    }
    false
}

fn contains_index(indices: &Vec<usize>, target: usize) -> (r: bool)
    ensures
        r == indices@.contains(target),
{
    let mut i: usize = 0;
    while i < indices.len()
        invariant
            i <= indices.len(),
            forall|j: int| 0 <= j < i ==> indices@[j] != target,
        decreases indices.len() - i,
    {
        if indices[i] == target {
            return true;
        }
        i += 1;
    }
    false
}

impl DeviceSelector {
    /// Whether selection needs the device's name: only name-based selection
    /// does, so no other selector pays for name lookups.
    pub fn wants_name(&self) -> (r: bool)
        ensures
            r == (*self is ByName),
    {
        match self {
            DeviceSelector::ByName(_) => true,
            _ => false,
        }
    }

    /// Decides whether the element at position `index` is kept.
    pub fn keeps(&self, index: usize, item: &SourceItem) -> (r: bool)
        ensures
            r == spec_keeps(*self, index, *item),
    {
        match self {
            DeviceSelector::All => true,
            DeviceSelector::ByName(names) => match item {
                SourceItem::Device { name: Some(n) } => contains_name(names, n),
                _ => false,
            },
            DeviceSelector::ByIndex(indices) => contains_index(indices, index),
        }
    }
}

/// The positions of the elements the selector keeps, in source order.
/// This is the one selection pass over a fully enumerated sequence; a lazy
/// caller reaches the same set by asking [`DeviceSelector::keeps`] per
/// element as the source yields it.
pub fn select_devices(selector: &DeviceSelector, items: &Vec<SourceItem>) -> (r: Vec<usize>)
    ensures
        r@ == spec_selected_indices(*selector, items@, items@.len() as int),
{
    let mut r: Vec<usize> = Vec::new();
    let mut k: usize = 0;
    while k < items.len()
        invariant
            k <= items.len(),
            r@ == spec_selected_indices(*selector, items@, k as int),
        decreases items.len() - k,
    {
        if selector.keeps(k, &items[k]) {
            r.push(k);
        }
        k += 1;
    }
    r
}

} // verus!
