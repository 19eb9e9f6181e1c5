//! The host side: resolving the watcher's published snapshot into item
//! references.
//!
//! The host reads the `RegisteredStatusNotifierItems` property as a list of
//! opaque strings and either resolves one entry by index or resolves the
//! whole snapshot. Indexed resolution fails with an out-of-range error —
//! and nothing else — beyond the end of the snapshot; whole-snapshot
//! resolution skips entries that do not parse, so one bad entry never
//! aborts the listing.

use vstd::prelude::*;

use crate::errors::HostError;
use crate::registration::spec_parse_registration;
use crate::registration::parse_registration;
use crate::registration::ItemReference;
use crate::registration::lemma_registration_round_trip;
use crate::registration::DELIMITER;
use crate::watcher::spec_item_registration;
use crate::watcher::spec_item_valid;
use crate::watcher::spec_registered_items;
use crate::watcher::StatusNotifierItem;
use crate::watcher::StatusNotifierWatcher;

verus! {

/// Resolve the snapshot entry at `index` into an item reference.
///
/// An index beyond the snapshot fails with the out-of-range error, never
/// with a parse or transport error; a valid index resolves exactly the
/// string at that position, failing only when that string is malformed.
pub fn get_item_reference(items: &Vec<String>, index: usize) -> (r: Result<
    ItemReference,
    HostError,
>)
    ensures
        index >= items@.len() ==> r == Err::<ItemReference, HostError>(
            (HostError::OutOfRange { index, len: items@.len() as usize }),
        ),
        index < items@.len() ==> match r {
            Ok(it) => spec_parse_registration(items@[index as int]@) == Some(it.spec_address()),
            Err(e) => spec_parse_registration(items@[index as int]@) is None && e
                == HostError::MalformedRegistration,
        },
{
    if index >= items.len() {
        return Err(HostError::OutOfRange { index, len: items.len() });
    }
    parse_registration(items[index].as_str())
}

/// The references of the snapshot entries that parse, in snapshot order.
pub open spec fn spec_resolved_addresses(items: Seq<Seq<char>>) -> Seq<(Seq<char>, Seq<char>)>
    decreases items.len(),
{
    if items.len() == 0 {
        Seq::empty()
    } else {
        let rest = spec_resolved_addresses(items.drop_last());
        match spec_parse_registration(items.last()) {
            Some(address) => rest.push(address),
            None => rest,
        }
    }
}

/// Resolve every entry of a snapshot, skipping the ones that do not parse:
/// one malformed entry costs only that entry, never the whole listing.
pub fn resolve_registered_items(items: &Vec<String>) -> (r: Vec<ItemReference>)
    ensures
        r@.map_values(|it: ItemReference| it.spec_address()) == spec_resolved_addresses(
            items.deep_view(),
        ),
{
    let mut r: Vec<ItemReference> = Vec::new();
    let n = items.len();
    let mut i: usize = 0;
    while i < n
        invariant
            0 <= i <= n,
            n == items@.len(),
            r@.map_values(|it: ItemReference| it.spec_address()) =~= spec_resolved_addresses(
                items.deep_view().take(i as int),
            ),
        decreases n - i,
    {
        let ghost prefix = items.deep_view().take(i as int);
        let ghost prev = r@.map_values(|it: ItemReference| it.spec_address());
        match parse_registration(items[i].as_str()) {
            Ok(it) => {
                r.push(it);
                proof {
                    assert(r@.map_values(|it: ItemReference| it.spec_address()) =~= prev.push(
                        r@.last().spec_address(),
                    ));
                }
            },
            Err(_) => {},
        }
        proof {
            let next = items.deep_view().take(i + 1);
            assert(next.drop_last() =~= prefix);
            assert(next.last() == items@[i as int]@);
        }
        i = i + 1;
    }
    proof {
        assert(items.deep_view().take(n as int) =~= items.deep_view());
    }
    r
}

/// Resolving the i-th published registration string of a well-formed
/// registry recovers exactly the sender and service of the i-th
/// registration: the addressing target is that sender, and the object path
/// is that service behind a leading delimiter.
pub proof fn lemma_get_item_addresses_registered(w: StatusNotifierWatcher, i: int)
    requires
        w.wf(),
        0 <= i < w.services@.len(),
    ensures
        spec_parse_registration(spec_registered_items(w)[i]) == Some(
            (w.services@[i].sender@, seq![DELIMITER] + w.services@[i].service@),
        ),
{
    assert(spec_registered_items(w)[i] == spec_item_registration(w.services@[i]));
    lemma_registration_round_trip(w.services@[i].sender@, w.services@[i].service@);
}

proof fn lemma_resolve_valid_registrations(items: Seq<StatusNotifierItem>)
    requires
        forall|i: int| 0 <= i < items.len() ==> spec_item_valid(#[trigger] items[i]),
    ensures
        spec_resolved_addresses(items.map_values(|it: StatusNotifierItem| spec_item_registration(it)))
            =~= items.map_values(
            |it: StatusNotifierItem| (it.sender@, seq![DELIMITER] + it.service@),
        ),
    decreases items.len(),
{
    let strings = items.map_values(|it: StatusNotifierItem| spec_item_registration(it));
    if items.len() > 0 {
        lemma_resolve_valid_registrations(items.drop_last());
        assert(strings.drop_last() =~= items.drop_last().map_values(
            |it: StatusNotifierItem| spec_item_registration(it),
        ));
        let last = items.last();
        lemma_registration_round_trip(last.sender@, last.service@);
        assert(strings.last() == spec_item_registration(last));
    }
}

/// Resolving the whole published snapshot of a well-formed registry skips
/// nothing: it yields exactly one reference per registered item, in
/// registration order, each addressing that item's sender at its service
/// behind a leading delimiter.
pub proof fn lemma_resolve_all_registered(w: StatusNotifierWatcher)
    requires
        w.wf(),
    ensures
        spec_resolved_addresses(spec_registered_items(w)) == w.services@.map_values(
            |it: StatusNotifierItem| (it.sender@, seq![DELIMITER] + it.service@),
        ),
{
    lemma_resolve_valid_registrations(w.services@);
}

} // verus!
