//! The item table: what a context holds for the guest under identifiers that
//! both sides can compute.

use crate::cross_domain::cross_domain_protocol::CROSS_DOMAIN_FUTEX_START;
use crate::cross_domain::cross_domain_protocol::CROSS_DOMAIN_PIPE_READ_START;
use crate::handle::MesaHandle;
use crate::rutabaga_utils::ImageMemoryRequirements;
use crate::rutabaga_utils::RawDescriptor;
use crate::rutabaga_utils::RutabagaError;
use crate::rutabaga_utils::RutabagaResult;
use std::collections::BTreeMap;
use vstd::prelude::*;

verus! {

/// One entry of the item table.
#[derive(Clone, Copy, Debug, PartialEq, Eq)]
pub enum CrossDomainItem {
    /// The answer to an earlier requirements query. It stays in the table
    /// when a blob is created from it.
    ImageRequirements(ImageMemoryRequirements),
    /// Memory received from the host server. Creating a blob from it takes
    /// it out of the table.
    Blob(MesaHandle),
    /// The host end of a pipe that the guest reads from. The caller keeps
    /// the pipe itself under the item's identifier.
    WaylandReadPipe,
    /// The host end of a pipe that the guest writes to.
    WaylandWritePipe(RawDescriptor),
}

impl CrossDomainItem {
    /// Whether the item is the host end of a pipe that the guest reads from.
    pub open spec fn spec_is_read_pipe(self) -> bool {
        self is WaylandReadPipe
    }

    /// Whether the item is the host end of a pipe that the guest reads from.
    #[verifier::when_used_as_spec(spec_is_read_pipe)]
    pub fn is_read_pipe(self) -> (b: bool)
        ensures
            b == self.spec_is_read_pipe(),
    {
        match self {
            CrossDomainItem::WaylandReadPipe => true,
            _ => false,
        }
    }
}

/// The table and the two counters that identifiers come from.
///
/// Read pipes count up from `CROSS_DOMAIN_PIPE_READ_START`; everything else
/// counts up from 1 and stays below `CROSS_DOMAIN_FUTEX_START`. A counter
/// holds the identifier that was given out last. Every table is well
/// formed: its counters are in their ranges, and each entry sits under an
/// identifier that the counter of its kind has given out.
pub struct CrossDomainItems {
    descriptor_id: u32,
    read_pipe_id: u32,
    table: BTreeMap<u32, CrossDomainItem>,
}

/// A table and its counters as plain values.
pub struct CrossDomainItemsView {
    pub descriptor_id: u32,
    pub read_pipe_id: u32,
    pub table: Map<u32, CrossDomainItem>,
}

impl View for CrossDomainItems {
    type V = CrossDomainItemsView;

    closed spec fn view(&self) -> CrossDomainItemsView {
        CrossDomainItemsView {
            descriptor_id: self.descriptor_id,
            read_pipe_id: self.read_pipe_id,
            table: self.table@,
        }
    }
}

impl CrossDomainItemsView {
    /// The counters are in their ranges and every entry sits under an
    /// identifier that its counter has given out.
    pub open spec fn wf(self) -> bool {
        &&& 1 <= self.descriptor_id < CROSS_DOMAIN_FUTEX_START
        &&& CROSS_DOMAIN_PIPE_READ_START <= self.read_pipe_id
        &&& forall|id: u32| #[trigger]
            self.table.contains_key(id) ==> if self.table[id].spec_is_read_pipe() {
                CROSS_DOMAIN_PIPE_READ_START < id <= self.read_pipe_id
            } else {
                1 < id <= self.descriptor_id
            }
    }

    /// No identifier is left for an item of this kind.
    pub open spec fn exhausted(self, item: CrossDomainItem) -> bool {
        if item.spec_is_read_pipe() {
            self.read_pipe_id == u32::MAX
        } else {
            self.descriptor_id + 1 >= CROSS_DOMAIN_FUTEX_START
        }
    }

    /// The identifier that the next item of this kind receives: one more than
    /// the last of its kind.
    pub open spec fn next_id(self, item: CrossDomainItem) -> u32 {
        if item.spec_is_read_pipe() {
            (self.read_pipe_id + 1) as u32
        } else {
            (self.descriptor_id + 1) as u32
        }
    }

    /// The table after `item` has been added.
    pub open spec fn with_item(self, item: CrossDomainItem) -> CrossDomainItemsView {
        let id = self.next_id(item);
        if item.spec_is_read_pipe() {
            CrossDomainItemsView { read_pipe_id: id, table: self.table.insert(id, item), ..self }
        } else {
            CrossDomainItemsView { descriptor_id: id, table: self.table.insert(id, item), ..self }
        }
    }
}

impl CrossDomainItems {
    #[verifier::type_invariant]
    spec fn well_formed(&self) -> bool {
        self@.wf()
    }

    /// An empty table with both counters at their start.
    pub fn new() -> (items: CrossDomainItems)
        ensures
            items@.wf(),
            items@ == (CrossDomainItemsView {
                descriptor_id: 1,
                read_pipe_id: CROSS_DOMAIN_PIPE_READ_START,
                table: Map::empty(),
            }),
    {
        CrossDomainItems {
            descriptor_id: 1,
            read_pipe_id: CROSS_DOMAIN_PIPE_READ_START,
            table: BTreeMap::new(),
        }
    }

    /// An empty table whose counters have come as far as given, if they
    /// can have come there.
    pub fn with_counters(descriptor_id: u32, read_pipe_id: u32) -> (r: Option<CrossDomainItems>)
        ensures
            r is Some <==> 1 <= descriptor_id < CROSS_DOMAIN_FUTEX_START
                && CROSS_DOMAIN_PIPE_READ_START <= read_pipe_id,
            r is Some ==> r.unwrap()@ == (CrossDomainItemsView {
                descriptor_id,
                read_pipe_id,
                table: Map::empty(),
            }),
    {
        if 1 <= descriptor_id && descriptor_id < CROSS_DOMAIN_FUTEX_START
            && CROSS_DOMAIN_PIPE_READ_START <= read_pipe_id {
            Some(CrossDomainItems { descriptor_id, read_pipe_id, table: BTreeMap::new() })
        } else {
            None
        }
    }

    /// Every table is well formed.
    pub fn check_invariant(&self)
        ensures
            self@.wf(),
    {
        proof {
            use_type_invariant(self);
        }
    }

    /// The identifier that was given last to an item that is no read pipe.
    pub fn descriptor_id(&self) -> (id: u32)
        ensures
            id == self@.descriptor_id,
    {
        self.descriptor_id
    }

    /// The identifier that was given last to a read pipe.
    pub fn read_pipe_id(&self) -> (id: u32)
        ensures
            id == self@.read_pipe_id,
    {
        self.read_pipe_id
    }

    /// How many items the table holds.
    pub fn len(&self) -> (n: usize)
        ensures
            n == self@.table.len(),
    {
        self.table.len()
    }

    /// The item under `id`, if there is one.
    pub fn get(&self, id: u32) -> (item: Option<CrossDomainItem>)
        ensures
            item == if self@.table.contains_key(id) {
                Some(self@.table[id])
            } else {
                None
            },
    {
        broadcast use vstd::std_specs::btree::group_btree_axioms;

        match self.table.get(&id) {
            Some(item) => Some(*item),
            None => None,
        }
    }

    /// Takes the item under `id` out of the table, if there is one.
    pub fn remove(&mut self, id: u32) -> (item: Option<CrossDomainItem>)
        ensures
            item == if old(self)@.table.contains_key(id) {
                Some(old(self)@.table[id])
            } else {
                None
            },
            final(self)@ == (CrossDomainItemsView {
                table: old(self)@.table.remove(id),
                ..old(self)@
            }),
            final(self)@.wf(),
    {
        broadcast use vstd::std_specs::btree::group_btree_axioms;

        proof {
            use_type_invariant(&*self);
        }
        let mut table: BTreeMap<u32, CrossDomainItem> = BTreeMap::new();
        std::mem::swap(&mut self.table, &mut table);
        let item = table.remove(&id);
        let descriptor_id = self.descriptor_id;
        let read_pipe_id = self.read_pipe_id;
        proof {
            assert forall|k: u32| #[trigger] table@.contains_key(k) implies if table@[k].spec_is_read_pipe() {
                CROSS_DOMAIN_PIPE_READ_START < k <= read_pipe_id
            } else {
                1 < k <= descriptor_id
            } by {
                assert(old(self)@.table.contains_key(k));
            }
        }
        *self = CrossDomainItems { descriptor_id, read_pipe_id, table };
        item
    }

    /// Hands the items out and leaves the table empty.
    pub fn take_all(&mut self) -> (items: BTreeMap<u32, CrossDomainItem>)
        ensures
            items@ == old(self)@.table,
            final(self)@ == (CrossDomainItemsView { table: Map::empty(), ..old(self)@ }),
    {
        proof {
            use_type_invariant(&*self);
        }
        let mut items: BTreeMap<u32, CrossDomainItem> = BTreeMap::new();
        std::mem::swap(&mut self.table, &mut items);
        items
    }

    /// Puts `item` into the table under the next identifier of its kind and
    /// returns that identifier.
    ///
    /// The identifier is one more than the last one of the same kind, so it
    /// is larger than every identifier of that kind in the table. When the
    /// kind has no identifier left the table stays as it is and the result is
    /// `InvalidCrossDomainItemId`.
    pub fn add_item(&mut self, item: CrossDomainItem) -> (r: RutabagaResult<u32>)
        ensures
            final(self)@.wf(),
            r == if old(self)@.exhausted(item) {
                Err::<u32, RutabagaError>(RutabagaError::InvalidCrossDomainItemId)
            } else {
                Ok::<u32, RutabagaError>(old(self)@.next_id(item))
            },
            final(self)@ == if old(self)@.exhausted(item) {
                old(self)@
            } else {
                old(self)@.with_item(item)
            },
            r.is_ok() ==> !old(self)@.table.contains_key(r.unwrap()) && forall|id: u32|
                #![trigger old(self)@.table.contains_key(id)]
                old(self)@.table.contains_key(id) && old(self)@.table[id].spec_is_read_pipe()
                    == item.spec_is_read_pipe() ==> id < r.unwrap(),
    {
        broadcast use vstd::std_specs::btree::group_btree_axioms;

        proof {
            use_type_invariant(&*self);
        }
        let item_id: u32 = if item.is_read_pipe() {
            if self.read_pipe_id == u32::MAX {
                return Err(RutabagaError::InvalidCrossDomainItemId);
            }
            self.read_pipe_id + 1
        } else {
            if self.descriptor_id >= CROSS_DOMAIN_FUTEX_START - 1 {
                return Err(RutabagaError::InvalidCrossDomainItemId);
            }
            self.descriptor_id + 1
        };
        let mut table: BTreeMap<u32, CrossDomainItem> = BTreeMap::new();
        std::mem::swap(&mut self.table, &mut table);
        table.insert(item_id, item);
        let descriptor_id = if item.is_read_pipe() {
            self.descriptor_id
        } else {
            item_id
        };
        let read_pipe_id = if item.is_read_pipe() {
            item_id
        } else {
            self.read_pipe_id
        };
        proof {
            assert forall|id: u32| #[trigger] table@.contains_key(id) implies if table@[id].spec_is_read_pipe() {
                CROSS_DOMAIN_PIPE_READ_START < id <= read_pipe_id
            } else {
                1 < id <= descriptor_id
            } by {
                if id != item_id {
                    assert(old(self)@.table.contains_key(id));
                }
            }
        }
        *self = CrossDomainItems { descriptor_id, read_pipe_id, table };
        Ok(item_id)
    }
}

/// Identifiers of read pipes and identifiers of other items never meet, and
/// neither kind falls among the futex identifiers: in a well-formed table a
/// read pipe sits above `CROSS_DOMAIN_PIPE_READ_START`, anything else below
/// `CROSS_DOMAIN_FUTEX_START`, and futex identifiers lie from
/// `CROSS_DOMAIN_FUTEX_START` up to `CROSS_DOMAIN_PIPE_READ_START`.
pub proof fn lemma_identifier_spaces_disjoint(items: CrossDomainItemsView, id: u32)
    requires
        items.wf(),
        items.table.contains_key(id),
    ensures
        items.table[id].spec_is_read_pipe() ==> id > CROSS_DOMAIN_PIPE_READ_START,
        !items.table[id].spec_is_read_pipe() ==> 1 < id < CROSS_DOMAIN_FUTEX_START,
        !(CROSS_DOMAIN_FUTEX_START <= id <= CROSS_DOMAIN_PIPE_READ_START),
        CROSS_DOMAIN_FUTEX_START < CROSS_DOMAIN_PIPE_READ_START,
{
}

/// Two items added one after the other receive increasing identifiers of
/// their kinds: the second is one more than the first when they are of the
/// same kind, and differs from it when they are not.
pub proof fn lemma_identifiers_increase(
    items: CrossDomainItemsView,
    first: CrossDomainItem,
    second: CrossDomainItem,
)
    requires
        items.wf(),
        !items.exhausted(first),
        !items.with_item(first).exhausted(second),
    ensures
        items.with_item(first).wf(),
        first.spec_is_read_pipe() == second.spec_is_read_pipe() ==> items.with_item(first).next_id(
            second,
        ) == items.next_id(first) + 1,
        first.spec_is_read_pipe() != second.spec_is_read_pipe() ==> items.with_item(first).next_id(
            second,
        ) != items.next_id(first),
        items.next_id(first) >= 2,
        first.spec_is_read_pipe() ==> items.next_id(first) > CROSS_DOMAIN_PIPE_READ_START,
{
}

} // verus!
