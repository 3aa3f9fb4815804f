//! The saved-connection list: an ordered list deduplicated by connection
//! string.
//!
//! The list itself is persisted by the embedding program; this module
//! decides what the list holds. An entry is appended only if no earlier
//! entry carries the same connection string, so insertion order is kept
//! and saving the same target again changes nothing.

use vstd::prelude::*;

verus! {

/// A connection target: a display name and an opaque connection string.
#[derive(Clone, Debug, PartialEq)]
pub struct ConnectionInfo {
    pub connection_name: String,
    pub connection_string: String,
}

/// Whether some entry of the list carries this connection string.
pub open spec fn has_conn_string(list: Seq<ConnectionInfo>, cs: Seq<char>) -> bool {
    exists|i: int| 0 <= i < list.len() && #[trigger] list[i].connection_string@ == cs
}

/// The list after saving one target: unchanged if its connection string
/// is already present, else the target appended.
pub open spec fn spec_add_connection(list: Seq<ConnectionInfo>, info: ConnectionInfo) -> Seq<
    ConnectionInfo,
> {
    if has_conn_string(list, info.connection_string@) {
        list
    } else {
        list.push(info)
    }
}

/// Saves one target into the list, deduplicated by connection string:
/// appended only if absent, and reports whether it was appended.
pub fn add_connection(list: &mut Vec<ConnectionInfo>, info: ConnectionInfo) -> (added: bool)
    ensures
        final(list)@ == spec_add_connection(old(list)@, info),
        added == !has_conn_string(old(list)@, info.connection_string@),
{
    let mut i: usize = 0;
    while i < list.len()
        invariant
            i <= list@.len(),
            list@ == old(list)@,
            forall|j: int|
                0 <= j < i ==> #[trigger] list@[j].connection_string@ != info.connection_string@,
        decreases list@.len() - i,
    {
        let entry: &ConnectionInfo = &list[i];
        if entry.connection_string == info.connection_string {
            return false;
        }
        i = i + 1;
    }
    list.push(info);
    true
}

/// Saving the same connection string twice leaves exactly what one save
/// leaves: the second save changes nothing, whatever name it carries.
pub proof fn lemma_save_connection_dedup(
    list: Seq<ConnectionInfo>,
    a: ConnectionInfo,
    b: ConnectionInfo,
)
    requires
        b.connection_string@ == a.connection_string@,
    ensures
        spec_add_connection(spec_add_connection(list, a), b) == spec_add_connection(list, a),
{
    let l1 = spec_add_connection(list, a);
    if has_conn_string(list, a.connection_string@) {
        let i = choose|i: int|
            0 <= i < list.len() && #[trigger] list[i].connection_string@ == a.connection_string@;
        assert(l1[i].connection_string@ == b.connection_string@);
    } else {
        assert(l1[list.len() as int].connection_string@ == b.connection_string@);
    }
    assert(has_conn_string(l1, b.connection_string@));
}

} // verus!
