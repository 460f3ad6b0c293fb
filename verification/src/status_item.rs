//! Finding the status notifier item of the input method among the
//! registered items. An item is registered as `<bus name>@<object path>`
//! and tells its identity when asked.

use vstd::prelude::*;
use vstd::string::*;

verus! {

/// Where a status notifier item lives on the bus.
#[derive(Clone, Debug, PartialEq, Eq)]
pub struct ItemAddress {
    /// The bus name of the service that owns the item.
    pub destination: String,
    /// The object path of the item.
    pub path: String,
}

/// Whether `at` is the position of the first `@` in `name`.
pub open spec fn first_separator(name: Seq<char>, at: int) -> bool {
    &&& 0 <= at < name.len()
    &&& name[at] == '@'
    &&& forall|j: int| 0 <= j < at ==> name[j] != '@'
}

/// Whether `id` is the identity of the input method's status item.
pub open spec fn is_input_method_id(id: Seq<char>) -> bool {
    id == "Fcitx"@
}

/// Splits a registered item name at its first `@` into bus name and object
/// path. A name without `@` is not an item address.
pub fn parse_item_address(name: &str) -> (address: Option<ItemAddress>)
    ensures
        match address {
            Some(found) => exists|at: int|
                first_separator(name@, at) && found.destination@ == name@.subrange(0, at)
                    && found.path@ == name@.subrange(at + 1, name@.len() as int),
            None => forall|j: int| 0 <= j < name@.len() ==> name@[j] != '@',
        },
{
    let len: usize = name.unicode_len();
    let mut at: usize = 0;
    while at < len
        invariant
            at <= len,
            len == name@.len(),
            forall|j: int| 0 <= j < at ==> name@[j] != '@',
        decreases len - at,
    {
        if name.get_char(at) == '@' {
            let destination = name.substring_char(0, at).to_owned();
            let path = name.substring_char(at + 1, len).to_owned();
            assert(first_separator(name@, at as int));
            return Some(ItemAddress { destination, path });
        }
        at = at + 1;
    }
    None
}

/// Picks the input method's item by the identities that the registered
/// items told, in the order of registration: the last item that calls
/// itself `Fcitx`.
pub fn locate_input_method_item(ids: &Vec<String>) -> (found: Option<usize>)
    ensures
        match found {
            Some(position) => {
                &&& position < ids.len()
                &&& is_input_method_id(ids[position as int]@)
                &&& forall|j: int| position < j < ids.len() ==> !is_input_method_id(ids[j]@)
            },
            None => forall|j: int| 0 <= j < ids.len() ==> !is_input_method_id(ids[j]@),
        },
{
    let wanted = String::from_str("Fcitx");
    let mut found: Option<usize> = None;
    let mut next: usize = 0;
    while next < ids.len()
        invariant
            next <= ids.len(),
            wanted@ == "Fcitx"@,
            match found {
                Some(position) => {
                    &&& position < next
                    &&& is_input_method_id(ids[position as int]@)
                    &&& forall|j: int| position < j < next ==> !is_input_method_id(ids[j]@)
                },
                None => forall|j: int| 0 <= j < next ==> !is_input_method_id(ids[j]@),
            },
        decreases ids.len() - next,
    {
        if ids[next] == wanted {
            found = Some(next);
        }
        next = next + 1;
    }
    found
}

} // verus!
