//! Input source selection: which of the registered input sources a switch
//! request activates, and which source is current.

use crate::text::str_eq;
use vstd::prelude::*;
use vstd::string::StringExecFns;

pub mod sources;

verus! {

/// Why no input source was selected.
#[derive(Clone, Copy, Debug, PartialEq, Eq)]
pub enum SwitchError {
    /// No registered input source carries the requested identifier.
    NotFound,
    /// The list of registered input sources could not be obtained.
    EnumerationFailed,
}

impl SwitchError {
    /// The error in words, for a request that asked for `source_id`.
    pub fn message(&self, source_id: &str) -> (text: String)
        ensures
            text@ == match *self {
                SwitchError::NotFound => "Input source not found: "@ + source_id@,
                SwitchError::EnumerationFailed => "Failed to get input source list"@,
            },
    {
        match self {
            SwitchError::NotFound => "Input source not found: ".to_owned().concat(source_id),
            SwitchError::EnumerationFailed => "Failed to get input source list".to_owned(),
        }
    }
}

/// Whether entry `i` of the listing is the first one whose identifier is
/// exactly `target`. An entry without an identifier matches nothing.
pub open spec fn is_first_source(
    listing: Seq<Option<Seq<char>>>,
    target: Seq<char>,
    i: int,
) -> bool {
    &&& 0 <= i < listing.len()
    &&& listing[i] == Some(target)
    &&& forall|j: int| 0 <= j < i ==> #[trigger] listing[j] != Some(target)
}

/// The first entry of the listing whose identifier is `target`, where the
/// listing has one.
pub open spec fn first_source(listing: Seq<Option<Seq<char>>>, target: Seq<char>) -> int {
    choose|i: int| is_first_source(listing, target, i)
}

/// What a switch request comes to. `listing` holds the identifiers of the
/// registered input sources in the order the system reports them, or nothing
/// where the system reported no list.
pub open spec fn switch_outcome(
    listing: Option<Seq<Option<Seq<char>>>>,
    target: Seq<char>,
) -> Result<int, SwitchError> {
    match listing {
        None => Err(SwitchError::EnumerationFailed),
        Some(entries) => if entries.contains(Some(target)) {
            Ok(first_source(entries, target))
        } else {
            Err(SwitchError::NotFound)
        },
    }
}

/// The first source with the identifier is the only one that is first:
/// however it was found, it is the one `first_source` names.
pub proof fn lemma_first_source_is_unique(
    listing: Seq<Option<Seq<char>>>,
    target: Seq<char>,
    i: int,
)
    requires
        is_first_source(listing, target, i),
    ensures
        listing.contains(Some(target)),
        first_source(listing, target) == i,
{
    let chosen = first_source(listing, target);
    assert(is_first_source(listing, target, chosen));
    if chosen < i {
        assert(listing[chosen] != Some(target));
    }
    if i < chosen {
        assert(listing[i] != Some(target));
    }
}

/// Picks the input source to activate for `source_id`.
///
/// `registered` lists the identifier of every registered input source, in
/// the system's order, with `None` for a source that has no identifier; it is
/// `None` itself where the system handed out no list. The answer is the
/// position of the first source whose identifier equals `source_id` exactly,
/// which the caller then activates. Nothing is activated on an error.
pub fn switch_input_source(source_id: &str, registered: Option<&Vec<Option<String>>>) -> (selection:
    Result<usize, SwitchError>)
    ensures
        switch_outcome(registered.deep_view(), source_id@) == match selection {
            Ok(index) => Ok(index as int),
            Err(error) => Err(error),
        },
        selection matches Ok(index) ==> registered matches Some(listing) && is_first_source(
            listing.deep_view(),
            source_id@,
            index as int,
        ),
        selection == Err::<usize, SwitchError>(SwitchError::EnumerationFailed)
            <==> registered is None,
        selection == Err::<usize, SwitchError>(SwitchError::NotFound) <==> (registered matches Some(
            listing,
        ) && !listing.deep_view().contains(Some(source_id@))),
{
    let listing = match registered {
        Some(listing) => listing,
        None => {
            return Err(SwitchError::EnumerationFailed);
        },
    };
    let mut i: usize = 0;
    while i < listing.len()
        invariant
            i <= listing.len(),
            registered == Some(listing),
            forall|j: int| 0 <= j < i ==> #[trigger] listing.deep_view()[j] != Some(source_id@),
        decreases listing.len() - i,
    {
        if let Some(current_id) = &listing[i] {
            if str_eq(current_id.as_str(), source_id) {
                proof {
                    lemma_first_source_is_unique(listing.deep_view(), source_id@, i as int);
                }
                return Ok(i);
            }
        }
        i += 1;
    }
    Err(SwitchError::NotFound)
}

/// The identifier of the current input source, from what the system said of
/// it: `None` where it named no current source, `Some(None)` where the
/// current source has no identifier.
pub fn get_current_input_source(current: Option<Option<String>>) -> (source_id: Option<String>)
    ensures
        source_id == match current {
            Some(Some(identifier)) => Some(identifier),
            _ => None,
        },
{
    match current {
        Some(Some(identifier)) => Some(identifier),
        _ => None,
    }
}

} // verus!
