//! Canteen resolution: turning mutually exclusive user selectors (an
//! explicit id, a free-text location, or neither) into the one directory
//! lookup to perform, and turning that lookup's outcome into an ordered list
//! of canteens or a resolution error.
//!
//! The directory lookups themselves go over the network and are performed by
//! the surrounding program; this module decides which lookup to make and
//! what its outcome means, so those decisions are verified.

use vstd::prelude::*;

verus! {

/// A canteen as the directory service lists it: a numeric identifier and a
/// display name.
#[derive(Debug)]
pub struct CanteenRef {
    pub id: u64,
    pub name: String,
}

/// Exactly one selection mode is active per invocation.
#[derive(Debug)]
pub enum SelectionInput {
    /// An explicit canteen identifier was supplied.
    ById(u64),
    /// A free-text location query was supplied.
    ByLocation(String),
    /// Neither selector was supplied: fall back to the configured ids.
    Defaults,
}

/// Why resolution failed.
#[derive(Debug)]
pub enum ResolutionError {
    /// Both an id and a location selector were supplied.
    ConflictingSelectors,
    /// The id-based lookup returned no record for this id.
    NotFound(u64),
    /// The directory collaborator itself failed; the payload is its message.
    Lookup(String),
}

/// The single directory lookup that resolution performs.
#[derive(Debug)]
pub enum LookupPlan {
    /// Look one canteen up by its id.
    ById(u64),
    /// Look all canteens up near the given free-text location.
    ByLocation(String),
    /// Batch-look the configured default ids up.
    ByIds(Vec<u64>),
}

/// Turns the raw command-line selectors into a selection, rejecting the
/// conflicting pair before any lookup is planned: when both an id and a
/// location are supplied, no collaborator can ever be invoked, because no
/// `SelectionInput` (and hence no `LookupPlan`) exists for that input.
pub fn select(id: Option<u64>, location: Option<String>) -> (r: Result<
    SelectionInput,
    ResolutionError,
>)
    ensures
        id is Some && location is Some ==> r == Err::<SelectionInput, ResolutionError>(
            ResolutionError::ConflictingSelectors,
        ),
        id matches Some(i) ==> (location is None ==> r == Ok::<SelectionInput, ResolutionError>(
            SelectionInput::ById(i),
        )),
        location matches Some(l) ==> (id is None ==> r == Ok::<SelectionInput, ResolutionError>(
            SelectionInput::ByLocation(l),
        )),
        id is None && location is None ==> r == Ok::<SelectionInput, ResolutionError>(
            SelectionInput::Defaults,
        ),
{
    match (id, location) {
        (Some(_), Some(_)) => Err(ResolutionError::ConflictingSelectors),
        (Some(i), None) => Ok(SelectionInput::ById(i)),
        (None, Some(l)) => Ok(SelectionInput::ByLocation(l)),
        (None, None) => Ok(SelectionInput::Defaults),
    }
}

/// Decides the one directory lookup for a selection.  Exactly one strategy
/// applies: the explicit id, else the location query, else the configured
/// default ids.
pub fn plan(selection: SelectionInput, defaults: Vec<u64>) -> (p: LookupPlan)
    ensures
        selection matches SelectionInput::ById(i) ==> p == LookupPlan::ById(i),
        selection matches SelectionInput::ByLocation(l) ==> p == LookupPlan::ByLocation(l),
        selection is Defaults ==> p == LookupPlan::ByIds(defaults),
{
    match selection {
        SelectionInput::ById(i) => LookupPlan::ById(i),
        SelectionInput::ByLocation(l) => LookupPlan::ByLocation(l),
        SelectionInput::Defaults => LookupPlan::ByIds(defaults),
    }
}

/// Interprets the outcome of an id lookup: a found record becomes the
/// single-element canteen list, a missing record is `NotFound(id)`, and a
/// collaborator failure is wrapped as `Lookup`.
pub fn conclude_by_id(id: u64, outcome: Result<Option<CanteenRef>, String>) -> (r: Result<
    Vec<CanteenRef>,
    ResolutionError,
>)
    ensures
        outcome matches Ok(found) ==> {
            &&& (found matches Some(c) ==> (r matches Ok(v) && v@ == seq![c]))
            &&& (found is None ==> r == Err::<Vec<CanteenRef>, ResolutionError>(
                ResolutionError::NotFound(id),
            ))
        },
        outcome matches Err(m) ==> r == Err::<Vec<CanteenRef>, ResolutionError>(
            ResolutionError::Lookup(m),
        ),
{
    match outcome {
        Ok(Some(c)) => {
            let mut v: Vec<CanteenRef> = Vec::new();
            v.push(c);
            Ok(v)
        },
        Ok(None) => Err(ResolutionError::NotFound(id)),
        Err(m) => Err(ResolutionError::Lookup(m)),
    }
}

/// Interprets the outcome of a listing lookup (by location or by the
/// configured ids): the listing is returned as-is — an empty listing is a
/// valid result, not an error — and a collaborator failure is wrapped as
/// `Lookup`.
pub fn conclude_listing(outcome: Result<Vec<CanteenRef>, String>) -> (r: Result<
    Vec<CanteenRef>,
    ResolutionError,
>)
    ensures
        outcome matches Ok(cs) ==> r == Ok::<Vec<CanteenRef>, ResolutionError>(cs),
        outcome matches Err(m) ==> r == Err::<Vec<CanteenRef>, ResolutionError>(
            ResolutionError::Lookup(m),
        ),
{
    match outcome {
        Ok(cs) => Ok(cs),
        Err(m) => Err(ResolutionError::Lookup(m)),
    }
}

impl ResolutionError {
    /// Human-readable message, as the report prints it.
    pub fn message(&self) -> (r: String)
        ensures
            self is ConflictingSelectors ==> r@ == "Use either location or id"@,
            self matches ResolutionError::NotFound(_) ==> r@ == "Canteen not found by ID"@,
            self matches ResolutionError::Lookup(m) ==> r@ == "Error fetching canteens: "@ + m@,
    {
        match self {
            ResolutionError::ConflictingSelectors => String::from_str("Use either location or id"),
            ResolutionError::NotFound(_) => String::from_str("Canteen not found by ID"),
            ResolutionError::Lookup(m) => {
                let mut s = String::from_str("Error fetching canteens: ");
                s.append(m.as_str());
                s
            },
        }
    }
}

} // verus!
