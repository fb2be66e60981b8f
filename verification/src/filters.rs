//! Which filter of a listing applies.
//!
//! A listing takes several optional query parameters and applies at most one
//! predicate. The parameters are looked at in a fixed order and the first that
//! is present wins; whatever else was sent is ignored.

use vstd::prelude::*;
use crate::models::{opt_text, Client, ClientView, Shift};

verus! {

/// The query parameters of a listing of clients.
#[derive(Debug, Clone, PartialEq, Eq)]
pub struct ClientFilters {
    pub first_name: Option<String>,
    pub last_name: Option<String>,
    pub zipcode: Option<String>,
}

/// The view of [`ClientFilters`].
pub struct ClientFiltersView {
    pub first_name: Option<Seq<char>>,
    pub last_name: Option<Seq<char>>,
    pub zipcode: Option<Seq<char>>,
}

impl View for ClientFilters {
    type V = ClientFiltersView;

    open spec fn view(&self) -> ClientFiltersView {
        ClientFiltersView {
            first_name: opt_text(self.first_name),
            last_name: opt_text(self.last_name),
            zipcode: opt_text(self.zipcode),
        }
    }
}

/// The one predicate that a listing of clients applies.
#[derive(Debug, Clone, PartialEq, Eq)]
pub enum ClientPredicate {
    /// First and last name are both as given.
    Name { first_name: String, last_name: String },
    /// The zipcode is as given.
    Zipcode(String),
    /// Every client.
    All,
}

/// The view of a [`ClientPredicate`].
pub enum ClientPredicateView {
    Name { first_name: Seq<char>, last_name: Seq<char> },
    Zipcode(Seq<char>),
    All,
}

impl View for ClientPredicate {
    type V = ClientPredicateView;

    open spec fn view(&self) -> ClientPredicateView {
        match *self {
            ClientPredicate::Name { first_name, last_name } => ClientPredicateView::Name {
                first_name: first_name@,
                last_name: last_name@,
            },
            ClientPredicate::Zipcode(zipcode) => ClientPredicateView::Zipcode(zipcode@),
            ClientPredicate::All => ClientPredicateView::All,
        }
    }
}

impl ClientPredicateView {
    /// The clients that the predicate stands for.
    pub open spec fn selects(self, client: ClientView) -> bool {
        match self {
            ClientPredicateView::Name { first_name, last_name } => {
                client.first_name == first_name && client.last_name == last_name
            },
            ClientPredicateView::Zipcode(zipcode) => client.zipcode == zipcode,
            ClientPredicateView::All => true,
        }
    }
}

impl ClientFiltersView {
    /// The predicate that these parameters select: both names if both are
    /// there, else the zipcode if it is there, else none.
    pub open spec fn predicate(self) -> ClientPredicateView {
        if self.first_name is Some && self.last_name is Some {
            ClientPredicateView::Name {
                first_name: self.first_name->0,
                last_name: self.last_name->0,
            }
        } else if self.zipcode is Some {
            ClientPredicateView::Zipcode(self.zipcode->0)
        } else {
            ClientPredicateView::All
        }
    }
}

impl ClientFilters {
    /// Picks the predicate of the listing.
    pub fn resolve(self) -> (predicate: ClientPredicate)
        ensures
            predicate@ == self@.predicate(),
    {
        match (self.first_name, self.last_name, self.zipcode) {
            (Some(first_name), Some(last_name), _) => ClientPredicate::Name {
                first_name,
                last_name,
            },
            (_, _, Some(zipcode)) => ClientPredicate::Zipcode(zipcode),
            _ => ClientPredicate::All,
        }
    }
}

impl ClientPredicate {
    /// Tells whether the predicate stands for `client`.
    pub fn admits(&self, client: &Client) -> (admitted: bool)
        ensures
            admitted == self@.selects(client@),
    {
        match self {
            ClientPredicate::Name { first_name, last_name } => {
                client.first_name == *first_name && client.last_name == *last_name
            },
            ClientPredicate::Zipcode(zipcode) => client.zipcode == *zipcode,
            ClientPredicate::All => true,
        }
    }
}

/// Where both names are given they alone decide: the listing selects the
/// clients of that first and last name, and the zipcode parameter, given or
/// not and whatever it holds, changes nothing.
pub proof fn names_take_precedence_over_zipcode(
    filters: ClientFilters,
    zipcode: Option<Seq<char>>,
    client: ClientView,
)
    requires
        filters.first_name is Some,
        filters.last_name is Some,
    ensures
        filters@.predicate() == (ClientPredicateView::Name {
            first_name: filters@.first_name->0,
            last_name: filters@.last_name->0,
        }),
        (ClientFiltersView { zipcode, ..filters@ }).predicate() == filters@.predicate(),
        filters@.predicate().selects(client) <==> client.first_name == filters@.first_name->0
            && client.last_name == filters@.last_name->0,
{
}

/// Where a name is missing and a zipcode is given, the zipcode decides; where
/// a name and the zipcode are missing, every client is listed.
pub proof fn zipcode_decides_without_both_names(filters: ClientFilters, client: ClientView)
    requires
        filters.first_name is None || filters.last_name is None,
    ensures
        filters.zipcode is Some ==> (filters@.predicate().selects(client) <==> client.zipcode
            == filters@.zipcode->0),
        filters.zipcode is None ==> filters@.predicate().selects(client),
{
}

/// The query parameters of a listing of shifts.
#[derive(Debug, Clone, Copy, PartialEq, Eq, Structural)]
pub struct ShiftFilters {
    pub client_id: Option<i32>,
    pub service_id: Option<i32>,
    pub zipcode: Option<i32>,
    pub available: Option<bool>,
    pub min_hours: Option<i8>,
    pub max_hours: Option<i8>,
}

/// The one predicate that a listing of shifts applies.
#[derive(Debug, Clone, Copy, PartialEq, Eq, Structural)]
pub enum ShiftPredicate {
    /// The shift is of this client.
    Client(i32),
    /// The shift is of this service.
    Service(i32),
    /// The zipcode is as given.
    Zipcode(i32),
    /// The shift is not assigned yet.
    Available,
    /// The hours lie between the two bounds, both included.
    Hours { min: i8, max: i8 },
    /// Every shift.
    All,
}

impl ShiftPredicate {
    /// The shifts that the predicate stands for.
    pub open spec fn selects(self, shift: Shift) -> bool {
        match self {
            ShiftPredicate::Client(client_id) => shift.client_id == client_id,
            ShiftPredicate::Service(service_id) => shift.service_id == service_id,
            ShiftPredicate::Zipcode(zipcode) => shift.zipcode == zipcode,
            ShiftPredicate::Available => shift.available,
            ShiftPredicate::Hours { min, max } => min <= shift.total_hours <= max,
            ShiftPredicate::All => true,
        }
    }

    /// Tells whether the predicate stands for `shift`.
    pub fn admits(&self, shift: &Shift) -> (admitted: bool)
        ensures
            admitted == self.selects(*shift),
    {
        match *self {
            ShiftPredicate::Client(client_id) => shift.client_id == client_id,
            ShiftPredicate::Service(service_id) => shift.service_id == service_id,
            ShiftPredicate::Zipcode(zipcode) => shift.zipcode == zipcode,
            ShiftPredicate::Available => shift.available,
            ShiftPredicate::Hours { min, max } => min <= shift.total_hours && shift.total_hours <= max,
            ShiftPredicate::All => true,
        }
    }
}

impl ShiftFilters {
    /// The predicate that these parameters select. In order: the client, the
    /// service, the zipcode, availability when it is asked to be true, the range
    /// of hours when both of its bounds are there, else none.
    pub open spec fn predicate(self) -> ShiftPredicate {
        if self.client_id is Some {
            ShiftPredicate::Client(self.client_id->0)
        } else if self.service_id is Some {
            ShiftPredicate::Service(self.service_id->0)
        } else if self.zipcode is Some {
            ShiftPredicate::Zipcode(self.zipcode->0)
        } else if self.available == Some(true) {
            ShiftPredicate::Available
        } else if self.min_hours is Some && self.max_hours is Some {
            ShiftPredicate::Hours { min: self.min_hours->0, max: self.max_hours->0 }
        } else {
            ShiftPredicate::All
        }
    }

    /// Picks the predicate of the listing.
    pub fn resolve(&self) -> (predicate: ShiftPredicate)
        ensures
            predicate == self.predicate(),
    {
        match (
            self.client_id,
            self.service_id,
            self.zipcode,
            self.available,
            self.min_hours,
            self.max_hours,
        ) {
            (Some(client_id), _, _, _, _, _) => ShiftPredicate::Client(client_id),
            (_, Some(service_id), _, _, _, _) => ShiftPredicate::Service(service_id),
            (_, _, Some(zipcode), _, _, _) => ShiftPredicate::Zipcode(zipcode),
            (_, _, _, Some(true), _, _) => ShiftPredicate::Available,
            (_, _, _, _, Some(min), Some(max)) => ShiftPredicate::Hours { min, max },
            _ => ShiftPredicate::All,
        }
    }
}

/// The parameters of a listing of shifts are looked at in one order: the client
/// before the service, the service before the zipcode, the zipcode before an
/// availability that is asked to be true. The first of them that is present
/// decides alone, whatever the later ones and the bounds of the hours hold.
pub proof fn first_present_filter_decides(filters: ShiftFilters, shift: Shift)
    ensures
        filters.client_id is Some ==> (filters.predicate().selects(shift) <==> shift.client_id
            == filters.client_id->0),
        filters.client_id is None && filters.service_id is Some ==> (filters.predicate().selects(
            shift,
        ) <==> shift.service_id == filters.service_id->0),
        filters.client_id is None && filters.service_id is None && filters.zipcode is Some ==> (
        filters.predicate().selects(shift) <==> shift.zipcode == filters.zipcode->0),
        filters.client_id is None && filters.service_id is None && filters.zipcode is None
            && filters.available == Some(true) ==> (filters.predicate().selects(shift)
            <==> shift.available),
{
}

/// Where nothing before it decides (no client, service or zipcode is given and
/// availability is not asked to be true) and both bounds are given, the listing
/// selects exactly the shifts whose hours lie between the bounds, both
/// included. Where a bound is missing too, every shift is listed.
pub proof fn hours_range_is_inclusive(filters: ShiftFilters, shift: Shift)
    requires
        filters.client_id is None,
        filters.service_id is None,
        filters.zipcode is None,
        filters.available != Some(true),
    ensures
        filters.min_hours is Some && filters.max_hours is Some ==> (filters.predicate().selects(
            shift,
        ) <==> filters.min_hours->0 <= shift.total_hours <= filters.max_hours->0),
        filters.min_hours is None || filters.max_hours is None ==> filters.predicate().selects(
            shift,
        ),
{
}

} // verus!
