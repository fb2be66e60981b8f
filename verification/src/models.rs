//! The records of the service and their mathematical views.

use vstd::prelude::*;

verus! {

/// The view of an optional text.
pub open spec fn opt_text(text: Option<String>) -> Option<Seq<char>> {
    match text {
        Some(s) => Some(s@),
        None => None,
    }
}

/// A staff account as the store holds it, credential included.
#[derive(Debug, Clone, PartialEq, Eq)]
pub struct User {
    pub user_id: i32,
    pub username: String,
    pub password_hash: String,
    pub role: String,
    pub display_name: Option<String>,
    pub img_url: Option<String>,
    pub short_bio: Option<String>,
}

/// The view of a [`User`].
pub struct UserView {
    pub user_id: i32,
    pub username: Seq<char>,
    pub password_hash: Seq<char>,
    pub role: Seq<char>,
    pub display_name: Option<Seq<char>>,
    pub img_url: Option<Seq<char>>,
    pub short_bio: Option<Seq<char>>,
}

impl View for User {
    type V = UserView;

    open spec fn view(&self) -> UserView {
        UserView {
            user_id: self.user_id,
            username: self.username@,
            password_hash: self.password_hash@,
            role: self.role@,
            display_name: opt_text(self.display_name),
            img_url: opt_text(self.img_url),
            short_bio: opt_text(self.short_bio),
        }
    }
}

/// A staff account as the service shows it: every field of [`User`] but the
/// credential, which is accepted on creation and never given out again.
#[derive(Debug, Clone, PartialEq, Eq)]
pub struct PublicUser {
    pub user_id: i32,
    pub username: String,
    pub role: String,
    pub display_name: Option<String>,
    pub img_url: Option<String>,
    pub short_bio: Option<String>,
}

/// The view of a [`PublicUser`]. It has no field for a credential.
pub struct PublicUserView {
    pub user_id: i32,
    pub username: Seq<char>,
    pub role: Seq<char>,
    pub display_name: Option<Seq<char>>,
    pub img_url: Option<Seq<char>>,
    pub short_bio: Option<Seq<char>>,
}

impl View for PublicUser {
    type V = PublicUserView;

    open spec fn view(&self) -> PublicUserView {
        PublicUserView {
            user_id: self.user_id,
            username: self.username@,
            role: self.role@,
            display_name: opt_text(self.display_name),
            img_url: opt_text(self.img_url),
            short_bio: opt_text(self.short_bio),
        }
    }
}

impl UserView {
    /// What is shown of this account.
    pub open spec fn public(self) -> PublicUserView {
        PublicUserView {
            user_id: self.user_id,
            username: self.username,
            role: self.role,
            display_name: self.display_name,
            img_url: self.img_url,
            short_bio: self.short_bio,
        }
    }

    /// The fields that a creation fills: the rest is left to the store.
    pub open spec fn created_fields(self) -> CreateUserRequestView {
        CreateUserRequestView {
            username: self.username,
            password_hash: self.password_hash,
            role: self.role,
            display_name: self.display_name,
        }
    }
}

impl User {
    /// Drops the credential and keeps the rest.
    pub fn into_public(self) -> (shown: PublicUser)
        ensures
            shown@ == self@.public(),
    {
        PublicUser {
            user_id: self.user_id,
            username: self.username,
            role: self.role,
            display_name: self.display_name,
            img_url: self.img_url,
            short_bio: self.short_bio,
        }
    }
}

/// The body of a request to create a user.
#[derive(Debug, Clone, PartialEq, Eq)]
pub struct CreateUserRequest {
    pub username: String,
    pub password_hash: String,
    pub role: String,
    pub display_name: Option<String>,
}

/// The view of a [`CreateUserRequest`].
pub struct CreateUserRequestView {
    pub username: Seq<char>,
    pub password_hash: Seq<char>,
    pub role: Seq<char>,
    pub display_name: Option<Seq<char>>,
}

impl View for CreateUserRequest {
    type V = CreateUserRequestView;

    open spec fn view(&self) -> CreateUserRequestView {
        CreateUserRequestView {
            username: self.username@,
            password_hash: self.password_hash@,
            role: self.role@,
            display_name: opt_text(self.display_name),
        }
    }
}

/// A person who receives care.
#[derive(Debug, Clone, PartialEq, Eq)]
pub struct Client {
    pub client_id: i32,
    pub first_name: String,
    pub last_name: String,
    pub has_personal_care: bool,
    pub has_lifting: bool,
    pub address_1: String,
    /// The second line of the address, where there is one.
    pub address_2: Option<String>,
    /// A text, so that leading zeros are kept.
    pub zipcode: String,
    pub phone_number: String,
}

/// The view of a [`Client`].
pub struct ClientView {
    pub client_id: i32,
    pub first_name: Seq<char>,
    pub last_name: Seq<char>,
    pub has_personal_care: bool,
    pub has_lifting: bool,
    pub address_1: Seq<char>,
    pub address_2: Option<Seq<char>>,
    pub zipcode: Seq<char>,
    pub phone_number: Seq<char>,
}

impl View for Client {
    type V = ClientView;

    open spec fn view(&self) -> ClientView {
        ClientView {
            client_id: self.client_id,
            first_name: self.first_name@,
            last_name: self.last_name@,
            has_personal_care: self.has_personal_care,
            has_lifting: self.has_lifting,
            address_1: self.address_1@,
            address_2: opt_text(self.address_2),
            zipcode: self.zipcode@,
            phone_number: self.phone_number@,
        }
    }
}

/// Every field of a client but its identifier: what a request to create or to
/// update one carries.
pub struct ClientFields {
    pub first_name: Seq<char>,
    pub last_name: Seq<char>,
    pub has_personal_care: bool,
    pub has_lifting: bool,
    pub address_1: Seq<char>,
    pub address_2: Option<Seq<char>>,
    pub zipcode: Seq<char>,
    pub phone_number: Seq<char>,
}

impl ClientView {
    /// The client without its identifier.
    pub open spec fn fields(self) -> ClientFields {
        ClientFields {
            first_name: self.first_name,
            last_name: self.last_name,
            has_personal_care: self.has_personal_care,
            has_lifting: self.has_lifting,
            address_1: self.address_1,
            address_2: self.address_2,
            zipcode: self.zipcode,
            phone_number: self.phone_number,
        }
    }
}

/// The body of a request to create a client.
#[derive(Debug, Clone, PartialEq, Eq)]
pub struct CreateClientRequest {
    pub first_name: String,
    pub last_name: String,
    pub has_personal_care: bool,
    pub has_lifting: bool,
    pub address_1: String,
    pub address_2: Option<String>,
    pub zipcode: String,
    pub phone_number: String,
}

impl View for CreateClientRequest {
    type V = ClientFields;

    open spec fn view(&self) -> ClientFields {
        ClientFields {
            first_name: self.first_name@,
            last_name: self.last_name@,
            has_personal_care: self.has_personal_care,
            has_lifting: self.has_lifting,
            address_1: self.address_1@,
            address_2: opt_text(self.address_2),
            zipcode: self.zipcode@,
            phone_number: self.phone_number@,
        }
    }
}

/// The body of a request to update a client. An update replaces every field.
#[derive(Debug, Clone, PartialEq, Eq)]
pub struct UpdateClientRequest {
    pub first_name: String,
    pub last_name: String,
    pub has_personal_care: bool,
    pub has_lifting: bool,
    pub address_1: String,
    pub address_2: Option<String>,
    pub zipcode: String,
    pub phone_number: String,
}

impl View for UpdateClientRequest {
    type V = ClientFields;

    open spec fn view(&self) -> ClientFields {
        ClientFields {
            first_name: self.first_name@,
            last_name: self.last_name@,
            has_personal_care: self.has_personal_care,
            has_lifting: self.has_lifting,
            address_1: self.address_1@,
            address_2: opt_text(self.address_2),
            zipcode: self.zipcode@,
            phone_number: self.phone_number@,
        }
    }
}

/// A stretch of care that one client receives of one service.
#[derive(Debug, Clone, Copy, PartialEq, Eq, Structural)]
pub struct Shift {
    pub shift_id: i32,
    /// The client who receives the care.
    pub client_id: i32,
    /// The service that is given.
    pub service_id: i32,
    /// The length of the shift in whole hours.
    pub total_hours: i8,
    /// A number: unlike the zipcode of a client it keeps no leading zeros.
    pub zipcode: i32,
    /// Whether the shift is still to be assigned.
    pub available: bool,
}

/// Every field of a shift but its identifier: what a request to create or to
/// update one carries.
pub struct ShiftFields {
    pub client_id: i32,
    pub service_id: i32,
    pub total_hours: i8,
    pub zipcode: i32,
    pub available: bool,
}

impl Shift {
    /// The shift without its identifier.
    pub open spec fn fields(self) -> ShiftFields {
        ShiftFields {
            client_id: self.client_id,
            service_id: self.service_id,
            total_hours: self.total_hours,
            zipcode: self.zipcode,
            available: self.available,
        }
    }
}

/// The body of a request to create a shift.
#[derive(Debug, Clone, Copy, PartialEq, Eq, Structural)]
pub struct CreateShiftRequest {
    pub client_id: i32,
    pub service_id: i32,
    pub total_hours: i8,
    pub zipcode: i32,
    pub available: bool,
}

impl View for CreateShiftRequest {
    type V = ShiftFields;

    open spec fn view(&self) -> ShiftFields {
        ShiftFields {
            client_id: self.client_id,
            service_id: self.service_id,
            total_hours: self.total_hours,
            zipcode: self.zipcode,
            available: self.available,
        }
    }
}

/// The body of a request to update a shift. An update replaces every field.
#[derive(Debug, Clone, Copy, PartialEq, Eq, Structural)]
pub struct UpdateShiftRequest {
    pub client_id: i32,
    pub service_id: i32,
    pub total_hours: i8,
    pub zipcode: i32,
    pub available: bool,
}

impl View for UpdateShiftRequest {
    type V = ShiftFields;

    open spec fn view(&self) -> ShiftFields {
        ShiftFields {
            client_id: self.client_id,
            service_id: self.service_id,
            total_hours: self.total_hours,
            zipcode: self.zipcode,
            available: self.available,
        }
    }
}

/// A kind of care that can be given. Reference data: no request changes it.
#[derive(Debug, Clone, PartialEq, Eq)]
pub struct Service {
    pub services_id: i32,
    pub service_name: String,
}

/// The view of a [`Service`].
pub struct ServiceView {
    pub services_id: i32,
    pub service_name: Seq<char>,
}

impl View for Service {
    type V = ServiceView;

    open spec fn view(&self) -> ServiceView {
        ServiceView { services_id: self.services_id, service_name: self.service_name@ }
    }
}

/// The link between a client and a service that the client receives.
#[derive(Debug, Clone, Copy, PartialEq, Eq, Structural)]
pub struct ClientService {
    pub client_id: i32,
    pub service_id: i32,
}

} // verus!
