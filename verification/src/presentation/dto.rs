//! The request bodies of the REST API and how they become use-case inputs.
use vstd::prelude::*;
use crate::domain::errors::{DomainError, DomainErrorView};
use crate::domain::ports::login::LoginCredentials;
use crate::domain::ports::recovery::RecoveryRequest;
use crate::domain::ports::registration::RegistrationData;
use crate::domain::ports::settings::SettingsData;
use crate::domain::ports::verification::{SendCodeRequest, SubmitCodeRequest, VerifyByLinkRequest};
use crate::domain::value_objects::email::{invalid_email_error, is_valid_email, Email};
use crate::domain::value_objects::password::{empty_password_error, Password};
use crate::json::Json;

verus! {

/// A registration request.
pub struct RegisterDto {
    pub identifier: String,
    pub username: Option<String>,
    pub password: String,
    pub geo_location: Option<String>,
}

/// A login request.
pub struct LoginDto {
    pub identifier: String,
    pub password: String,
    pub address: Option<String>,
    pub code: Option<String>,
    pub resend: Option<String>,
}

/// A request to recover an account.
pub struct RecoveryDto {
    pub email: String,
}

/// A request to verify an address by a link.
pub struct VerifyByLinkDto {
    pub email: String,
    pub transient_payload: Option<Json>,
}

/// A request to send a verification code.
pub struct SendVerificationCodeDto {
    pub email: String,
    pub transient_payload: Option<Json>,
}

/// A verification code that the user submits.
pub struct SubmitVerificationCodeDto {
    pub code: String,
    pub transient_payload: Option<Json>,
}

/// A change of account settings.
pub struct UpdateSettingsDto {
    pub method: String,
    pub password: Option<String>,
    pub traits: Option<Json>,
    pub lookup_secret_confirm: Option<bool>,
    pub lookup_secret_disable: Option<bool>,
    pub lookup_secret_regenerate: Option<bool>,
    pub lookup_secret_reveal: Option<bool>,
    pub transient_payload: Option<Json>,
}

/// Why an address and a password are refused, checked in that order: `None` when
/// both are acceptable.
pub open spec fn credentials_problem(email: Seq<char>, password: Seq<char>) -> Option<DomainErrorView> {
    if !is_valid_email(email) {
        Some(invalid_email_error())
    } else if password.len() == 0 {
        Some(empty_password_error())
    } else {
        None
    }
}

/// Why an address is refused, or `None`.
pub open spec fn email_problem(email: Seq<char>) -> Option<DomainErrorView> {
    if !is_valid_email(email) {
        Some(invalid_email_error())
    } else {
        None
    }
}

/// Why a new password is refused, or `None` (no new password is acceptable).
pub open spec fn new_password_problem(password: Option<Seq<char>>) -> Option<DomainErrorView> {
    match password {
        Some(p) => if p.len() == 0 { Some(empty_password_error()) } else { None },
        None => None,
    }
}

/// Whether an outcome is refused with exactly `problem`, or succeeds when there is none.
pub open spec fn refused_iff<T>(r: Result<T, DomainError>, problem: Option<DomainErrorView>) -> bool {
    match problem {
        Some(p) => r matches Err(e) && e@ == p,
        None => r is Ok,
    }
}

impl LoginCredentials {
    /// The credentials of a login request: the address is checked first, then
    /// the password; the rest is carried over as it is.
    pub fn from_dto(dto: LoginDto) -> (r: Result<LoginCredentials, DomainError>)
        ensures
            refused_iff(r, credentials_problem(dto.identifier@, dto.password@)),
            r matches Ok(c) ==> {
                &&& c.identifier@ == dto.identifier@
                &&& c.password@ == dto.password@
                &&& c.address == dto.address
                &&& c.code == dto.code
                &&& c.resend == dto.resend
            },
    {
        let identifier = match Email::new(dto.identifier) {
            Ok(e) => e,
            Err(e) => return Err(e),
        };
        let password = match Password::new(dto.password) {
            Ok(p) => p,
            Err(e) => return Err(e),
        };
        Ok(LoginCredentials {
            identifier,
            password,
            address: dto.address,
            code: dto.code,
            resend: dto.resend,
        })
    }
}

impl RecoveryRequest {
    /// The recovery request for a well-formed address.
    pub fn from_dto(dto: RecoveryDto) -> (r: Result<RecoveryRequest, DomainError>)
        ensures
            refused_iff(r, email_problem(dto.email@)),
            r matches Ok(q) ==> q.email@ == dto.email@,
    {
        match Email::new(dto.email) {
            Ok(email) => Ok(RecoveryRequest { email }),
            Err(e) => Err(e),
        }
    }
}

impl RegistrationData {
    /// The registration data of a request: the address is checked first, then the
    /// password; a missing username becomes the empty one.
    pub fn from_dto(dto: RegisterDto) -> (r: Result<RegistrationData, DomainError>)
        ensures
            refused_iff(r, credentials_problem(dto.identifier@, dto.password@)),
            r matches Ok(d) ==> {
                &&& d.email@ == dto.identifier@
                &&& d.password@ == dto.password@
                &&& d.username@ == match dto.username {
                    Some(u) => u@,
                    None => Seq::<char>::empty(),
                }
                &&& d.geo_location == dto.geo_location
            },
    {
        let email = match Email::new(dto.identifier) {
            Ok(e) => e,
            Err(e) => return Err(e),
        };
        let username = match dto.username {
            Some(u) => u,
            None => String::new(),
        };
        let password = match Password::new(dto.password) {
            Ok(p) => p,
            Err(e) => return Err(e),
        };
        Ok(RegistrationData { email, username, password, geo_location: dto.geo_location })
    }
}

impl SettingsData {
    /// The settings change of a request: a new password, when there is one, must
    /// not be empty; the rest is carried over as it is.
    pub fn from_dto(dto: UpdateSettingsDto) -> (r: Result<SettingsData, DomainError>)
        ensures
            refused_iff(r, new_password_problem(dto.password.deep_view())),
            r matches Ok(d) ==> {
                &&& d.method@ == dto.method@
                &&& d.password is Some <==> dto.password is Some
                &&& (d.password matches Some(p) ==> p@ == dto.password->Some_0@)
                &&& d.traits == dto.traits
                &&& d.lookup_secret_confirm == dto.lookup_secret_confirm
                &&& d.lookup_secret_disable == dto.lookup_secret_disable
                &&& d.lookup_secret_regenerate == dto.lookup_secret_regenerate
                &&& d.lookup_secret_reveal == dto.lookup_secret_reveal
                &&& d.transient_payload == dto.transient_payload
            },
    {
        let password = match dto.password {
            Some(p) => match Password::new(p) {
                Ok(p) => Some(p),
                Err(e) => return Err(e),
            },
            None => None,
        };
        Ok(SettingsData {
            method: dto.method,
            password,
            traits: dto.traits,
            lookup_secret_confirm: dto.lookup_secret_confirm,
            lookup_secret_disable: dto.lookup_secret_disable,
            lookup_secret_regenerate: dto.lookup_secret_regenerate,
            lookup_secret_reveal: dto.lookup_secret_reveal,
            transient_payload: dto.transient_payload,
        })
    }
}

impl VerifyByLinkRequest {
    /// The request for a well-formed address; the payload is carried over.
    pub fn from_dto(dto: VerifyByLinkDto) -> (r: Result<VerifyByLinkRequest, DomainError>)
        ensures
            refused_iff(r, email_problem(dto.email@)),
            r matches Ok(q) ==> q.email@ == dto.email@ && q.transient_payload == dto.transient_payload,
    {
        match Email::new(dto.email) {
            Ok(email) => Ok(VerifyByLinkRequest { email, transient_payload: dto.transient_payload }),
            Err(e) => Err(e),
        }
    }
}

impl SendCodeRequest {
    /// The request for a well-formed address; the payload is carried over.
    pub fn from_dto(dto: SendVerificationCodeDto) -> (r: Result<SendCodeRequest, DomainError>)
        ensures
            refused_iff(r, email_problem(dto.email@)),
            r matches Ok(q) ==> q.email@ == dto.email@ && q.transient_payload == dto.transient_payload,
    {
        match Email::new(dto.email) {
            Ok(email) => Ok(SendCodeRequest { email, transient_payload: dto.transient_payload }),
            Err(e) => Err(e),
        }
    }
}

impl SubmitCodeRequest {
    /// The submitted code and payload, as they are.
    pub fn from_dto(dto: SubmitVerificationCodeDto) -> (r: SubmitCodeRequest)
        ensures
            r.code == dto.code,
            r.transient_payload == dto.transient_payload,
    {
        SubmitCodeRequest { code: dto.code, transient_payload: dto.transient_payload }
    }
}

} // verus!
