//! The remote user record and the profile built from it.
use vstd::prelude::*;
use vstd::string::*;
use crate::decimal::{decimal_of, is_u64_decimal, parse_u64, push_decimal, u64_text_value};
use crate::error::FetchError;

verus! {

#[verifier::external_type_specification]
#[verifier::external_body]
pub struct ExJsonValue(serde_json::Value);

/// A user record as the remote service sends it. Many fields are optional,
/// as the remote schema grows on its own.
#[derive(Debug)]
pub struct User {
    pub id: String,
    pub username: String,
    pub discriminator: String,
    pub global_name: Option<String>,
    pub avatar: Option<String>,
    pub bot: Option<bool>,
    pub system: Option<bool>,
    pub mfa_enabled: Option<bool>,
    pub banner: Option<String>,
    pub accent_color: Option<i32>,
    pub locale: Option<String>,
    pub verified: Option<bool>,
    pub email: Option<String>,
    pub flags: Option<i32>,
    pub premium_type: Option<i32>,
    pub public_flags: Option<i32>,
    pub avatar_decoration_data: serde_json::Value,
}

/// The tier code that marks an elevated (paid) account.
pub const ELEVATED_TIER: i32 = 1;

/// The profile as the rest of the program sees it.
#[derive(Debug)]
pub struct ProfileRecord {
    pub id: u64,
    pub username: String,
    pub global_name: String,
    pub avatar_ref: String,
    pub banner_ref: String,
    pub created_at: u32,
    pub has_elevated_tier: bool,
}

/// The characters of an optional string, empty when absent.
pub open spec fn or_empty(s: Option<String>) -> Seq<char> {
    match s {
        Some(v) => v@,
        None => Seq::empty(),
    }
}

pub open spec fn elevated(premium_type: Option<i32>) -> bool {
    premium_type == Some(ELEVATED_TIER)
}

/// `p` is the profile that the record `u` describes.
pub open spec fn profile_of(u: &User, p: &ProfileRecord) -> bool {
    &&& p.id as nat == u64_text_value(u.id@)
    &&& p.username@ == u.username@
    &&& p.global_name@ == or_empty(u.global_name)
    &&& p.avatar_ref@ == or_empty(u.avatar)
    &&& p.banner_ref@ == or_empty(u.banner)
    &&& p.created_at == 0
    &&& p.has_elevated_tier == elevated(u.premium_type)
}

fn string_or_empty(s: &Option<String>) -> (r: String)
    ensures
        r@ == or_empty(*s),
{
    match s {
        Some(v) => v.clone(),
        None => String::new(),
    }
}

impl ProfileRecord {
    /// The profile before anything was fetched: id 0 and every field empty.
    pub fn empty() -> (r: ProfileRecord)
        ensures
            r.id == 0,
            r.username@.len() == 0,
            r.global_name@.len() == 0,
            r.avatar_ref@.len() == 0,
            r.banner_ref@.len() == 0,
            r.created_at == 0,
            !r.has_elevated_tier,
    {
        ProfileRecord {
            id: 0,
            username: String::new(),
            global_name: String::new(),
            avatar_ref: String::new(),
            banner_ref: String::new(),
            created_at: 0,
            has_elevated_tier: false,
        }
    }

    /// Builds the profile from a remote record. The id must be a decimal
    /// number that fits in a `u64`, else the record is a `Decode` error. The
    /// creation time is not in the record and stays 0.
    pub fn from_user(u: &User) -> (r: Result<ProfileRecord, FetchError>)
        ensures
            r.is_ok() == is_u64_decimal(u.id@),
            r matches Ok(p) ==> profile_of(u, &p),
            r matches Err(e) ==> e == FetchError::Decode,
    {
        let id = match parse_u64(u.id.as_str()) {
            Some(n) => n,
            None => return Err(FetchError::Decode),
        };
        let tier = match u.premium_type {
            Some(t) => t == ELEVATED_TIER,
            None => false,
        };
        Ok(ProfileRecord {
            id,
            username: u.username.clone(),
            global_name: string_or_empty(&u.global_name),
            avatar_ref: string_or_empty(&u.avatar),
            banner_ref: string_or_empty(&u.banner),
            created_at: 0,
            has_elevated_tier: tier,
        })
    }
}

pub open spec fn profile_url_of(id: u64) -> Seq<char> {
    "https://discord.com/api/v10/users/"@ + decimal_of(id as nat)
}

pub open spec fn authorization_of(token: Seq<char>) -> Seq<char> {
    "Bot "@ + token
}

/// The profile endpoint for a user: `{base}/{id}`.
pub fn profile_url(id: u64) -> (r: String)
    ensures
        r@ == profile_url_of(id),
{
    let mut url = String::from_str("https://discord.com/api/v10/users/");
    push_decimal(&mut url, id);
    url
}

/// The `Authorization` header value for a bot token.
pub fn authorization(token: &str) -> (r: String)
    ensures
        r@ == authorization_of(token@),
{
    let mut h = String::from_str("Bot ");
    h.append(token);
    h
}

} // verus!
