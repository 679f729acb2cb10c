//! The account record a timeline entry is attributed to.

use vstd::prelude::*;

verus! {

/// One free-form profile field: a name/value pair.
#[derive(Debug)]
pub struct AccountField {
    pub name: String,
    pub value: String,
}

/// A user account as the timeline service reports it.
#[derive(Debug)]
pub struct Account {
    pub id: String,
    pub acct: String,
    pub display_name: String,
    pub bot: bool,
    pub note: String,
    pub url: String,
    pub followers_count: u32,
    pub following_count: u32,
    pub statuses_count: u32,
    pub fields: Vec<AccountField>,
}

} // verus!
