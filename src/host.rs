//! The host's types and the two host vectors that hold the guestbook's log:
//! one of authors and one of texts, item `i` of each making entry `i`.
//!
//! Addresses, strings and the environment are opaque here: the guestbook
//! only carries them. A host vector is known through the sequence of its
//! items, each `Some` value where the item is of the vector's element type
//! and `None` where it is not (a vector read from storage is not checked
//! item by item), and through the wrappers below.

use vstd::prelude::*;

verus! {

/// The host environment that owns every host object of a call.
#[verifier::external_type_specification]
#[verifier::external_body]
pub struct ExEnv(soroban_sdk::Env);

/// An account or contract address of the host: an opaque principal that can
/// prove that it authorized a call.
#[verifier::external_type_specification]
#[verifier::external_body]
pub struct ExAddress(soroban_sdk::Address);

/// A string value held by the host.
#[verifier::external_type_specification]
#[verifier::external_body]
pub struct ExHostString(soroban_sdk::String);

/// A vector held by the host.
#[verifier::external_type_specification]
#[verifier::external_body]
#[verifier::reject_recursive_types(T)]
pub struct ExHostVec<T>(soroban_sdk::Vec<T>);

/// The host's report that a value is not of the type asked for.
#[verifier::external_type_specification]
#[verifier::external_body]
pub struct ExConversionError(soroban_sdk::ConversionError);

/// Relies on `Clone` for `soroban_sdk::Address`: a second handle on the same
/// host object. Nothing more is claimed of it.
pub assume_specification[ <soroban_sdk::Address as core::clone::Clone>::clone ](a: &soroban_sdk::Address) -> soroban_sdk::Address;

/// Relies on `Clone` for `soroban_sdk::String`: a second handle on the same
/// host object. Nothing more is claimed of it.
pub assume_specification[ <soroban_sdk::String as core::clone::Clone>::clone ](s: &soroban_sdk::String) -> soroban_sdk::String;

/// The authors of the log, as the host stores them.
pub type HostUsers = soroban_sdk::Vec<soroban_sdk::Address>;

/// The texts of the log, as the host stores them.
pub type HostContents = soroban_sdk::Vec<soroban_sdk::String>;

/// The items of a host vector of addresses, first to last; `None` stands for
/// an item that is not an address.
pub uninterp spec fn address_items(v: soroban_sdk::Vec<soroban_sdk::Address>) -> Seq<Option<soroban_sdk::Address>>;

/// The items of a host vector of strings, first to last; `None` stands for
/// an item that is not a string.
pub uninterp spec fn string_items(v: soroban_sdk::Vec<soroban_sdk::String>) -> Seq<Option<soroban_sdk::String>>;

/// Relies on `soroban_sdk::Vec::new`: a new host vector holds no item.
#[verifier::external_body]
pub(crate) fn new_users(env: &soroban_sdk::Env) -> (r: HostUsers)
    ensures
        address_items(r) == Seq::<Option<soroban_sdk::Address>>::empty(),
{
    soroban_sdk::Vec::new(env)
}

/// Relies on `soroban_sdk::Vec::new`: a new host vector holds no item.
#[verifier::external_body]
pub(crate) fn new_contents(env: &soroban_sdk::Env) -> (r: HostContents)
    ensures
        string_items(r) == Seq::<Option<soroban_sdk::String>>::empty(),
{
    soroban_sdk::Vec::new(env)
}

/// Relies on `soroban_sdk::Vec::push_back`: the address is added after the
/// other items, which stay as they were. The host refuses to grow a vector
/// past `u32::MAX` items.
#[verifier::external_body]
pub(crate) fn push_user(v: &mut HostUsers, a: soroban_sdk::Address)
    requires
        address_items(*old(v)).len() < u32::MAX,
    ensures
        address_items(*final(v)) == address_items(*old(v)).push(Some(a)),
{
    v.push_back(a)
}

/// Relies on `soroban_sdk::Vec::push_back`: the string is added after the
/// other items, which stay as they were. The host refuses to grow a vector
/// past `u32::MAX` items.
#[verifier::external_body]
pub(crate) fn push_content(v: &mut HostContents, s: soroban_sdk::String)
    requires
        string_items(*old(v)).len() < u32::MAX,
    ensures
        string_items(*final(v)) == string_items(*old(v)).push(Some(s)),
{
    v.push_back(s)
}

/// Relies on `soroban_sdk::Vec::len`: the number of items.
#[verifier::external_body]
pub(crate) fn user_count(v: &HostUsers) -> (r: u32)
    ensures
        r as int == address_items(*v).len(),
{
    v.len()
}

/// Relies on `soroban_sdk::Vec::len`: the number of items.
#[verifier::external_body]
pub(crate) fn content_count(v: &HostContents) -> (r: u32)
    ensures
        r as int == string_items(*v).len(),
{
    v.len()
}

/// Relies on `soroban_sdk::Vec::try_get`: `None` past the end; at a position
/// within it, the item if it is an address, and an error if it is not.
#[verifier::external_body]
pub(crate) fn try_user_at(v: &HostUsers, i: u32) -> (r: Result<Option<soroban_sdk::Address>, soroban_sdk::ConversionError>)
    ensures
        i >= address_items(*v).len() ==> r matches Ok(None),
        i < address_items(*v).len() ==> match address_items(*v)[i as int] {
            Some(a) => r == Ok::<Option<soroban_sdk::Address>, soroban_sdk::ConversionError>(Some(a)),
            None => r is Err,
        },
{
    v.try_get(i)
}

/// Relies on `soroban_sdk::Vec::try_get`: `None` past the end; at a position
/// within it, the item if it is a string, and an error if it is not.
#[verifier::external_body]
pub(crate) fn try_content_at(v: &HostContents, i: u32) -> (r: Result<Option<soroban_sdk::String>, soroban_sdk::ConversionError>)
    ensures
        i >= string_items(*v).len() ==> r matches Ok(None),
        i < string_items(*v).len() ==> match string_items(*v)[i as int] {
            Some(s) => r == Ok::<Option<soroban_sdk::String>, soroban_sdk::ConversionError>(Some(s)),
            None => r is Err,
        },
{
    v.try_get(i)
}

} // verus!
