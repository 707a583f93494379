//! The plugin's memory: open checkouts by id, and merchant profiles by the merchant's address. Both
//! are held in concurrent maps and changed by their owner alone.

use dashmap::DashMap;
use vstd::prelude::*;

use crate::checkout::UcpCheckoutSession;
use crate::discovery::CachedMerchantProfile;

verus! {

/// `dashmap::DashMap`: a map that is split into locked parts.
#[verifier::external_type_specification]
#[verifier::external_body]
#[verifier::reject_recursive_types(K)]
#[verifier::reject_recursive_types(V)]
#[verifier::reject_recursive_types(S)]
pub struct ExDashMap<K, V, S>(dashmap::DashMap<K, V, S>);

/// The sessions that a map of sessions holds, by the text of their key.
pub uninterp spec fn session_entries(m: DashMap<String, UcpCheckoutSession>) -> Map<
    Seq<char>,
    UcpCheckoutSession,
>;

/// The profiles that a map of profiles holds, by the text of their key.
pub uninterp spec fn profile_entries(m: DashMap<String, CachedMerchantProfile>) -> Map<
    Seq<char>,
    CachedMerchantProfile,
>;

/// `DashMap::new`: the map holds nothing.
#[verifier::external_body]
pub(crate) fn new_sessions() -> (r: DashMap<String, UcpCheckoutSession>)
    ensures
        session_entries(r) == (Map::<Seq<char>, UcpCheckoutSession>::empty()),
{
    DashMap::new()
}

/// `DashMap::insert`: the key has the value from then on, whatever it had before; the other keys
/// keep theirs.
#[verifier::external_body]
pub(crate) fn put_session(
    m: &mut DashMap<String, UcpCheckoutSession>,
    key: String,
    session: UcpCheckoutSession,
)
    ensures
        session_entries(*final(m)) == session_entries(*old(m)).insert(key@, session),
{
    m.insert(key, session);
}

/// `DashMap::remove`: the value that the key had, which is gone then; the other keys keep theirs.
#[verifier::external_body]
pub(crate) fn take_session(m: &mut DashMap<String, UcpCheckoutSession>, key: &str) -> (r: Option<
    UcpCheckoutSession,
>)
    ensures
        session_entries(*final(m)) == session_entries(*old(m)).remove(key@),
        match r {
            Some(session) => session_entries(*old(m)).contains_key(key@) && session
                == session_entries(*old(m))[key@],
            None => !session_entries(*old(m)).contains_key(key@),
        },
{
    m.remove(key).map(|entry| entry.1)
}

/// `DashMap::new`: the map holds nothing.
#[verifier::external_body]
pub(crate) fn new_profiles() -> (r: DashMap<String, CachedMerchantProfile>)
    ensures
        profile_entries(r) == (Map::<Seq<char>, CachedMerchantProfile>::empty()),
{
    DashMap::new()
}

/// `DashMap::insert`: the key has the value from then on, whatever it had before; the other keys
/// keep theirs.
#[verifier::external_body]
pub(crate) fn put_profile(
    m: &mut DashMap<String, CachedMerchantProfile>,
    key: String,
    profile: CachedMerchantProfile,
)
    ensures
        profile_entries(*final(m)) == profile_entries(*old(m)).insert(key@, profile),
{
    m.insert(key, profile);
}

/// `DashMap::remove`: the value that the key had, which is gone then; the other keys keep theirs.
#[verifier::external_body]
pub(crate) fn take_profile(m: &mut DashMap<String, CachedMerchantProfile>, key: &str) -> (r: Option<
    CachedMerchantProfile,
>)
    ensures
        profile_entries(*final(m)) == profile_entries(*old(m)).remove(key@),
        match r {
            Some(profile) => profile_entries(*old(m)).contains_key(key@) && profile
                == profile_entries(*old(m))[key@],
            None => !profile_entries(*old(m)).contains_key(key@),
        },
{
    m.remove(key).map(|entry| entry.1)
}

} // verus!
