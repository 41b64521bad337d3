//! Identifiers: the host's instance id, task ids and request ids.

use vstd::prelude::*;

verus! {

/// Whether `c` is a digit of lower-case hexadecimal notation.
pub open spec fn is_lower_hex(c: char) -> bool {
    48 <= c as u32 <= 57 || 97 <= c as u32 <= 102
}

/// Whether `text` is a version 4 UUID in its usual notation: 32 lower-case
/// hexadecimal digits in groups of 8, 4, 4, 4 and 12 with hyphens between
/// them, of which the first of the third group is `4` and the first of the
/// fourth group is `8`, `9`, `a` or `b`.
pub open spec fn is_uuid_v4_text(text: Seq<char>) -> bool {
    &&& text.len() == 36
    &&& text[8] == '-' && text[13] == '-' && text[18] == '-' && text[23] == '-'
    &&& forall|i: int|
        0 <= i < 36 && i != 8 && i != 13 && i != 18 && i != 23 ==> is_lower_hex(
            #[trigger] text[i],
        )
    &&& text[14] == '4'
    &&& (text[19] == '8' || text[19] == '9' || text[19] == 'a' || text[19] == 'b')
}

/// A fresh random identifier as text.
///
/// Calls `uuid::Uuid::new_v4` and renders the result with its `Display`
/// impl. Which identifier comes back is left open: it is random. Claimed is
/// its form only: `new_v4` sets the version and variant bits of a version 4
/// UUID, and `Display` writes the hyphenated lower-case notation. `new_v4`
/// panics if the operating system cannot supply random bytes.
#[verifier::external_body]
pub(crate) fn random_uuid() -> (id: String)
    ensures
        is_uuid_v4_text(id@),
{
    uuid::Uuid::new_v4().to_string()
}

/// The instance id a host runs under, and whether it still has to be
/// written to the settings store.
#[derive(Debug, PartialEq, Eq)]
pub struct InstanceIdentity {
    pub id: String,
    pub newly_created: bool,
}

/// The id to run under: the stored one where there is one, else `fresh`.
pub open spec fn instance_id_of(stored: Option<Seq<char>>, fresh: Seq<char>) -> Seq<char> {
    match stored {
        Some(id) => id,
        None => fresh,
    }
}

/// Picks the instance id for this boot from what the settings store holds
/// and a freshly generated candidate.
///
/// A stored id is kept unchanged, so that it survives restarts; only a host
/// that has none adopts `fresh`, and must then persist it.
pub fn choose_instance_id(stored: Option<String>, fresh: String) -> (identity: InstanceIdentity)
    ensures
        identity.id@ == instance_id_of(crate::text::opt_text(stored), fresh@),
        identity.newly_created == stored.is_none(),
{
    match stored {
        Some(id) => InstanceIdentity { id, newly_created: false },
        None => InstanceIdentity { id: fresh, newly_created: true },
    }
}

/// The instance id for this boot, generating one on the first boot ever.
///
/// A stored id comes back unchanged. Where there is none, the id is a fresh
/// version 4 UUID, which is then to be persisted.
pub fn resolve_instance_id(stored: Option<String>) -> (identity: InstanceIdentity)
    ensures
        identity.newly_created == stored.is_none(),
        stored is Some ==> identity.id@ == stored->Some_0@,
        stored is None ==> is_uuid_v4_text(identity.id@),
{
    match stored {
        Some(id) => InstanceIdentity { id, newly_created: false },
        None => choose_instance_id(None, random_uuid()),
    }
}

} // verus!
